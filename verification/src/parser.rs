//! The automaton that reads a telegram line by line, and the reads that
//! drive it over bytes held in memory.
//!
//! A telegram is an identifier line that starts with `/`, an empty line,
//! data lines, and a trailer line that starts with `!` and gives the
//! checksum in hexadecimal. The checksum covers the identifier line, the
//! empty line and the data lines, each with a carriage return and a line
//! feed after it whatever the line end was that came in, and the `!` of the
//! trailer line.
//!
//! Where the line after the identifier line is not empty, the telegram is
//! given up: the identifier and the bytes gathered for the checksum are
//! dropped, and the automaton looks for an identifier line again, starting
//! with the line after.

use vstd::prelude::*;
use vstd::slice::slice_to_vec;
use vstd::utf8::{decode_utf8, valid_utf8};

use crate::ascii::{BANG, CR, LF, SLASH};
use crate::code_line::{line_of, ParsedLine};
use crate::crc::{checksum, crc16_arc};
use crate::line_reader::{after_first_line, first_line, has_line, LineReader};
use crate::number::{parse_hex_u16, parse_unsigned};
use crate::telegram::error::Error;
use crate::telegram::{field_of, stored, Field, Telegram, TelegramView};
use crate::text::{str_from_utf8, string_from_utf8};

verus! {

/// Where the automaton stands in a telegram.
#[derive(Debug, Clone, Copy, PartialEq, Eq, Structural)]
pub enum ParserState {
    /// No identifier line was seen yet.
    WaitingForHeader,
    /// The identifier line was seen, and the empty line is due.
    ReadingHeader,
    /// The data lines are being read.
    ReadingMessage,
}

/// What a line did to the automaton.
#[derive(Debug, Clone, Copy, PartialEq, Eq, Structural)]
pub enum Event {
    /// The line stands before any identifier line and was passed over.
    Ignored,
    /// The line is an identifier line.
    Header,
    /// The line is the empty line after the identifier line.
    Separator,
    /// The line after the identifier line is not empty: the telegram was
    /// given up.
    Restart,
    /// The line does not follow the grammar of a data line. It counts for
    /// the checksum and for nothing else.
    NotData,
    /// The line is a data line whose code stands for no field. It counts for
    /// the checksum and for nothing else.
    Unknown,
    /// The line was stored in the field.
    Stored(Field),
    /// The line is the trailer line, which gives this checksum.
    Trailer(u16),
}

/// What a [`TelegramParser`] holds: where it stands, the record as far as
/// it is filled, and the bytes that the checksum covers so far.
pub struct ParserView {
    pub state: ParserState,
    pub telegram: TelegramView,
    pub covered: Seq<u8>,
}

/// The line end that is counted for the checksum after a line.
pub open spec fn line_end() -> Seq<u8> {
    seq![CR, LF]
}

impl ParserView {
    /// The automaton before its first line.
    pub open spec fn start() -> ParserView {
        ParserView {
            state: ParserState::WaitingForHeader,
            telegram: TelegramView::empty(),
            covered: Seq::empty(),
        }
    }
}

/// Whether `line` starts with the byte `mark`.
pub open spec fn starts_with(line: Seq<u8>, mark: u8) -> bool {
    line.len() > 0 && line[0] == mark
}

/// What the identifier line `line` does: it starts a new record with the
/// identifier that follows the `/`, and is the first thing that the checksum
/// covers. An identifier that is not valid UTF-8 ends the read.
pub open spec fn header_step(line: Seq<u8>) -> Result<(ParserView, Event), Error> {
    if valid_utf8(line.skip(1)) {
        Ok(
            (
                ParserView {
                    state: ParserState::ReadingHeader,
                    telegram: TelegramView {
                        ident: decode_utf8(line.skip(1)),
                        ..TelegramView::empty()
                    },
                    covered: line + line_end(),
                },
                Event::Header,
            ),
        )
    } else {
        Err(Error::NonUtf8Val)
    }
}

/// What the trailer line `line` does: its `!` is the last thing that the
/// checksum covers, and what follows the `!` gives the checksum to expect,
/// as a hexadecimal `u16`. A checksum that is not valid UTF-8 or no such
/// number ends the read.
pub open spec fn trailer_step(p: ParserView, line: Seq<u8>) -> Result<(ParserView, Event), Error> {
    if !valid_utf8(line.skip(1)) {
        Err(Error::NonUtf8Parse)
    } else {
        match parse_unsigned(line.skip(1), 16, 0xffff) {
            Some(expected) => Ok(
                (ParserView { covered: p.covered.push(BANG), ..p }, Event::Trailer(expected as u16)),
            ),
            None => Err(Error::InvalidInt),
        }
    }
}

/// What the data line `line` does: it counts for the checksum, and where it
/// follows the grammar and its code stands for a field, it is stored there.
pub open spec fn data_step(p: ParserView, line: Seq<u8>) -> Result<(ParserView, Event), Error> {
    let covered = p.covered + line + line_end();
    match line_of(line) {
        None => Ok((ParserView { covered, ..p }, Event::NotData)),
        Some(parsed) => match field_of(parsed.obis.obis) {
            None => Ok((ParserView { covered, ..p }, Event::Unknown)),
            Some(field) => match stored(p.telegram, field, parsed) {
                Ok(telegram) => Ok((ParserView { telegram, covered, ..p }, Event::Stored(field))),
                Err(e) => Err(e),
            },
        },
    }
}

/// What one line does to the automaton: the automaton after it and what
/// happened, or the failure that ends the read.
#[verifier::opaque]
pub open spec fn line_step(p: ParserView, line: Seq<u8>) -> Result<(ParserView, Event), Error> {
    match p.state {
        ParserState::WaitingForHeader => if starts_with(line, SLASH) {
            header_step(line)
        } else {
            Ok((p, Event::Ignored))
        },
        ParserState::ReadingHeader => if line.len() == 0 {
            Ok(
                (
                    ParserView {
                        state: ParserState::ReadingMessage,
                        covered: p.covered + line_end(),
                        ..p
                    },
                    Event::Separator,
                ),
            )
        } else {
            Ok((ParserView::start(), Event::Restart))
        },
        ParserState::ReadingMessage => if starts_with(line, BANG) {
            trailer_step(p, line)
        } else {
            data_step(p, line)
        },
    }
}

/// How a read ends once the trailer line is in: with the record where the
/// checksum that was computed is the one that the trailer line gives, and
/// with both checksums where it is not.
pub open spec fn checked(telegram: TelegramView, computed: u16, expected: u16) -> Result<
    Option<TelegramView>,
    Error,
> {
    if computed == expected {
        Ok(Some(telegram))
    } else {
        Err(Error::CrcMismatch(computed, expected))
    }
}

/// How a read ends, and what it leaves unread.
pub struct Outcome {
    pub result: Result<Option<TelegramView>, Error>,
    pub rest: Seq<u8>,
}

/// The read of `input` by an automaton that stands at `p`.
///
/// Lines are taken one by one. The read ends with the first line that fails
/// and with the trailer line, and leaves what follows that line unread.
/// Where the lines run out first there is no telegram, which is no failure,
/// and nothing is left unread.
pub open spec fn read(p: ParserView, input: Seq<u8>) -> Outcome
    decreases input.len(),
{
    if has_line(input) {
        let rest = after_first_line(input);
        match line_step(p, first_line(input)) {
            Err(e) => Outcome { result: Err(e), rest },
            Ok((next, Event::Trailer(expected))) => Outcome {
                result: checked(next.telegram, crc16_arc(next.covered), expected),
                rest,
            },
            Ok((next, _)) => read(next, rest),
        }
    } else {
        Outcome { result: Ok(None), rest: Seq::empty() }
    }
}

/// What the result of a read holds.
pub open spec fn result_view(r: Result<Option<Telegram>, Error>) -> Result<
    Option<TelegramView>,
    Error,
> {
    match r {
        Ok(Some(t)) => Ok(Some(t@)),
        Ok(None) => Ok(None),
        Err(e) => Err(e),
    }
}

/// Ends a read once the trailer line is in: hands out the record where the
/// checksum that was computed is the one that the trailer line gave.
pub fn check(telegram: Telegram, computed: u16, expected: u16) -> (r: Result<
    Option<Telegram>,
    Error,
>)
    ensures
        result_view(r) == checked(telegram@, computed, expected),
{
    if computed == expected {
        Ok(Some(telegram))
    } else {
        Err(Error::CrcMismatch(computed, expected))
    }
}

/// The automaton that reads a telegram line by line.
pub struct TelegramParser {
    state: ParserState,
    telegram: Telegram,
    covered: Vec<u8>,
}

impl View for TelegramParser {
    type V = ParserView;

    closed spec fn view(&self) -> ParserView {
        ParserView { state: self.state, telegram: self.telegram@, covered: self.covered@ }
    }
}

impl TelegramParser {
    /// An automaton before its first line.
    pub fn new() -> (r: Self)
        ensures
            r@ == ParserView::start(),
    {
        TelegramParser {
            state: ParserState::WaitingForHeader,
            telegram: Telegram::default(),
            covered: Vec::new(),
        }
    }

    /// Where the automaton stands.
    pub fn state(&self) -> (r: ParserState)
        ensures
            r == self@.state,
    {
        self.state
    }

    /// Counts `line` and a line end for the checksum.
    fn cover(&mut self, line: &[u8])
        ensures
            final(self)@ == (ParserView { covered: old(self)@.covered + line@ + line_end(), ..old(self)@ }),
    {
        self.covered.extend_from_slice(line);
        self.covered.push(CR);
        self.covered.push(LF);
        assert(self.covered@ =~= old(self).covered@ + line@ + line_end());
    }

    /// Takes one line, without its line end: see [`line_step`]. After a
    /// failure the automaton is of no use.
    pub fn push_line(&mut self, line: &[u8]) -> (r: Result<Event, Error>)
        ensures
            match line_step(old(self)@, line@) {
                Ok((next, event)) => r == Ok::<Event, Error>(event) && final(self)@ == next,
                Err(e) => r == Err::<Event, Error>(e),
            },
    {
        reveal(line_step);
        match self.state {
            ParserState::WaitingForHeader => {
                if line.len() > 0 && line[0] == SLASH {
                    let ident = &line[1..line.len()];
                    assert(ident@ =~= line@.skip(1));
                    match string_from_utf8(slice_to_vec(ident)) {
                        Some(ident) => {
                            self.telegram = Telegram::default();
                            self.telegram.ident = ident;
                            self.covered = Vec::new();
                            self.cover(line);
                            self.state = ParserState::ReadingHeader;
                            assert(self.covered@ =~= line@ + line_end());
                            Ok(Event::Header)
                        },
                        None => Err(Error::NonUtf8Val),
                    }
                } else {
                    Ok(Event::Ignored)
                }
            },
            ParserState::ReadingHeader => {
                if line.len() == 0 {
                    self.cover(line);
                    self.state = ParserState::ReadingMessage;
                    assert(self.covered@ =~= old(self).covered@ + line_end());
                    Ok(Event::Separator)
                } else {
                    self.telegram = Telegram::default();
                    self.covered = Vec::new();
                    self.state = ParserState::WaitingForHeader;
                    Ok(Event::Restart)
                }
            },
            ParserState::ReadingMessage => {
                if line.len() > 0 && line[0] == BANG {
                    self.covered.push(BANG);
                    let text = &line[1..line.len()];
                    assert(text@ =~= line@.skip(1));
                    if str_from_utf8(text).is_none() {
                        return Err(Error::NonUtf8Parse);
                    }
                    match parse_hex_u16(text) {
                        Some(expected) => Ok(Event::Trailer(expected)),
                        None => Err(Error::InvalidInt),
                    }
                } else {
                    self.cover(line);
                    match ParsedLine::parse(line) {
                        None => Ok(Event::NotData),
                        Some(parsed) => match Field::lookup(parsed.obis.obis) {
                            None => Ok(Event::Unknown),
                            Some(field) => match self.telegram.store(field, &parsed) {
                                Ok(()) => Ok(Event::Stored(field)),
                                Err(e) => Err(e),
                            },
                        },
                    }
                }
            },
        }
    }

    /// Ends the read once the trailer line is in, which is when
    /// [`push_line`](TelegramParser::push_line) hands out
    /// [`Event::Trailer`] with the checksum to expect: computes the checksum
    /// of the bytes that it covers, and hands out the record where that is
    /// the checksum `expected`.
    pub fn finish(self, expected: u16) -> (r: Result<Option<Telegram>, Error>)
        ensures
            result_view(r) == checked(self@.telegram, crc16_arc(self@.covered), expected),
    {
        let computed = checksum(self.covered.as_slice());
        check(self.telegram, computed, expected)
    }
}

impl Telegram {
    /// Reads one telegram from where `lines` stands: see [`read`]. The
    /// reader is left after the line that ended the read, so that the next
    /// read starts with what follows.
    pub fn read_next(lines: &mut LineReader) -> (r: Result<Option<Self>, Error>)
        ensures
            result_view(r) == read(ParserView::start(), old(lines)@).result,
            final(lines)@ == read(ParserView::start(), old(lines)@).rest,
    {
        let ghost input = lines@;
        let mut parser = TelegramParser::new();
        loop
            invariant
                input == old(lines)@,
                read(parser@, lines@) == read(ParserView::start(), input),
            decreases lines@.len(),
        {
            let line = match lines.next() {
                Some(line) => line,
                None => {
                    return Ok(None);
                },
            };
            match parser.push_line(line) {
                Err(e) => {
                    return Err(e);
                },
                Ok(Event::Trailer(expected)) => {
                    return parser.finish(expected);
                },
                Ok(_) => {},
            }
        }
    }

    /// Try to read a single telegram from a source of bytes held in memory:
    /// see [`read`].
    pub fn read_from(src: &[u8]) -> (r: Result<Option<Self>, Error>)
        ensures
            result_view(r) == read(ParserView::start(), src@).result,
    {
        let mut lines = LineReader::new(src);
        Telegram::read_next(&mut lines)
    }
}

} // verus!
