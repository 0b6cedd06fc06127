//! What holds of every read.

use vstd::prelude::*;
use vstd::utf8::{decode_utf8, valid_utf8};

use crate::ascii::{find_byte, lemma_find_byte, BANG, LF, SLASH};
use crate::code_line::{line_of, LineView};
use crate::crc::crc16_arc;
use crate::line_reader::{
    after_first_line, first_line, has_line, lemma_first_line, lemma_first_line_of_prefix, one_line,
};
use crate::number::parse_unsigned;
use crate::parser::{
    checked, data_step, line_end, line_step, read, starts_with, Event, Outcome, ParserState,
    ParserView,
};
use crate::telegram::error::Error;
use crate::telegram::{field_of, stored, Field, TelegramView};

verus! {

/// Whether no line of `input` starts with `mark`: `mark` stands neither at
/// the start of `input` nor directly after a line feed.
pub open spec fn no_line_starts_with(input: Seq<u8>, mark: u8) -> bool {
    forall|i: int|
        0 <= i < input.len() && #[trigger] input[i] == mark ==> i > 0 && input[i - 1] != LF
}

/// Input without an identifier line holds no telegram: the read ends
/// without a failure and without a record, having passed over everything.
/// Empty input is one such input.
pub proof fn law_no_identifier_line_no_telegram(input: Seq<u8>)
    requires
        no_line_starts_with(input, SLASH),
    ensures
        read(ParserView::start(), input) == (Outcome { result: Ok(None), rest: Seq::empty() }),
    decreases input.len(),
{
    if has_line(input) {
        let k = find_byte(input, LF, 0);
        let line = first_line(input);
        let rest = after_first_line(input);
        lemma_find_byte(input, LF, 0);
        if line.len() > 0 {
            assert(line[0] == input[0]);
        }
        assert(!starts_with(line, SLASH));
        assert(line_step(ParserView::start(), line) == Ok::<(ParserView, Event), Error>(
            (ParserView::start(), Event::Ignored),
        )) by {
            reveal(line_step);
        }
        assert forall|i: int| 0 <= i < rest.len() && #[trigger] rest[i] == SLASH implies i > 0
            && rest[i - 1] != LF by {
            assert(rest[i] == input[k + 1 + i]);
            if i > 0 {
                assert(rest[i - 1] == input[k + i]);
            }
        }
        law_no_identifier_line_no_telegram(rest);
    }
}

/// A read that ends with a line, not with the end of its input, ends the
/// same way whatever follows that input, and leaves what follows unread.
pub proof fn law_read_ignores_what_follows(p: ParserView, a: Seq<u8>, b: Seq<u8>)
    requires
        read(p, a).result != Ok::<Option<TelegramView>, Error>(None),
    ensures
        read(p, a + b).result == read(p, a).result,
        read(p, a + b).rest == read(p, a).rest + b,
    decreases a.len(),
{
    if has_line(a) {
        lemma_first_line_of_prefix(a, b);
        lemma_find_byte(a, LF, 0);
        match line_step(p, first_line(a)) {
            Err(e) => {},
            Ok((next, Event::Trailer(expected))) => {},
            Ok((next, _)) => {
                law_read_ignores_what_follows(next, after_first_line(a), b);
            },
        }
    }
}

/// Of two telegrams sent back to back, one read hands out the first and
/// stops after its trailer line, and a second read of what is left hands
/// out what a read of the second alone hands out.
pub proof fn law_back_to_back(first: Seq<u8>, second: Seq<u8>)
    requires
        read(ParserView::start(), first).result != Ok::<Option<TelegramView>, Error>(None),
        read(ParserView::start(), first).rest == Seq::<u8>::empty(),
    ensures
        read(ParserView::start(), first + second).result == read(ParserView::start(), first).result,
        read(ParserView::start(), first + second).rest == second,
        read(ParserView::start(), read(ParserView::start(), first + second).rest) == read(
            ParserView::start(),
            second,
        ),
{
    law_read_ignores_what_follows(ParserView::start(), first, second);
    assert(Seq::<u8>::empty() + second =~= second);
}

/// The checksum covers nothing of what the trailer line gives after its
/// `!`. So where a telegram is accepted with the checksum `good` in its
/// trailer line, the same telegram with another checksum `bad` there fails
/// with a mismatch that reports the checksum of the accepted telegram as the
/// computed one and the value of `bad` as the expected one.
pub proof fn law_wrong_checksum_is_reported(
    p: ParserView,
    good: Seq<u8>,
    bad: Seq<u8>,
    tail: Seq<u8>,
)
    requires
        p.state == ParserState::ReadingMessage,
        one_line(good),
        one_line(bad),
        read(p, seq![BANG] + good + line_end() + tail).result matches Ok(Some(_)),
        valid_utf8(bad),
        parse_unsigned(bad, 16, 0xffff).is_some(),
        parse_unsigned(bad, 16, 0xffff) != parse_unsigned(good, 16, 0xffff),
    ensures
        parse_unsigned(good, 16, 0xffff) == Some(crc16_arc(p.covered.push(BANG)) as nat),
        read(p, seq![BANG] + bad + line_end() + tail).result == Err::<
            Option<TelegramView>,
            Error,
        >(
            Error::CrcMismatch(
                crc16_arc(p.covered.push(BANG)),
                parse_unsigned(bad, 16, 0xffff).unwrap() as u16,
            ),
        ),
{
    reveal(line_step);
    let good_line = seq![BANG] + good;
    let bad_line = seq![BANG] + bad;
    lemma_first_line(good_line, tail);
    lemma_first_line(bad_line, tail);
    assert(good_line.skip(1) =~= good);
    assert(bad_line.skip(1) =~= bad);
}

/// What cannot be read is not always a failure. An octet string or a time
/// stamp that is none, and a power failure log with entries that are none,
/// never fail a read. A text fails it only for not being valid UTF-8, a
/// floating-point number and the number of a gas reading only for being no
/// floating-point number with a unit, and a count or a current only for
/// being no integer that fits.
pub proof fn law_only_texts_and_numbers_fail(t: TelegramView, field: Field, line: LineView)
    ensures
        field is Octets || field is ElectricityDate || field is PowerFailureLog ==> stored(
            t,
            field,
            line,
        ).is_ok(),
        stored(t, field, line) matches Err(e) ==> {
            ||| e == Error::NonUtf8Parse && field is Text
            ||| e == Error::InvalidFloat && (field is Float || field is GasReading)
            ||| e == Error::InvalidInt && (field is Count || field is Current)
        },
{
    reveal(stored);
}

/// What the data lines `lines` make of the record `t`, one after the
/// other: each line that follows the grammar and whose code stands for a
/// field is stored, and the other lines change nothing. The first line that
/// fails to be stored gives the failure.
pub open spec fn filled(t: TelegramView, lines: Seq<Seq<u8>>) -> Result<TelegramView, Error>
    decreases lines.len(),
{
    if lines.len() == 0 {
        Ok(t)
    } else {
        match line_of(lines[0]) {
            Some(parsed) if field_of(parsed.obis.obis).is_some() => match stored(
                t,
                field_of(parsed.obis.obis).unwrap(),
                parsed,
            ) {
                Ok(next) => filled(next, lines.skip(1)),
                Err(e) => Err(e),
            },
            _ => filled(t, lines.skip(1)),
        }
    }
}

/// The bytes that send `lines`, each with a carriage return and a line feed
/// after it.
pub open spec fn sent(lines: Seq<Seq<u8>>) -> Seq<u8>
    decreases lines.len(),
{
    if lines.len() == 0 {
        Seq::empty()
    } else {
        lines[0] + line_end() + sent(lines.skip(1))
    }
}

/// Whether each of `lines` can stand as a data line between the empty line
/// and the trailer line: it holds no line feed and does not start with `!`.
pub open spec fn data_lines(lines: Seq<Seq<u8>>) -> bool {
    forall|i: int|
        0 <= i < lines.len() ==> one_line(#[trigger] lines[i]) && !starts_with(lines[i], BANG)
}

/// Data lines that can all be stored are read one by one: the record takes
/// them up in their order, the checksum covers them as they were sent, and
/// the read goes on with what follows them.
pub proof fn lemma_data_lines_are_read(p: ParserView, lines: Seq<Seq<u8>>, tail: Seq<u8>)
    requires
        p.state == ParserState::ReadingMessage,
        data_lines(lines),
        filled(p.telegram, lines).is_ok(),
    ensures
        read(p, sent(lines) + tail) == read(
            ParserView {
                telegram: filled(p.telegram, lines).unwrap(),
                covered: p.covered + sent(lines),
                ..p
            },
            tail,
        ),
    decreases lines.len(),
{
    if lines.len() == 0 {
        assert(sent(lines) + tail =~= tail);
        assert(p.covered + sent(lines) =~= p.covered);
    } else {
        let line = lines[0];
        let rest = lines.skip(1);
        assert(one_line(line) && !starts_with(line, BANG));
        lemma_first_line(line, sent(rest) + tail);
        assert(sent(lines) + tail =~= line + line_end() + (sent(rest) + tail));
        let next = data_step(p, line).unwrap().0;
        assert(line_step(p, line) == data_step(p, line)) by {
            reveal(line_step);
        }
        assert forall|i: int| 0 <= i < rest.len() implies one_line(#[trigger] rest[i])
            && !starts_with(rest[i], BANG) by {
            assert(rest[i] == lines[i + 1]);
        }
        lemma_data_lines_are_read(next, rest, tail);
        assert(next.covered + sent(rest) =~= p.covered + sent(lines));
    }
}

/// The first data line that fails to be stored ends the read with its
/// failure, whatever follows it.
pub proof fn lemma_failing_data_line_ends_the_read(
    p: ParserView,
    lines: Seq<Seq<u8>>,
    tail: Seq<u8>,
)
    requires
        p.state == ParserState::ReadingMessage,
        data_lines(lines),
        filled(p.telegram, lines).is_err(),
    ensures
        read(p, sent(lines) + tail).result == Err::<Option<TelegramView>, Error>(
            filled(p.telegram, lines)->Err_0,
        ),
    decreases lines.len(),
{
    let line = lines[0];
    let rest = lines.skip(1);
    assert(one_line(line) && !starts_with(line, BANG));
    lemma_first_line(line, sent(rest) + tail);
    assert(sent(lines) + tail =~= line + line_end() + (sent(rest) + tail));
    assert(line_step(p, line) == data_step(p, line)) by {
        reveal(line_step);
    }
    if data_step(p, line).is_ok() {
        let next = data_step(p, line).unwrap().0;
        assert forall|i: int| 0 <= i < rest.len() implies one_line(#[trigger] rest[i])
            && !starts_with(rest[i], BANG) by {
            assert(rest[i] == lines[i + 1]);
        }
        lemma_failing_data_line_ends_the_read(next, rest, tail);
    }
}

/// The automaton after the identifier line of a telegram with the
/// identifier `ident`.
pub open spec fn after_header(ident: Seq<u8>) -> ParserView {
    ParserView {
        state: ParserState::ReadingHeader,
        telegram: TelegramView { ident: decode_utf8(ident), ..TelegramView::empty() },
        covered: seq![SLASH] + ident + line_end(),
    }
}

/// An identifier line starts a telegram.
pub proof fn lemma_header_is_read(ident: Seq<u8>, tail: Seq<u8>)
    requires
        one_line(ident),
        valid_utf8(ident),
    ensures
        read(ParserView::start(), seq![SLASH] + ident + line_end() + tail) == read(
            after_header(ident),
            tail,
        ),
{
    let header = seq![SLASH] + ident;
    lemma_first_line(header, tail);
    assert(header.skip(1) =~= ident);
    assert(line_step(ParserView::start(), header) == Ok::<(ParserView, Event), Error>(
        (after_header(ident), Event::Header),
    )) by {
        reveal(line_step);
    }
}

/// The empty line after the identifier line opens the data lines.
pub proof fn lemma_separator_is_read(p: ParserView, tail: Seq<u8>)
    requires
        p.state == ParserState::ReadingHeader,
    ensures
        read(p, line_end() + tail) == read(
            ParserView { state: ParserState::ReadingMessage, covered: p.covered + line_end(), ..p },
            tail,
        ),
{
    let empty = Seq::<u8>::empty();
    lemma_first_line(empty, tail);
    assert(empty + line_end() + tail =~= line_end() + tail);
    assert(line_step(p, empty) == Ok::<(ParserView, Event), Error>(
        (
            ParserView { state: ParserState::ReadingMessage, covered: p.covered + line_end(), ..p },
            Event::Separator,
        ),
    )) by {
        reveal(line_step);
    }
}

/// A trailer line that gives a checksum ends the read.
pub proof fn lemma_trailer_is_read(p: ParserView, checksum: Seq<u8>, tail: Seq<u8>)
    requires
        p.state == ParserState::ReadingMessage,
        one_line(checksum),
        valid_utf8(checksum),
        parse_unsigned(checksum, 16, 0xffff).is_some(),
    ensures
        read(p, seq![BANG] + checksum + line_end() + tail) == (Outcome {
            result: checked(
                p.telegram,
                crc16_arc(p.covered.push(BANG)),
                parse_unsigned(checksum, 16, 0xffff).unwrap() as u16,
            ),
            rest: tail,
        }),
{
    let trailer = seq![BANG] + checksum;
    lemma_first_line(trailer, tail);
    assert(trailer.skip(1) =~= checksum);
    assert(line_step(p, trailer) == Ok::<(ParserView, Event), Error>(
        (
            ParserView { covered: p.covered.push(BANG), ..p },
            Event::Trailer(parse_unsigned(checksum, 16, 0xffff).unwrap() as u16),
        ),
    )) by {
        reveal(line_step);
    }
}

/// A telegram that is sent as the grammar has it is read as it was sent.
///
/// The telegram is the identifier line, the empty line, the data lines and
/// the trailer line, each with a carriage return and a line feed after it.
/// Where the identifier is valid UTF-8, every data line can be stored and
/// the trailer line gives a checksum, the read hands out the record that
/// the data lines make of the record with that identifier, provided that
/// the checksum of the trailer line is the checksum of all the bytes from
/// the `/` up to and with the `!`. Where it is another, the read fails with
/// a mismatch that reports both. Either way the read leaves what follows the
/// trailer line unread.
pub proof fn law_telegram_is_read_as_sent(
    ident: Seq<u8>,
    lines: Seq<Seq<u8>>,
    checksum: Seq<u8>,
    tail: Seq<u8>,
)
    requires
        one_line(ident),
        valid_utf8(ident),
        data_lines(lines),
        filled(after_header(ident).telegram, lines).is_ok(),
        one_line(checksum),
        valid_utf8(checksum),
        parse_unsigned(checksum, 16, 0xffff).is_some(),
    ensures
        read(
            ParserView::start(),
            seq![SLASH] + ident + line_end() + line_end() + sent(lines) + seq![BANG] + checksum
                + line_end() + tail,
        ) == (Outcome {
            result: checked(
                filled(after_header(ident).telegram, lines).unwrap(),
                crc16_arc(seq![SLASH] + ident + line_end() + line_end() + sent(lines) + seq![BANG]),
                parse_unsigned(checksum, 16, 0xffff).unwrap() as u16,
            ),
            rest: tail,
        }),
{
    let trailer = seq![BANG] + checksum + line_end() + tail;
    let body = sent(lines) + trailer;
    let input = seq![SLASH] + ident + line_end() + line_end() + sent(lines) + seq![BANG]
        + checksum + line_end() + tail;
    let at_header = after_header(ident);
    let at_body = ParserView {
        state: ParserState::ReadingMessage,
        covered: at_header.covered + line_end(),
        ..at_header
    };
    let at_trailer = ParserView {
        telegram: filled(at_body.telegram, lines).unwrap(),
        covered: at_body.covered + sent(lines),
        ..at_body
    };
    assert(input =~= seq![SLASH] + ident + line_end() + (line_end() + body));
    lemma_header_is_read(ident, line_end() + body);
    lemma_separator_is_read(at_header, body);
    lemma_data_lines_are_read(at_body, lines, trailer);
    lemma_trailer_is_read(at_trailer, checksum, tail);
    assert(at_trailer.covered.push(BANG) =~= seq![SLASH] + ident + line_end() + line_end() + sent(lines)
        + seq![BANG]);
}

/// A telegram with a data line that fails to be stored is not read: the
/// read fails as the first such line does, whatever the trailer line gives.
pub proof fn law_failing_line_fails_the_telegram(
    ident: Seq<u8>,
    lines: Seq<Seq<u8>>,
    tail: Seq<u8>,
)
    requires
        one_line(ident),
        valid_utf8(ident),
        data_lines(lines),
        filled(after_header(ident).telegram, lines).is_err(),
    ensures
        read(
            ParserView::start(),
            seq![SLASH] + ident + line_end() + line_end() + sent(lines) + tail,
        ).result == Err::<Option<TelegramView>, Error>(
            filled(after_header(ident).telegram, lines)->Err_0,
        ),
{
    let body = sent(lines) + tail;
    let input = seq![SLASH] + ident + line_end() + line_end() + sent(lines) + tail;
    let at_header = after_header(ident);
    let at_body = ParserView {
        state: ParserState::ReadingMessage,
        covered: at_header.covered + line_end(),
        ..at_header
    };
    assert(input =~= seq![SLASH] + ident + line_end() + (line_end() + body));
    lemma_header_is_read(ident, line_end() + body);
    lemma_separator_is_read(at_header, body);
    lemma_failing_data_line_ends_the_read(at_body, lines, tail);
}

} // verus!
