//! The grammar of one data line: a code of three parts, then one value
//! group or more, each in parentheses.
//!
//! ```text
//! <digits>-<digits>:<digits and dots>(<value>)(<value>)...
//! ```
//!
//! Both scans are written as automata that take one byte at a time. Their
//! contracts state the grammar by positions in the line, and the proofs show
//! that the automata read exactly that grammar.

use vstd::prelude::*;
use vstd::string::*;

use crate::ascii::{
    digits_end, find_byte, is_ascii_digit, is_digit, lemma_digits_end, lemma_find_byte, CLOSE,
    COLON, DOT, MINUS, OPEN,
};
use crate::number::{parse_u8, parse_unsigned};
use crate::text::{lossy_text, str_from_utf8};

verus! {

/// The index just past the longest run of digits and dots of `s` that
/// starts at `i`.
pub open spec fn path_end(s: Seq<u8>, i: int) -> int
    decreases s.len() - i,
{
    if 0 <= i < s.len() && (is_digit(s[i]) || s[i] == DOT) {
        path_end(s, i + 1)
    } else {
        i
    }
}

/// Where the digits of the medium end.
pub open spec fn medium_end(line: Seq<u8>) -> int {
    digits_end(line, 0)
}

/// Where the digits of the channel end.
pub open spec fn channel_end(line: Seq<u8>) -> int {
    digits_end(line, medium_end(line) + 1)
}

/// Where the code ends: at the `(` of the first value group, or at the end
/// of the line.
pub open spec fn obis_end(line: Seq<u8>) -> int {
    path_end(line, channel_end(line) + 1)
}

/// The medium that `line` starts with: digits that write a `u8`, with a
/// `-` after them.
pub open spec fn medium_of(line: Seq<u8>) -> Option<u8> {
    let a = medium_end(line);
    if 0 < a < line.len() && line[a] == MINUS {
        match parse_unsigned(line.subrange(0, a), 10, 0xff) {
            Some(medium) => Some(medium as u8),
            None => None,
        }
    } else {
        None
    }
}

/// The channel that follows the `-`: digits that write a `u8`, with a `:`
/// after them.
pub open spec fn channel_of(line: Seq<u8>) -> Option<u8> {
    let a = medium_end(line);
    let b = channel_end(line);
    if a + 1 < b < line.len() && line[b] == COLON {
        match parse_unsigned(line.subrange(a + 1, b), 10, 0xff) {
            Some(channel) => Some(channel as u8),
            None => None,
        }
    } else {
        None
    }
}

/// Whether the last part of the code starts with a digit and runs, over
/// digits and dots, up to a `(` or to the end of the line.
pub open spec fn path_is_closed(line: Seq<u8>) -> bool {
    let b = channel_end(line);
    let c = obis_end(line);
    &&& b + 1 < line.len()
    &&& is_digit(line[b + 1])
    &&& c == line.len() || line[c] == OPEN
}

/// What a [`ParsedObis`] holds.
pub struct ObisView {
    pub medium: u8,
    pub channel: u8,
    pub obis: Seq<u8>,
}

/// The code that `line` starts with, if it starts with one.
pub open spec fn obis_of(line: Seq<u8>) -> Option<ObisView> {
    match (medium_of(line), channel_of(line)) {
        (Some(medium), Some(channel)) if path_is_closed(line) => Some(
            ObisView {
                medium,
                channel,
                obis: line.subrange(channel_end(line) + 1, obis_end(line)),
            },
        ),
        _ => None,
    }
}

/// Whether `groups` is one value group or more and nothing else: it starts
/// with `(`, ends with `)`, and each `)` before the last is followed by `(`.
/// Within a group any byte but `)` may stand.
pub open spec fn groups_closed(groups: Seq<u8>) -> bool {
    &&& groups.len() >= 2
    &&& groups[0] == OPEN
    &&& groups.last() == CLOSE
    &&& forall|k: int|
        0 <= k < groups.len() - 1 && #[trigger] groups[k] == CLOSE ==> groups[k + 1] == OPEN
}

/// What a [`ParsedLine`] holds.
pub struct LineView {
    pub obis: ObisView,
    pub value: Seq<u8>,
    pub span: Seq<u8>,
}

/// The data line that `line` is, if it is one: a code, then value groups up
/// to the end of the line. `value` is what the first group holds, and `span`
/// is everything from after the first `(` up to the last `)`.
#[verifier::opaque]
pub open spec fn line_of(line: Seq<u8>) -> Option<LineView> {
    let groups = line.skip(obis_end(line));
    if obis_of(line).is_some() && groups_closed(groups) {
        Some(
            LineView {
                obis: obis_of(line).unwrap(),
                value: groups.subrange(1, find_byte(groups, CLOSE, 0)),
                span: groups.subrange(1, groups.len() - 1),
            },
        )
    } else {
        None
    }
}

/// The states of the automaton that reads a code.
#[derive(Debug, Clone, Copy, PartialEq, Eq, Structural)]
pub enum ObisState {
    WaitingForObisMedium,
    ReadingObisMedium,
    WaitingForObisChannel,
    ReadingObisChannel,
    WaitingForObis,
    ReadingObis,
    Done,
}

/// The state that follows `state` when `b` is read, or `None` where `b`
/// cannot stand there.
pub open spec fn obis_next(state: ObisState, b: u8) -> Option<ObisState> {
    match state {
        ObisState::WaitingForObisMedium => if is_digit(b) {
            Some(ObisState::ReadingObisMedium)
        } else {
            None
        },
        ObisState::ReadingObisMedium => if is_digit(b) {
            Some(ObisState::ReadingObisMedium)
        } else if b == MINUS {
            Some(ObisState::WaitingForObisChannel)
        } else {
            None
        },
        ObisState::WaitingForObisChannel => if is_digit(b) {
            Some(ObisState::ReadingObisChannel)
        } else {
            None
        },
        ObisState::ReadingObisChannel => if is_digit(b) {
            Some(ObisState::ReadingObisChannel)
        } else if b == COLON {
            Some(ObisState::WaitingForObis)
        } else {
            None
        },
        ObisState::WaitingForObis => if is_digit(b) {
            Some(ObisState::ReadingObis)
        } else {
            None
        },
        ObisState::ReadingObis => if is_digit(b) || b == DOT {
            Some(ObisState::ReadingObis)
        } else if b == OPEN {
            Some(ObisState::Done)
        } else {
            None
        },
        ObisState::Done => Some(ObisState::Done),
    }
}

/// What is known of `line` when the automaton stands in `state` before the
/// byte at `i`, having last noted the position `start` and read `medium` and
/// `channel`.
pub open spec fn obis_reached(
    line: Seq<u8>,
    state: ObisState,
    i: int,
    start: int,
    medium: u8,
    channel: u8,
) -> bool {
    match state {
        ObisState::WaitingForObisMedium => i == 0,
        ObisState::ReadingObisMedium => {
            &&& start == 0 < i
            &&& digits_end(line, 0) == digits_end(line, i)
        },
        ObisState::WaitingForObisChannel => {
            &&& medium_of(line) == Some(medium)
            &&& i == medium_end(line) + 1
        },
        ObisState::ReadingObisChannel => {
            &&& medium_of(line) == Some(medium)
            &&& start == medium_end(line) + 1
            &&& start < i
            &&& digits_end(line, start) == digits_end(line, i)
        },
        ObisState::WaitingForObis => {
            &&& medium_of(line) == Some(medium)
            &&& channel_of(line) == Some(channel)
            &&& i == channel_end(line) + 1
        },
        ObisState::ReadingObis => {
            &&& medium_of(line) == Some(medium)
            &&& channel_of(line) == Some(channel)
            &&& start == channel_end(line) + 1
            &&& start < i
            &&& is_digit(line[start])
            &&& path_end(line, start) == path_end(line, i)
        },
        ObisState::Done => {
            &&& medium_of(line) == Some(medium)
            &&& channel_of(line) == Some(channel)
            &&& path_is_closed(line)
            &&& start == obis_end(line)
            &&& start < line.len()
            &&& i == start + 1
        },
    }
}

impl ObisState {
    /// The state that follows when `b` is read: see [`obis_next`].
    pub fn next(self, b: u8) -> (r: Option<ObisState>)
        ensures
            r == obis_next(self, b),
    {
        match self {
            ObisState::WaitingForObisMedium => if is_ascii_digit(b) {
                Some(ObisState::ReadingObisMedium)
            } else {
                None
            },
            ObisState::ReadingObisMedium => if is_ascii_digit(b) {
                Some(ObisState::ReadingObisMedium)
            } else if b == MINUS {
                Some(ObisState::WaitingForObisChannel)
            } else {
                None
            },
            ObisState::WaitingForObisChannel => if is_ascii_digit(b) {
                Some(ObisState::ReadingObisChannel)
            } else {
                None
            },
            ObisState::ReadingObisChannel => if is_ascii_digit(b) {
                Some(ObisState::ReadingObisChannel)
            } else if b == COLON {
                Some(ObisState::WaitingForObis)
            } else {
                None
            },
            ObisState::WaitingForObis => if is_ascii_digit(b) {
                Some(ObisState::ReadingObis)
            } else {
                None
            },
            ObisState::ReadingObis => if is_ascii_digit(b) || b == DOT {
                Some(ObisState::ReadingObis)
            } else if b == OPEN {
                Some(ObisState::Done)
            } else {
                None
            },
            ObisState::Done => Some(ObisState::Done),
        }
    }
}

/// The code of a data line.
#[derive(Debug)]
pub struct ParsedObis<'l> {
    /// Group A: Specifies the medium of the object (0= Abstract Objects, 1=Electricity, 7=gas, Etc.)
    pub medium: u8,
    /// Group B: Specifies the channel (useful, for example, when a data concentrator is connected to several meters).
    pub channel: u8,
    /// Group C: Specifies the Physical Value (Current, Voltage, Energy, etc.).
    /// Group D: Identifies types, or the result of the processing of physical quantities identified by values in value groups A and C, according to various specific algorithms.
    /// Group E: Identifies further processing or classification of quantities identified by values in value groups A to D.
    pub obis: &'l [u8],
}

impl<'l> View for ParsedObis<'l> {
    type V = ObisView;

    open spec fn view(&self) -> ObisView {
        ObisView { medium: self.medium, channel: self.channel, obis: self.obis@ }
    }
}

impl<'l> ParsedObis<'l> {
    /// Reads the code that `line` starts with, and hands back with it what
    /// follows the code: the value groups from their first `(` on. A line
    /// that ends with its code has nothing left.
    pub fn parse(line: &'l [u8]) -> (r: Option<(ParsedObis<'l>, &'l [u8])>)
        ensures
            r.is_some() == obis_of(line@).is_some(),
            r matches Some((obis, rest)) ==> obis_of(line@) == Some(obis@) && rest@ == line@.skip(
                obis_end(line@),
            ),
    {
        let mut state = ObisState::WaitingForObisMedium;
        let mut medium: u8 = 0;
        let mut channel: u8 = 0;
        let mut obis: &[u8] = &line[0..0];
        let mut start: usize = 0;
        let mut i: usize = 0;
        while i < line.len() && state != ObisState::Done
            invariant
                i <= line@.len(),
                start <= i,
                obis_reached(line@, state, i as int, start as int, medium, channel),
                state == ObisState::Done ==> obis@ == line@.subrange(
                    channel_end(line@) + 1,
                    obis_end(line@),
                ),
            decreases line@.len() - i,
        {
            let b = line[i];
            proof {
                lemma_digits_end(line@, 0);
                if medium_end(line@) < line@.len() {
                    lemma_digits_end(line@, medium_end(line@) + 1);
                }
            }
            let next = match state.next(b) {
                Some(next) => next,
                None => {
                    return None;
                },
            };
            match state {
                ObisState::WaitingForObisMedium => {
                    start = i;
                },
                ObisState::ReadingObisMedium => {
                    if next == ObisState::WaitingForObisChannel {
                        let digits = &line[start..i];
                        assert(digits@ =~= line@.subrange(0, i as int));
                        medium = match parse_u8(digits) {
                            Some(medium) => medium,
                            None => {
                                return None;
                            },
                        };
                    }
                },
                ObisState::WaitingForObisChannel => {
                    start = i;
                },
                ObisState::ReadingObisChannel => {
                    if next == ObisState::WaitingForObis {
                        let digits = &line[start..i];
                        assert(digits@ =~= line@.subrange(start as int, i as int));
                        channel = match parse_u8(digits) {
                            Some(channel) => channel,
                            None => {
                                return None;
                            },
                        };
                    }
                },
                ObisState::WaitingForObis => {
                    start = i;
                },
                ObisState::ReadingObis => {
                    if next == ObisState::Done {
                        obis = &line[start..i];
                        start = i;
                    }
                },
                ObisState::Done => {},
            }
            state = next;
            i += 1;
        }
        proof {
            lemma_digits_end(line@, 0);
            if medium_end(line@) < line@.len() {
                lemma_digits_end(line@, medium_end(line@) + 1);
            }
        }
        match state {
            ObisState::ReadingObis => {
                obis = &line[start..line.len()];
                let rest = &line[line.len()..line.len()];
                assert(obis@ =~= line@.subrange(channel_end(line@) + 1, obis_end(line@)));
                assert(rest@ =~= line@.skip(obis_end(line@)));
                Some((ParsedObis { medium, channel, obis }, rest))
            },
            ObisState::Done => {
                let rest = &line[start..line.len()];
                assert(rest@ =~= line@.skip(obis_end(line@)));
                Some((ParsedObis { medium, channel, obis }, rest))
            },
            _ => None,
        }
    }
}

/// The states of the automaton that reads the value groups.
#[derive(Debug, Clone, Copy, PartialEq, Eq, Structural)]
pub enum ValueState {
    WaitingForValue,
    ReadingValue,
    WaitingForAnotherValue,
}

/// The state that follows `state` when `b` is read, or `None` where `b`
/// cannot stand there.
pub open spec fn value_next(state: ValueState, b: u8) -> Option<ValueState> {
    match state {
        ValueState::WaitingForValue => if b == OPEN {
            Some(ValueState::ReadingValue)
        } else {
            None
        },
        ValueState::ReadingValue => if b == CLOSE {
            Some(ValueState::WaitingForAnotherValue)
        } else {
            Some(ValueState::ReadingValue)
        },
        ValueState::WaitingForAnotherValue => if b == OPEN {
            Some(ValueState::ReadingValue)
        } else {
            None
        },
    }
}

/// What is known of `groups` when the automaton stands in `state` before the
/// byte at `i`.
pub open spec fn value_reached(groups: Seq<u8>, state: ValueState, i: int) -> bool {
    match state {
        ValueState::WaitingForValue => i == 0,
        ValueState::ReadingValue => {
            &&& i >= 1
            &&& groups[0] == OPEN
            &&& forall|k: int|
                0 <= k < i && #[trigger] groups[k] == CLOSE ==> k + 1 < i && groups[k + 1] == OPEN
        },
        ValueState::WaitingForAnotherValue => {
            &&& i >= 2
            &&& groups[0] == OPEN
            &&& groups[i - 1] == CLOSE
            &&& forall|k: int|
                0 <= k < i - 1 && #[trigger] groups[k] == CLOSE ==> groups[k + 1] == OPEN
        },
    }
}

impl ValueState {
    /// The state that follows when `b` is read: see [`value_next`].
    pub fn next(self, b: u8) -> (r: Option<ValueState>)
        ensures
            r == value_next(self, b),
    {
        match self {
            ValueState::WaitingForValue => if b == OPEN {
                Some(ValueState::ReadingValue)
            } else {
                None
            },
            ValueState::ReadingValue => if b == CLOSE {
                Some(ValueState::WaitingForAnotherValue)
            } else {
                Some(ValueState::ReadingValue)
            },
            ValueState::WaitingForAnotherValue => if b == OPEN {
                Some(ValueState::ReadingValue)
            } else {
                None
            },
        }
    }
}

/// One data line, taken apart.
#[derive(Debug)]
pub struct ParsedLine<'l> {
    pub obis: ParsedObis<'l>,
    /// What the first value group holds.
    pub value: &'l [u8],
    /// Everything from after the first `(` up to the last `)`: with more
    /// than one group, the groups with the `)(` between them.
    pub span: &'l [u8],
}

impl<'l> View for ParsedLine<'l> {
    type V = LineView;

    open spec fn view(&self) -> LineView {
        LineView { obis: self.obis@, value: self.value@, span: self.span@ }
    }
}

impl<'l> ParsedLine<'l> {
    /// Takes a data line apart: see [`line_of`]. A line that does not follow
    /// the grammar to its last byte is no data line.
    pub fn parse(line: &'l [u8]) -> (r: Option<ParsedLine<'l>>)
        ensures
            r.is_some() == line_of(line@).is_some(),
            r matches Some(parsed) ==> line_of(line@) == Some(parsed@),
    {
        reveal(line_of);
        let (obis, groups) = match ParsedObis::parse(line) {
            Some(found) => found,
            None => {
                return None;
            },
        };
        let mut state = ValueState::WaitingForValue;
        let mut value: Option<&[u8]> = None;
        let mut i: usize = 0;
        while i < groups.len()
            invariant
                i <= groups@.len(),
                obis_of(line@) == Some(obis@),
                groups@ == line@.skip(obis_end(line@)),
                value_reached(groups@, state, i as int),
                match value {
                    Some(v) => {
                        &&& 1 <= find_byte(groups@, CLOSE, 0) < i
                        &&& v@ == groups@.subrange(1, find_byte(groups@, CLOSE, 0))
                    },
                    None => find_byte(groups@, CLOSE, 0) == find_byte(groups@, CLOSE, i as int),
                },
            decreases groups@.len() - i,
        {
            proof {
                reveal(line_of);
                lemma_find_byte(groups@, CLOSE, 0);
            }
            let next = match state.next(groups[i]) {
                Some(next) => next,
                None => {
                    return None;
                },
            };
            if next == ValueState::WaitingForAnotherValue && value.is_none() {
                value = Some(&groups[1..i]);
            }
            state = next;
            i += 1;
        }
        proof {
            lemma_find_byte(groups@, CLOSE, 0);
        }
        match (state, value) {
            (ValueState::WaitingForAnotherValue, Some(value)) => {
                let span = &groups[1..groups.len() - 1];
                Some(ParsedLine { obis, value, span })
            },
            _ => None,
        }
    }

    /// The first value as text. A value that is not valid UTF-8 reads as the
    /// empty text.
    pub fn value_str(&self) -> (r: &str)
        ensures
            r@ == lossy_text(self.value@),
    {
        proof {
            reveal_strlit("");
        }
        match str_from_utf8(self.value) {
            Some(text) => text,
            None => "",
        }
    }
}

} // verus!
