//! Lines out of bytes.

use vstd::prelude::*;

use crate::ascii::{find_byte, lemma_find_byte, lemma_find_byte_at, scan_to, CR, LF};

verus! {

/// Whether a whole line stands at the start of `rest`: whether `rest` holds
/// a line feed.
pub open spec fn has_line(rest: Seq<u8>) -> bool {
    0 <= find_byte(rest, LF, 0) < rest.len()
}

/// `line` without one carriage return at its end, if it ends with one.
pub open spec fn strip_cr(line: Seq<u8>) -> Seq<u8> {
    if line.len() > 0 && line.last() == CR {
        line.drop_last()
    } else {
        line
    }
}

/// The first line of `rest`: what stands before the first line feed, less
/// one carriage return that stands directly before it. A carriage return
/// anywhere else stays in the line.
pub open spec fn first_line(rest: Seq<u8>) -> Seq<u8> {
    strip_cr(rest.take(find_byte(rest, LF, 0)))
}

/// What follows the first line of `rest` and its line feed.
pub open spec fn after_first_line(rest: Seq<u8>) -> Seq<u8> {
    rest.skip(find_byte(rest, LF, 0) + 1)
}

/// Whether `s` holds no line feed.
pub open spec fn one_line(s: Seq<u8>) -> bool {
    forall|i: int| 0 <= i < s.len() ==> #[trigger] s[i] != LF
}

/// A line that is sent with a carriage return and a line feed after it is
/// read back as it was, and the read goes on after the line feed.
pub proof fn lemma_first_line(line: Seq<u8>, tail: Seq<u8>)
    requires
        one_line(line),
    ensures
        has_line(line + seq![CR, LF] + tail),
        first_line(line + seq![CR, LF] + tail) == line,
        after_first_line(line + seq![CR, LF] + tail) == tail,
{
    let input = line + seq![CR, LF] + tail;
    let k = line.len() as int + 1;
    assert(input[k] == LF);
    assert forall|j: int| 0 <= j < k implies #[trigger] input[j] != LF by {
        if j < line.len() {
            assert(input[j] == line[j]);
        }
    }
    lemma_find_byte_at(input, LF, 0, k);
    assert(input.take(k) =~= line.push(CR));
    assert(line.push(CR).drop_last() =~= line);
    assert(input.skip(k + 1) =~= tail);
}

/// A line at the start of `a` is the line at the start of `a + b`.
pub proof fn lemma_first_line_of_prefix(a: Seq<u8>, b: Seq<u8>)
    requires
        has_line(a),
    ensures
        has_line(a + b),
        first_line(a + b) == first_line(a),
        after_first_line(a + b) == after_first_line(a) + b,
{
    let k = find_byte(a, LF, 0);
    lemma_find_byte(a, LF, 0);
    assert forall|j: int| 0 <= j < k implies #[trigger] (a + b)[j] != LF by {
        assert((a + b)[j] == a[j]);
    }
    assert((a + b)[k] == a[k]);
    lemma_find_byte_at(a + b, LF, 0, k);
    assert((a + b).take(k) =~= a.take(k));
    assert((a + b).skip(k + 1) =~= a.skip(k + 1) + b);
}

/// A source of bytes held in memory, read line by line in one pass.
///
/// A line ends with a line feed. Bytes after the last line feed form no
/// line: they are passed over when the end is reached.
pub struct LineReader<'a> {
    rest: &'a [u8],
}

impl<'a> View for LineReader<'a> {
    type V = Seq<u8>;

    /// The bytes that are still to be read.
    closed spec fn view(&self) -> Seq<u8> {
        self.rest@
    }
}

impl<'a> LineReader<'a> {
    /// A reader that stands at the start of `inner`.
    pub fn new(inner: &'a [u8]) -> (r: Self)
        ensures
            r@ == inner@,
    {
        LineReader { rest: inner }
    }

    /// The bytes that are still to be read.
    pub fn remaining(&self) -> (r: &'a [u8])
        ensures
            r@ == self@,
    {
        self.rest
    }

    /// Reads the next line, without its line end, and moves past it. Where
    /// no line feed is left there is no line, and the reader moves to the
    /// end.
    pub fn next(&mut self) -> (r: Option<&'a [u8]>)
        ensures
            match r {
                Some(line) => {
                    &&& has_line(old(self)@)
                    &&& line@ == first_line(old(self)@)
                    &&& final(self)@ == after_first_line(old(self)@)
                },
                None => !has_line(old(self)@) && final(self)@ == Seq::<u8>::empty(),
            },
    {
        let rest = self.rest;
        let k = scan_to(rest, LF, 0);
        if k == rest.len() {
            self.rest = &rest[k..k];
            assert(self.rest@ =~= Seq::<u8>::empty());
            return None;
        }
        let end = if k > 0 && rest[k - 1] == CR {
            k - 1
        } else {
            k
        };
        let line = &rest[0..end];
        self.rest = &rest[k + 1..rest.len()];
        proof {
            let raw = rest@.take(k as int);
            assert(raw.len() == k);
            if k > 0 {
                assert(raw.last() == rest@[k - 1]);
            }
            assert(line@ =~= strip_cr(raw));
            assert(self.rest@ =~= rest@.skip(k + 1));
        }
        Some(line)
    }
}

/// The bytes of a line that is still coming in, for a source that hands
/// out one byte at a time.
pub struct LineBuffer {
    pending: Vec<u8>,
}

impl View for LineBuffer {
    type V = Seq<u8>;

    /// The bytes that came in since the last line feed.
    closed spec fn view(&self) -> Seq<u8> {
        self.pending@
    }
}

impl LineBuffer {
    /// A buffer at the start of a line.
    pub fn new() -> (r: Self)
        ensures
            r@ == Seq::<u8>::empty(),
    {
        LineBuffer { pending: Vec::new() }
    }

    /// Takes the next byte. A line feed completes the line, which is handed
    /// out without its line end, and the buffer starts the next line. Any
    /// other byte is added to the line.
    pub fn push(&mut self, byte: u8) -> (r: Option<Vec<u8>>)
        ensures
            match r {
                Some(line) => {
                    &&& byte == LF
                    &&& line@ == strip_cr(old(self)@)
                    &&& final(self)@ == Seq::<u8>::empty()
                },
                None => byte != LF && final(self)@ == old(self)@.push(byte),
            },
    {
        if byte != LF {
            self.pending.push(byte);
            return None;
        }
        let mut line = Vec::new();
        core::mem::swap(&mut line, &mut self.pending);
        let n = line.len();
        if n > 0 && line[n - 1] == CR {
            line.pop();
        }
        Some(line)
    }
}

/// The lines of `rest`, in their order: see [`first_line`].
pub open spec fn lines_of(rest: Seq<u8>) -> Seq<Seq<u8>>
    decreases rest.len(),
{
    if has_line(rest) {
        seq![first_line(rest)] + lines_of(after_first_line(rest))
    } else {
        Seq::empty()
    }
}

/// The lines that a buffer which holds `pending` hands out when it is fed
/// `bytes` one by one.
pub open spec fn lines_pushed(pending: Seq<u8>, bytes: Seq<u8>) -> Seq<Seq<u8>>
    decreases bytes.len(),
{
    if bytes.len() == 0 {
        Seq::empty()
    } else if bytes[0] == LF {
        seq![strip_cr(pending)] + lines_pushed(Seq::empty(), bytes.skip(1))
    } else {
        lines_pushed(pending.push(bytes[0]), bytes.skip(1))
    }
}

/// A buffer that is fed bytes one by one hands out the lines that a reader
/// finds in the same bytes.
pub proof fn law_buffer_and_reader_agree(pending: Seq<u8>, bytes: Seq<u8>)
    requires
        one_line(pending),
    ensures
        lines_pushed(pending, bytes) == lines_of(pending + bytes),
    decreases bytes.len(),
{
    let all = pending + bytes;
    if bytes.len() == 0 {
        assert(all =~= pending);
        lemma_find_byte(pending, LF, 0);
    } else if bytes[0] == LF {
        let k = pending.len() as int;
        assert forall|j: int| 0 <= j < k implies #[trigger] all[j] != LF by {
            assert(all[j] == pending[j]);
        }
        assert(all[k] == bytes[0]);
        lemma_find_byte_at(all, LF, 0, k);
        assert(all.take(k) =~= pending);
        assert(all.skip(k + 1) =~= bytes.skip(1));
        assert(Seq::<u8>::empty() + bytes.skip(1) =~= bytes.skip(1));
        law_buffer_and_reader_agree(Seq::empty(), bytes.skip(1));
    } else {
        let next = pending.push(bytes[0]);
        assert(next + bytes.skip(1) =~= all);
        assert forall|j: int| 0 <= j < next.len() implies #[trigger] next[j] != LF by {
            if j < pending.len() {
                assert(next[j] == pending[j]);
            }
        }
        law_buffer_and_reader_agree(next, bytes.skip(1));
    }
}

} // verus!
