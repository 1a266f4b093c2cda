//! How long the lines of the protocol may be.
use vstd::prelude::*;

verus! {

/// The size, in bytes, of one line of the protocol.
pub const MAX_MCP_FRAME_BYTES: usize = 4 * 1024 * 1024;

/// What is known of a line while it is read: how long it is so far, how long it
/// may be, and whether a line was too long.
#[derive(Debug, Clone, Copy)]
pub struct BoundedLineReader {
    pub line_length: usize,
    pub max_line_length: usize,
    pub rejected: bool,
}

/// The length of a line after some more bytes, or that it was too long on the
/// way: a line feed starts a new line.
pub open spec fn line_scan(length: usize, limit: usize, bytes: Seq<u8>) -> Option<usize>
    decreases bytes.len(),
{
    if bytes.len() == 0 {
        Some(length)
    } else if bytes[0] == 10 {
        line_scan(0, limit, bytes.skip(1))
    } else if length < limit {
        line_scan((length + 1) as usize, limit, bytes.skip(1))
    } else {
        None
    }
}

impl BoundedLineReader {
    /// A reader whose lines are held to a limit.
    pub fn new(max_line_length: usize) -> (reader: Self)
        ensures
            reader == (BoundedLineReader { line_length: 0, max_line_length, rejected: false }),
    {
        BoundedLineReader { line_length: 0, max_line_length, rejected: false }
    }

    /// The line that is read is no longer than it may be.
    pub open spec fn wf(&self) -> bool {
        self.line_length <= self.max_line_length
    }

    /// Takes some more bytes. Once a line was too long, nothing is taken any more.
    pub fn accept(&mut self, bytes: &[u8]) -> (result: Result<(), String>)
        requires
            old(self).wf(),
        ensures
            final(self).wf(),
            final(self).max_line_length == old(self).max_line_length,
            match result {
                Ok(_) => !old(self).rejected && !final(self).rejected && line_scan(
                    old(self).line_length,
                    old(self).max_line_length,
                    bytes@,
                ) == Some(final(self).line_length),
                Err(e) => (old(self).rejected || line_scan(
                    old(self).line_length,
                    old(self).max_line_length,
                    bytes@,
                ) is None) && final(self).rejected && e@
                    == "MCP frame exceeds the configured limit"@,
            },
    {
        if self.rejected {
            return Err("MCP frame exceeds the configured limit".to_owned());
        }
        let n: usize = bytes.len();
        let mut i: usize = 0;
        assert(bytes@.skip(0) =~= bytes@);
        while i < n
            invariant
                n == bytes@.len(),
                i <= n,
                !self.rejected,
                !old(self).rejected,
                self.wf(),
                self.max_line_length == old(self).max_line_length,
                line_scan(self.line_length, self.max_line_length, bytes@.skip(i as int))
                    == line_scan(old(self).line_length, old(self).max_line_length, bytes@),
            decreases n - i,
        {
            assert(bytes@.skip(i as int)[0] == bytes@[i as int]);
            assert(bytes@.skip(i as int).skip(1) =~= bytes@.skip(i + 1));
            if bytes[i] == 10 {
                self.line_length = 0;
            } else if self.line_length < self.max_line_length {
                self.line_length = self.line_length + 1;
            } else {
                self.rejected = true;
                return Err("MCP frame exceeds the configured limit".to_owned());
            }
            i = i + 1;
        }
        Ok(())
    }
}

/// A stretch of bytes without a line feed.
pub open spec fn unbroken(bytes: Seq<u8>, from: int, to: int) -> bool {
    0 <= from <= to <= bytes.len() && forall|i: int| from <= i < to ==> #[trigger] bytes[i] != 10
}

/// Bytes are refused exactly where one of their lines, together with what was
/// read of it before, is longer than a line may be.
pub proof fn law_only_long_lines_are_refused(length: usize, limit: usize, bytes: Seq<u8>)
    requires
        length <= limit,
    ensures
        line_scan(length, limit, bytes) is None <==> {
            ||| exists|to: int| #[trigger] unbroken(bytes, 0, to) && length + to > limit
            ||| exists|from: int, to: int| #[trigger]
                unbroken(bytes, from, to) && to - from > limit
        },
    decreases bytes.len(),
{
    if bytes.len() > 0 {
        let rest = bytes.skip(1);
        let next = if bytes[0] == 10 {
            0usize
        } else {
            (length + 1) as usize
        };
        if bytes[0] == 10 || length < limit {
            law_only_long_lines_are_refused(next, limit, rest);
            assert forall|to: int| #[trigger] unbroken(rest, 0, to) && bytes[0] != 10 implies unbroken(
                bytes,
                0,
                to + 1,
            ) by {
                assert forall|i: int| 0 <= i < to + 1 implies #[trigger] bytes[i] != 10 by {
                    if i > 0 {
                        assert(bytes[i] == rest[i - 1]);
                    }
                }
            }
            assert forall|from: int, to: int| #[trigger] unbroken(rest, from, to) implies unbroken(
                bytes,
                from + 1,
                to + 1,
            ) by {
                assert forall|i: int| from + 1 <= i < to + 1 implies #[trigger] bytes[i] != 10 by {
                    assert(bytes[i] == rest[i - 1]);
                }
            }
            assert forall|from: int, to: int| #[trigger]
                unbroken(bytes, from, to) && from > 0 implies unbroken(rest, from - 1, to - 1) by {
                assert forall|i: int| from - 1 <= i < to - 1 implies #[trigger] rest[i] != 10 by {
                    assert(rest[i] == bytes[i + 1]);
                }
            }
            assert forall|to: int| #[trigger] unbroken(bytes, 0, to) && to > 0 implies unbroken(
                rest,
                0,
                to - 1,
            ) by {
                assert forall|i: int| 0 <= i < to - 1 implies #[trigger] rest[i] != 10 by {
                    assert(rest[i] == bytes[i + 1]);
                }
            }
            if line_scan(length, limit, bytes) is None {
                if exists|to: int| #[trigger] unbroken(rest, 0, to) && next + to > limit {
                    let to = choose|to: int| #[trigger] unbroken(rest, 0, to) && next + to > limit;
                    if bytes[0] != 10 {
                        assert(unbroken(bytes, 0, to + 1));
                    } else {
                        assert(unbroken(bytes, 1, to + 1));
                    }
                } else {
                    let (from, to) = choose|from: int, to: int| #[trigger]
                        unbroken(rest, from, to) && to - from > limit;
                    assert(unbroken(bytes, from + 1, to + 1));
                }
            } else {
                assert forall|to: int| #[trigger] unbroken(bytes, 0, to) implies length + to
                    <= limit by {
                    if to > 0 {
                        assert(bytes[0] != 10);
                        assert(unbroken(rest, 0, to - 1));
                    }
                }
                assert forall|from: int, to: int| #[trigger] unbroken(bytes, from, to) implies to
                    - from <= limit by {
                    if from > 0 {
                        assert(unbroken(rest, from - 1, to - 1));
                    } else {
                        assert(unbroken(bytes, 0, to));
                    }
                }
            }
        } else {
            assert(unbroken(bytes, 0, 1));
        }
    } else {
        assert forall|from: int, to: int| #[trigger] unbroken(bytes, from, to) implies from == 0
            && to == 0 by {}
    }
}

/// Whether `i` is the place of the last line feed.
pub open spec fn last_feed(bytes: Seq<u8>, i: int) -> bool {
    0 <= i < bytes.len() && bytes[i] == 10 && unbroken(bytes, i + 1, bytes.len() as int)
}

/// The length of the line that is read is counted from the last line feed, or goes on
/// from what was read before where there is none.
pub proof fn law_lines_are_counted_from_the_last_line_feed(
    length: usize,
    limit: usize,
    bytes: Seq<u8>,
    counted: usize,
)
    requires
        line_scan(length, limit, bytes) == Some(counted),
    ensures
        unbroken(bytes, 0, bytes.len() as int) ==> counted == length + bytes.len(),
        forall|i: int| #[trigger] last_feed(bytes, i) ==> counted == bytes.len() - i - 1,
    decreases bytes.len(),
{
    if bytes.len() > 0 {
        let rest = bytes.skip(1);
        let next = if bytes[0] == 10 {
            0usize
        } else {
            (length + 1) as usize
        };
        law_lines_are_counted_from_the_last_line_feed(next, limit, rest, counted);
        if unbroken(bytes, 0, bytes.len() as int) {
            assert forall|i: int| 0 <= i < rest.len() implies #[trigger] rest[i] != 10 by {
                assert(rest[i] == bytes[i + 1]);
            }
            assert(bytes[0] != 10);
        }
        assert forall|i: int| #[trigger] last_feed(bytes, i) implies counted == bytes.len() - i
            - 1 by {
            assert forall|j: int| i <= j < rest.len() implies #[trigger] rest[j] != 10 by {
                assert(rest[j] == bytes[j + 1]);
            }
            if i > 0 {
                assert(rest[i - 1] == bytes[i]);
                assert(last_feed(rest, i - 1));
            } else {
                assert(unbroken(rest, 0, rest.len() as int));
            }
        }
    }
}

/// Bytes are taken exactly if no line was too long before and none is now; a reader that
/// has refused bytes refuses all that follow, and none may be longer than four
/// mebibytes.
pub proof fn law_readers_refuse_for_good(bytes: &[u8], result: Result<(), String>)
    ensures
        forall|reader: &mut BoundedLineReader| #[trigger]
            call_ensures(BoundedLineReader::accept, (reader, bytes), result) ==> {
                &&& result is Ok <==> !reader.rejected && line_scan(
                    reader.line_length,
                    reader.max_line_length,
                    bytes@,
                ) is Some
                &&& final(reader).rejected == (result is Err)
                &&& final(reader).max_line_length == reader.max_line_length
                &&& result is Ok ==> line_scan(
                    reader.line_length,
                    reader.max_line_length,
                    bytes@,
                ) == Some(final(reader).line_length)
                &&& result matches Err(e) ==> e@ == "MCP frame exceeds the configured limit"@
            },
        MAX_MCP_FRAME_BYTES == 4_194_304,
{
}

/// A reader starts at the beginning of a line and holds its lines to its limit.
pub proof fn law_readers_start_at_a_line(limit: usize, reader: BoundedLineReader)
    requires
        call_ensures(BoundedLineReader::new, (limit,), reader),
    ensures
        reader.line_length == 0 && !reader.rejected && reader.max_line_length == limit,
{
}

} // verus!
