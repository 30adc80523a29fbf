//! Lines and ranges in the bytes of a buffer.
use vstd::prelude::*;

verus! {

/// The byte that ends a line.
pub const NEWLINE: u8 = 10;

/// How many lines end within `bytes`.
pub open spec fn newlines(bytes: Seq<u8>) -> nat
    decreases bytes.len(),
{
    if bytes.len() == 0 {
        0
    } else {
        newlines(bytes.drop_last()) + if bytes.last() == NEWLINE {
            1nat
        } else {
            0nat
        }
    }
}

/// Whether the line `line`, counted from zero, ends at the offset `at`.
pub open spec fn ends_line(bytes: Seq<u8>, line: nat, at: int) -> bool {
    0 <= at < bytes.len() && bytes[at] == NEWLINE && newlines(bytes.take(at)) == line
}

/// The offset at which the line `line` ends with a newline.
pub open spec fn line_break(bytes: Seq<u8>, line: nat) -> Option<int> {
    if exists|at: int| ends_line(bytes, line, at) {
        Some(choose|at: int| ends_line(bytes, line, at))
    } else {
        None
    }
}

/// The offset at which a line starts, or at which it ends: before its newline,
/// or at `length` where it is the last line and has none.
pub open spec fn line_offset(bytes: Seq<u8>, length: int, line: nat, want_end: bool) -> Option<int> {
    if !want_end {
        if line == 0 {
            Some(0)
        } else {
            match line_break(bytes, (line - 1) as nat) {
                Some(at) => Some(at + 1),
                None => None,
            }
        }
    } else {
        match line_break(bytes, line) {
            Some(at) => Some(at),
            None => if newlines(bytes) == line {
                Some(length)
            } else {
                None
            },
        }
    }
}

/// A longer part of a text has no fewer newlines.
pub proof fn lemma_newlines_monotonic(bytes: Seq<u8>, i: int, j: int)
    requires
        0 <= i <= j <= bytes.len(),
    ensures
        newlines(bytes.take(i)) <= newlines(bytes.take(j)),
        newlines(bytes.take(i)) <= i,
        i < j && bytes[i] == NEWLINE ==> newlines(bytes.take(i)) < newlines(bytes.take(j)),
    decreases j,
{
    if i < j {
        lemma_newlines_step(bytes, j - 1);
        lemma_newlines_monotonic(bytes, i, j - 1);
    } else if i > 0 {
        lemma_newlines_step(bytes, i - 1);
        lemma_newlines_monotonic(bytes, i - 1, i - 1);
    }
}

/// One more byte is one more newline or none.
pub proof fn lemma_newlines_step(bytes: Seq<u8>, at: int)
    requires
        0 <= at < bytes.len(),
    ensures
        newlines(bytes.take(at + 1)) == newlines(bytes.take(at)) + if bytes[at] == NEWLINE {
            1nat
        } else {
            0nat
        },
{
    assert(bytes.take(at + 1).drop_last() =~= bytes.take(at));
}

/// A line ends at one place at most.
pub proof fn lemma_line_break_unique(bytes: Seq<u8>, line: nat, at: int)
    requires
        ends_line(bytes, line, at),
    ensures
        line_break(bytes, line) == Some(at),
{
    let other = line_break(bytes, line)->0;
    assert(ends_line(bytes, line, other));
    if at < other {
        lemma_newlines_monotonic(bytes, at, other);
    } else if other < at {
        lemma_newlines_monotonic(bytes, other, at);
    }
}

/// A line that is not there ends nowhere.
pub proof fn lemma_line_break_none(bytes: Seq<u8>, line: nat)
    requires
        newlines(bytes) <= line,
    ensures
        line_break(bytes, line) is None,
{
    if exists|at: int| ends_line(bytes, line, at) {
        let at = choose|at: int| ends_line(bytes, line, at);
        lemma_newlines_monotonic(bytes, at, bytes.len() as int);
        assert(bytes.take(bytes.len() as int) =~= bytes);
    }
}

/// Every line but the last ends somewhere.
pub proof fn lemma_line_break_some(bytes: Seq<u8>, line: nat)
    requires
        line < newlines(bytes),
    ensures
        line_break(bytes, line) is Some,
    decreases bytes.len(),
{
    if bytes.len() > 0 {
        let rest = bytes.drop_last();
        let last = bytes.len() - 1;
        assert(bytes.take(last) =~= rest);
        if newlines(rest) == line {
            assert(ends_line(bytes, line, last));
        } else {
            lemma_line_break_some(rest, line);
            let at = line_break(rest, line)->0;
            assert(ends_line(rest, line, at));
            assert(rest.take(at) =~= bytes.take(at));
            assert(ends_line(bytes, line, at));
        }
    }
}

/// The offset at which the line `line`, counted from zero, starts, or, with
/// `want_end`, ends: before its newline, or at `buffer_len` where it is the
/// last line and has none. Absent where there is no such line.
pub fn buffer_line_byte_offset(
    content: &Vec<u8>,
    buffer_len: usize,
    line: usize,
    want_end: bool,
) -> (offset: Option<usize>)
    ensures
        match line_offset(content@, buffer_len as int, line as nat, want_end) {
            Some(at) => offset matches Some(o) && o == at,
            None => offset is None,
        },
{
    if !want_end && line == 0 {
        return Some(0);
    }
    let ghost bytes = content@;
    let mut current_line: usize = 0;
    let mut at: usize = 0;
    proof {
        assert(bytes.take(0) =~= Seq::<u8>::empty());
    }
    while at < content.len()
        invariant
            at <= content.len(),
            bytes == content@,
            want_end || line > 0,
            current_line == newlines(bytes.take(at as int)),
            current_line <= at,
            want_end ==> current_line <= line,
            !want_end ==> current_line < line,
        decreases content.len() - at,
    {
        proof {
            lemma_newlines_step(bytes, at as int);
        }
        if content[at] == NEWLINE {
            if want_end && current_line == line {
                proof {
                    assert(ends_line(bytes, line as nat, at as int));
                    lemma_line_break_unique(bytes, line as nat, at as int);
                }
                return Some(at);
            }
            current_line = current_line + 1;
            if !want_end && current_line == line {
                proof {
                    assert(ends_line(bytes, (line - 1) as nat, at as int));
                    lemma_line_break_unique(bytes, (line - 1) as nat, at as int);
                }
                return Some(at + 1);
            }
        }
        at = at + 1;
    }
    proof {
        assert(bytes.take(bytes.len() as int) =~= bytes);
        lemma_line_break_none(bytes, line as nat);
        if line > 0 && current_line < line {
            lemma_line_break_none(bytes, (line - 1) as nat);
        }
    }
    if want_end && current_line == line {
        Some(buffer_len)
    } else {
        None
    }
}

/// A range within a buffer of `len` bytes. A plugin asks with a length that
/// may lag behind the buffer, so that an end past it is taken back to it, and
/// a start past the end gives an empty range.
pub fn clamp_buffer_text_range(start: usize, end: usize, len: usize) -> (range: (usize, usize))
    ensures
        range.1 == if end < len {
            end
        } else {
            len
        },
        range.0 == if start < range.1 {
            start
        } else {
            range.1
        },
{
    let end: usize = if end < len {
        end
    } else {
        len
    };
    let start: usize = if start < end {
        start
    } else {
        end
    };
    (start, end)
}

/// How many lines a text has. A newline at its end begins no further line, and
/// an empty text has one line.
pub open spec fn line_total(bytes: Seq<u8>) -> nat {
    if bytes.len() == 0 {
        1
    } else if bytes.last() == NEWLINE {
        newlines(bytes)
    } else {
        newlines(bytes) + 1
    }
}

/// The number of newlines in the first `end` bytes.
fn count_newlines(content: &Vec<u8>, end: usize) -> (count: usize)
    requires
        end <= content@.len(),
    ensures
        count == newlines(content@.take(end as int)),
        count <= end,
{
    let mut count: usize = 0;
    let mut at: usize = 0;
    proof {
        assert(content@.take(0) =~= Seq::<u8>::empty());
    }
    while at < end
        invariant
            at <= end,
            end <= content@.len(),
            count == newlines(content@.take(at as int)),
            count <= at,
        decreases end - at,
    {
        proof {
            lemma_newlines_step(content@, at as int);
        }
        if content[at] == NEWLINE {
            count = count + 1;
        }
        at = at + 1;
    }
    count
}

/// How many lines a text has.
pub fn count_lines(content: &Vec<u8>) -> (lines: usize)
    ensures
        lines == line_total(content@),
{
    let len: usize = content.len();
    if len == 0 {
        return 1;
    }
    proof {
        assert(content@.take(len as int) =~= content@);
        assert(content@.take(len as int).drop_last() =~= content@.take(len - 1));
        lemma_newlines_monotonic(content@, len - 1, len - 1);
    }
    let ended: usize = count_newlines(content, len);
    if content[len - 1] == NEWLINE {
        ended
    } else {
        ended + 1
    }
}

/// The line, counted from zero, that holds the offset. An offset past the end
/// belongs to the last line.
pub open spec fn line_of(bytes: Seq<u8>, offset: u64) -> nat {
    if offset < bytes.len() {
        newlines(bytes.take(offset as int))
    } else {
        newlines(bytes)
    }
}

/// The line, counted from zero, that holds the offset.
pub fn get_line_number(content: &Vec<u8>, offset: u64) -> (line: u64)
    ensures
        line == line_of(content@, offset),
{
    let len: usize = content.len();
    let end: usize = if offset < len as u64 {
        offset as usize
    } else {
        len
    };
    proof {
        assert(content@.take(len as int) =~= content@);
    }
    count_newlines(content, end) as u64
}

/// The bytes of a range that is cut to the buffer.
pub open spec fn range_bytes(bytes: Seq<u8>, start: u64, end: u64) -> Seq<u8> {
    let last = if end < bytes.len() {
        end as int
    } else {
        bytes.len() as int
    };
    let first = if start < last {
        start as int
    } else {
        last
    };
    bytes.subrange(first, last)
}

/// The bytes of a range that is cut to the buffer.
pub fn text_range(content: &Vec<u8>, start: u64, end: u64) -> (text: Vec<u8>)
    ensures
        text@ == range_bytes(content@, start, end),
{
    let len: usize = content.len();
    let end: usize = if end < len as u64 {
        end as usize
    } else {
        len
    };
    let start: usize = if start < end as u64 {
        start as usize
    } else {
        end
    };
    let mut text: Vec<u8> = Vec::new();
    let mut at: usize = start;
    while at < end
        invariant
            start <= at <= end <= content@.len(),
            text@ == content@.subrange(start as int, at as int),
        decreases end - at,
    {
        text.push(content[at]);
        proof {
            assert(text@ =~= content@.subrange(start as int, at + 1));
        }
        at = at + 1;
    }
    text
}

/// A clamped range lies within the buffer, and a range that does is kept.
pub proof fn clamped_range_is_within(start: usize, end: usize, len: usize, range: (usize, usize))
    requires
        call_ensures(clamp_buffer_text_range, (start, end, len), range),
    ensures
        range.0 <= range.1 <= len,
        start <= end <= len ==> range == (start, end),
{
}

/// The start of a line is not after its end, and the next line starts right
/// behind the newline.
pub proof fn lines_follow_each_other(bytes: Seq<u8>, line: nat)
    requires
        line < newlines(bytes),
    ensures
        ({
            let end = line_offset(bytes, bytes.len() as int, line, true);
            let start = line_offset(bytes, bytes.len() as int, line, false);
            &&& end is Some
            &&& start is Some
            &&& start->0 <= end->0
            &&& line_offset(bytes, bytes.len() as int, line + 1, false) == Some(end->0 + 1)
        }),
{
    lemma_line_break_some(bytes, line);
    let end = line_break(bytes, line)->0;
    assert(ends_line(bytes, line, end));
    if line > 0 {
        lemma_line_break_some(bytes, (line - 1) as nat);
        let before = line_break(bytes, (line - 1) as nat)->0;
        assert(ends_line(bytes, (line - 1) as nat, before));
        if before >= end {
            lemma_newlines_monotonic(bytes, end, before);
        }
    }
}

/// There is a line exactly for every number up to that of the newlines.
pub proof fn lines_are_numbered(bytes: Seq<u8>, line: nat, want_end: bool)
    ensures
        line_offset(bytes, bytes.len() as int, line, want_end) is Some <==> line <= newlines(bytes),
{
    if line < newlines(bytes) {
        lemma_line_break_some(bytes, line);
    } else {
        lemma_line_break_none(bytes, line);
    }
    if line > 0 {
        if line - 1 < newlines(bytes) {
            lemma_line_break_some(bytes, (line - 1) as nat);
        } else {
            lemma_line_break_none(bytes, (line - 1) as nat);
        }
    }
}

} // verus!
