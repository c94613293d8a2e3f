//! Line framing on the wire to the child: one message per line, each line
//! closed by a single newline byte and holding no other.

use vstd::prelude::*;
use vstd::slice::{slice_subrange, slice_to_vec};

verus! {

/// The byte that closes a line.
pub const NEWLINE: u8 = 10;

/// Whether `bytes` holds a newline anywhere.
pub open spec fn has_newline(bytes: Seq<u8>) -> bool {
    exists|i: int| 0 <= i < bytes.len() && bytes[i] == NEWLINE
}

/// The line that carries `text`: the text, then one newline.
pub open spec fn frame(text: Seq<u8>) -> Seq<u8> {
    text.push(NEWLINE)
}

/// Whether `raw` runs up to and including a newline.
pub open spec fn ends_line(raw: Seq<u8>) -> bool {
    raw.len() > 0 && raw.last() == NEWLINE
}

/// Whether `line` is exactly one line: closed by a newline, with none before it.
pub open spec fn is_line(line: Seq<u8>) -> bool {
    ends_line(line) && !has_newline(line.drop_last())
}

/// The position of the first newline in `stream`, or its length if it has none.
pub open spec fn first_newline(stream: Seq<u8>) -> int
    decreases stream.len(),
{
    if stream.len() == 0 || stream[0] == NEWLINE {
        0
    } else {
        1 + first_newline(stream.drop_first())
    }
}

/// The bytes of `lines` one after another, as a reader of the pipe sees them.
pub open spec fn join(lines: Seq<Seq<u8>>) -> Seq<u8>
    decreases lines.len(),
{
    if lines.len() == 0 {
        Seq::empty()
    } else {
        lines.first() + join(lines.drop_first())
    }
}

/// The complete lines of `stream`, in order; bytes after the last newline
/// belong to no line.
pub open spec fn split(stream: Seq<u8>) -> Seq<Seq<u8>>
    decreases stream.len(),
{
    let cut = first_newline(stream);
    if 0 <= cut < stream.len() {
        seq![stream.subrange(0, cut + 1)] + split(stream.subrange(cut + 1, stream.len() as int))
    } else {
        Seq::empty()
    }
}

/// `first_newline` finds a newline exactly when there is one, and nothing
/// before the place it names is a newline.
pub proof fn lemma_first_newline(stream: Seq<u8>)
    ensures
        0 <= first_newline(stream) <= stream.len(),
        first_newline(stream) < stream.len() <==> has_newline(stream),
        first_newline(stream) < stream.len() ==> stream[first_newline(stream)] == NEWLINE,
        forall|i: int| 0 <= i < first_newline(stream) ==> stream[i] != NEWLINE,
    decreases stream.len(),
{
    if stream.len() == 0 || stream[0] == NEWLINE {
    } else {
        let rest = stream.drop_first();
        lemma_first_newline(rest);
        assert forall|i: int| 0 <= i < first_newline(stream) implies stream[i] != NEWLINE by {
            if i > 0 {
                assert(stream[i] == rest[i - 1]);
            }
        }
        if first_newline(stream) < stream.len() {
            assert(stream[first_newline(stream)] == rest[first_newline(rest)]);
        }
        if has_newline(stream) {
            let k = choose|k: int| 0 <= k < stream.len() && stream[k] == NEWLINE;
            assert(rest[k - 1] == NEWLINE);
        }
    }
}

/// A framed text without a newline of its own is exactly one line.
pub proof fn lemma_frame_is_line(text: Seq<u8>)
    requires
        !has_newline(text),
    ensures
        is_line(frame(text)),
        frame(text).len() == text.len() + 1,
{
    assert(frame(text).drop_last() =~= text);
}

/// A line at the head of a stream is the first thing `split` finds there.
pub proof fn lemma_split_head(line: Seq<u8>, rest: Seq<u8>)
    requires
        is_line(line),
    ensures
        split(line + rest) == seq![line] + split(rest),
{
    let stream = line + rest;
    let last = line.len() - 1;
    lemma_first_newline(stream);
    assert(stream[last] == NEWLINE);
    let cut = first_newline(stream);
    if cut < last {
        assert(line.drop_last()[cut] == stream[cut]);
    }
    assert(cut == last);
    assert(stream.subrange(0, cut + 1) =~= line);
    assert(stream.subrange(cut + 1, stream.len() as int) =~= rest);
}

/// Lines written one after another are read back as the same lines, in the
/// same order: framing loses nothing and mixes nothing.
pub proof fn lemma_split_join(lines: Seq<Seq<u8>>)
    requires
        forall|i: int| 0 <= i < lines.len() ==> is_line(#[trigger] lines[i]),
    ensures
        split(join(lines)) == lines,
    decreases lines.len(),
{
    if lines.len() == 0 {
        lemma_first_newline(Seq::<u8>::empty());
    } else {
        let rest = lines.drop_first();
        assert forall|i: int| 0 <= i < rest.len() implies is_line(#[trigger] rest[i]) by {
            assert(rest[i] == lines[i + 1]);
        }
        lemma_split_join(rest);
        lemma_split_head(lines.first(), join(rest));
        assert(seq![lines.first()] + rest =~= lines);
    }
}

/// Tells whether `bytes` holds a newline.
pub fn contains_newline(bytes: &[u8]) -> (found: bool)
    ensures
        found == has_newline(bytes@),
{
    let mut i: usize = 0;
    while i < bytes.len()
        invariant
            i <= bytes.len(),
            forall|j: int| 0 <= j < i ==> bytes@[j] != NEWLINE,
        decreases bytes.len() - i,
    {
        if bytes[i] == NEWLINE {
            return true;
        }
        i += 1;
    }
    false
}

/// Frames `text` as one line. A text that already holds a newline cannot be
/// sent as one line and is refused.
pub fn frame_line(text: &[u8]) -> (line: Option<Vec<u8>>)
    ensures
        has_newline(text@) <==> line is None,
        line matches Some(bytes) ==> bytes@ == frame(text@) && is_line(bytes@),
{
    if contains_newline(text) {
        None
    } else {
        let mut bytes = slice_to_vec(text);
        bytes.push(NEWLINE);
        proof {
            lemma_frame_is_line(text@);
        }
        Some(bytes)
    }
}

/// Tells whether `raw`, as read from the child, runs up to a newline. What a
/// reader gets when the stream ends early does not.
pub fn is_full_line(raw: &[u8]) -> (full: bool)
    ensures
        full == ends_line(raw@),
{
    let n: usize = raw.len();
    n > 0 && raw[n - 1] == NEWLINE
}

/// Tells whether `raw` is exactly one line.
pub fn is_one_line(raw: &[u8]) -> (one: bool)
    ensures
        one == is_line(raw@),
{
    let n: usize = raw.len();
    if n > 0 && raw[n - 1] == NEWLINE {
        let before = slice_subrange(raw, 0, n - 1);
        assert(before@ =~= raw@.drop_last());
        !contains_newline(before)
    } else {
        false
    }
}

} // verus!
