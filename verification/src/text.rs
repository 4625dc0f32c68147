//! Byte strings: delimited fields, lines, and their decoding as text.
//!
//! Records arrive as bytes. Fields are cut at single delimiter bytes, and a
//! field becomes text only once it is known to be valid UTF-8.

use vstd::prelude::*;
use vstd::slice::slice_subrange;
use vstd::slice::slice_to_vec;
use vstd::utf8::decode_utf8;
use vstd::utf8::is_char_boundary;
use vstd::utf8::is_char_boundary_iff_not_is_continuation_byte;
use vstd::utf8::is_char_boundary_start_end_of_seq;
use vstd::utf8::valid_utf8;
use vstd::utf8::valid_utf8_concat;
use vstd::utf8::valid_utf8_split;

verus! {

/// The tab byte, which delimits the fields of an alignment record.
pub const TAB: u8 = 0x09;

/// The line feed byte, which ends a line.
pub const LF: u8 = 0x0a;

/// The carriage return byte, which may precede a line feed.
pub const CR: u8 = 0x0d;

/// The space byte, which ends the identifier of a sequence record.
pub const SPACE: u8 = 0x20;

/// The index of the first byte of `s` that equals `a` or `b`, or `s.len()`
/// where neither occurs.
pub open spec fn first_of(s: Seq<u8>, a: u8, b: u8) -> int
    decreases s.len(),
{
    if s.len() == 0 {
        0
    } else if s[0] == a || s[0] == b {
        0
    } else {
        1 + first_of(s.drop_first(), a, b)
    }
}

/// The index of the first occurrence of `b` in `s`, or `s.len()` where `b`
/// does not occur.
pub open spec fn first_byte(s: Seq<u8>, b: u8) -> int {
    first_of(s, b, b)
}

/// `first_of` lies within the sequence or at its end, no byte before it is
/// one of the two, and the byte at it, if there is one, is.
pub proof fn lemma_first_of(s: Seq<u8>, a: u8, b: u8)
    ensures
        0 <= first_of(s, a, b) <= s.len(),
        forall|j: int| 0 <= j < first_of(s, a, b) ==> s[j] != a && s[j] != b,
        first_of(s, a, b) < s.len() ==> s[first_of(s, a, b)] == a || s[first_of(s, a, b)] == b,
    decreases s.len(),
{
    if s.len() != 0 && s[0] != a && s[0] != b {
        let rest = s.drop_first();
        lemma_first_of(rest, a, b);
        assert forall|j: int| 0 <= j < first_of(s, a, b) implies s[j] != a && s[j] != b by {
            if j > 0 {
                assert(s[j] == rest[j - 1]);
            }
        }
    }
}

/// An index with the three properties of `lemma_first_of` is `first_of`.
pub proof fn lemma_first_of_unique(s: Seq<u8>, a: u8, b: u8, i: int)
    requires
        0 <= i <= s.len(),
        forall|j: int| 0 <= j < i ==> s[j] != a && s[j] != b,
        i < s.len() ==> s[i] == a || s[i] == b,
    ensures
        first_of(s, a, b) == i,
    decreases s.len(),
{
    if s.len() != 0 && i != 0 {
        let rest = s.drop_first();
        assert forall|j: int| 0 <= j < i - 1 implies rest[j] != a && rest[j] != b by {
        }
        lemma_first_of_unique(rest, a, b, i - 1);
    }
}

/// Finds the first byte at or after `start` that equals `a` or `b`.
pub fn find_first(s: &[u8], start: usize, a: u8, b: u8) -> (end: usize)
    requires
        start <= s.len(),
    ensures
        start <= end <= s.len(),
        end == start + first_of(s@.skip(start as int), a, b),
{
    let mut i: usize = start;
    while i < s.len() && s[i] != a && s[i] != b
        invariant
            start <= i <= s.len(),
            forall|j: int| start <= j < i ==> s@[j] != a && s@[j] != b,
        decreases s.len() - i,
    {
        i = i + 1;
    }
    proof {
        let rest = s@.skip(start as int);
        assert forall|j: int| 0 <= j < i - start implies rest[j] != a && rest[j] != b by {
        }
        lemma_first_of_unique(rest, a, b, i - start);
    }
    i
}

/// A line without the carriage return that a line feed may have followed.
pub open spec fn strip_cr(line: Seq<u8>) -> Seq<u8> {
    if line.len() > 0 && line.last() == CR {
        line.drop_last()
    } else {
        line
    }
}

/// The lines of a byte stream. A line ends at a line feed, which is dropped
/// together with a carriage return directly before it. Bytes after the last
/// line feed form a last line; an empty stream has no line.
pub open spec fn lines_of(data: Seq<u8>) -> Seq<Seq<u8>>
    decreases data.len(),
{
    let end = first_byte(data, LF);
    if data.len() == 0 {
        Seq::empty()
    } else if end < 0 || end >= data.len() {
        seq![data]
    } else {
        seq![strip_cr(data.take(end))] + lines_of(data.skip(end + 1))
    }
}

/// The views of the byte strings that a vector holds.
pub open spec fn byte_views(v: Seq<Vec<u8>>) -> Seq<Seq<u8>> {
    Seq::new(v.len(), |i: int| v[i]@)
}

/// Splits a byte stream into its lines.
pub fn split_lines(data: &[u8]) -> (lines: Vec<Vec<u8>>)
    ensures
        byte_views(lines@) == lines_of(data@),
{
    let mut lines: Vec<Vec<u8>> = Vec::new();
    let mut pos: usize = 0;
    proof {
        assert(data@.skip(0) == data@);
    }
    while pos < data.len()
        invariant
            pos <= data.len(),
            lines_of(data@) == byte_views(lines@) + lines_of(data@.skip(pos as int)),
        decreases data.len() - pos,
    {
        let ghost rest = data@.skip(pos as int);
        let end = find_first(data, pos, LF, LF);
        let mut stop: usize = end;
        if end < data.len() && pos < end && data[end - 1] == CR {
            stop = end - 1;
        }
        let line = slice_to_vec(slice_subrange(data, pos, stop));
        proof {
            if end < data.len() {
                assert(line@ == strip_cr(rest.take(end - pos)));
                assert(rest.skip(end - pos + 1) == data@.skip(end + 1));
            }
        }
        lines.push(line);
        pos = if end < data.len() {
            end + 1
        } else {
            end
        };
    }
    lines
}

/// The `n`-th of the fields that `sep` cuts `s` into, counted from zero, or
/// `None` where `s` has fewer fields. A byte string without `sep` is one
/// field.
pub open spec fn field_of(s: Seq<u8>, sep: u8, n: nat) -> Option<Seq<u8>>
    decreases n,
{
    let end = first_byte(s, sep);
    if n == 0 {
        Some(s.take(end))
    } else if end < 0 || end >= s.len() {
        None
    } else {
        field_of(s.skip(end + 1), sep, (n - 1) as nat)
    }
}

/// Finds the `n`-th field of `s`, as the range of its bytes.
pub fn find_field(s: &[u8], sep: u8, n: usize) -> (range: Option<(usize, usize)>)
    ensures
        match range {
            Some((from, to)) => from <= to <= s.len() && field_of(s@, sep, n as nat) == Some(
                s@.subrange(from as int, to as int),
            ),
            None => field_of(s@, sep, n as nat) is None,
        },
{
    let mut from: usize = 0;
    let mut left: usize = n;
    proof {
        assert(s@.skip(0) == s@);
    }
    loop
        invariant
            from <= s.len(),
            left <= n,
            field_of(s@, sep, n as nat) == field_of(s@.skip(from as int), sep, left as nat),
        decreases left,
    {
        let ghost rest = s@.skip(from as int);
        let end = find_first(s, from, sep, sep);
        if left == 0 {
            return Some((from, end));
        }
        if end >= s.len() {
            return None;
        }
        proof {
            assert(rest.skip(end - from + 1) == s@.skip(end + 1));
        }
        from = end + 1;
        left = left - 1;
    }
}

/// Fields put together, with `sep` between each two.
pub open spec fn joined(fields: Seq<Seq<u8>>, sep: u8) -> Seq<u8>
    decreases fields.len(),
{
    if fields.len() == 0 {
        Seq::empty()
    } else if fields.len() == 1 {
        fields[0]
    } else {
        fields[0] + seq![sep] + joined(fields.drop_first(), sep)
    }
}

/// Whether the bytes do not hold the byte `b`.
pub open spec fn lacks(s: Seq<u8>, b: u8) -> bool {
    forall|j: int| 0 <= j < s.len() ==> s[j] != b
}

/// Whether no field holds the byte `b`.
pub open spec fn free_of(fields: Seq<Seq<u8>>, b: u8) -> bool {
    forall|i: int| 0 <= i < fields.len() ==> lacks(#[trigger] fields[i], b)
}

/// Cutting what was joined gives the fields back: the `n`-th field of the
/// joined bytes is the `n`-th of the fields, provided no field holds the
/// separator.
pub proof fn lemma_joined_field(fields: Seq<Seq<u8>>, sep: u8, n: nat)
    requires
        fields.len() > 0,
        free_of(fields, sep),
    ensures
        field_of(joined(fields, sep), sep, n) == if n < fields.len() {
            Some(fields[n as int])
        } else {
            None
        },
    decreases fields.len(),
{
    let all = joined(fields, sep);
    let first = fields[0];
    if fields.len() == 1 {
        lemma_first_of_unique(first, sep, sep, first.len() as int);
    } else {
        let rest = fields.drop_first();
        assert forall|j: int| 0 <= j < first.len() implies all[j] != sep by {
        }
        lemma_first_of_unique(all, sep, sep, first.len() as int);
        assert(all.skip(first.len() as int + 1) == joined(rest, sep));
        assert forall|i: int| 0 <= i < rest.len() implies lacks(#[trigger] rest[i], sep) by {
        }
        if n > 0 {
            lemma_joined_field(rest, sep, (n - 1) as nat);
        }
    }
}

/// What was joined holds no byte that neither a field holds nor the
/// separator is.
pub proof fn lemma_joined_free(fields: Seq<Seq<u8>>, sep: u8, b: u8)
    requires
        free_of(fields, b),
        sep != b,
    ensures
        lacks(joined(fields, sep), b),
    decreases fields.len(),
{
    if fields.len() > 1 {
        let rest = fields.drop_first();
        assert forall|i: int| 0 <= i < rest.len() implies lacks(#[trigger] rest[i], b) by {
        }
        lemma_joined_free(rest, sep, b);
    }
}

/// Fields of text joined by a separator below `0x80` are text.
pub proof fn lemma_joined_is_text(fields: Seq<Seq<u8>>, sep: u8)
    requires
        forall|i: int| 0 <= i < fields.len() ==> valid_utf8(#[trigger] fields[i]),
        sep < 0x80,
    ensures
        valid_utf8(joined(fields, sep)),
    decreases fields.len(),
{
    if fields.len() > 1 {
        let rest = fields.drop_first();
        assert forall|i: int| 0 <= i < rest.len() implies valid_utf8(#[trigger] rest[i]) by {
        }
        lemma_joined_is_text(rest, sep);
        lemma_byte_is_text(sep);
        valid_utf8_concat(fields[0], seq![sep]);
        valid_utf8_concat(fields[0] + seq![sep], joined(rest, sep));
    }
}

/// A single byte below `0x80` is text.
pub proof fn lemma_byte_is_text(b: u8)
    requires
        b < 0x80,
    ensures
        valid_utf8(seq![b]),
{
    let s = seq![b];
    reveal_with_fuel(valid_utf8, 2);
}

/// Decodes bytes as UTF-8 text.
///
/// Calls `std::str::from_utf8`. The contract says what its documentation
/// says: the call succeeds exactly on valid UTF-8, and the text it returns is
/// the one those bytes encode.
#[verifier::external_body]
pub(crate) fn text_of(bytes: &[u8]) -> (text: Option<&str>)
    ensures
        text is Some <==> valid_utf8(bytes@),
        text matches Some(s) ==> s@ == decode_utf8(bytes@),
{
    std::str::from_utf8(bytes).ok()
}

/// Cutting valid UTF-8 before a byte that continues no character leaves
/// valid UTF-8 on both sides; so does cutting it at its end.
pub proof fn lemma_cut_is_text(bytes: Seq<u8>, at: int)
    requires
        valid_utf8(bytes),
        0 <= at <= bytes.len(),
        at < bytes.len() ==> bytes[at] < 0x80,
    ensures
        is_char_boundary(bytes, at),
        valid_utf8(bytes.take(at)),
        valid_utf8(bytes.skip(at)),
{
    if at < bytes.len() {
        is_char_boundary_iff_not_is_continuation_byte(bytes, at);
    } else {
        is_char_boundary_start_end_of_seq(bytes);
    }
    valid_utf8_split(bytes, at);
}

} // verus!
