//! Reading the routing key out of a `Forwarded` header, and normalising
//! request paths.
//!
//! The header is a list of parameters separated by `;`. The first parameter
//! that starts with `host=` names the instance that the request is meant
//! for.

use vstd::prelude::*;
use vstd::string::is_ascii_spec_bytes;
use vstd::utf8::is_ascii_chars;

verus! {

/// The prefix of the parameter that carries the routing key: `host=`.
pub open spec fn host_prefix() -> Seq<char> {
    seq!['h', 'o', 's', 't', '=']
}

/// Where the parameter that begins at `start` ends: at the next `;`, or at
/// the end of the header.
pub open spec fn segment_end(header: Seq<char>, start: int) -> int
    decreases header.len() - start,
{
    if start >= header.len() {
        header.len() as int
    } else if header[start] == ';' {
        start
    } else {
        segment_end(header, start + 1)
    }
}

/// The value of the first `host=` parameter among those that begin at or
/// after `start`; empty where there is none.
pub open spec fn host_parameter(header: Seq<char>, start: int) -> Seq<char>
    decreases header.len() - start,
{
    if start < 0 || start > header.len() {
        Seq::empty()
    } else {
        let end = segment_end(header, start);
        let segment = header.subrange(start, end);
        if host_prefix().is_prefix_of(segment) {
            segment.skip(5)
        } else if end >= header.len() {
            Seq::empty()
        } else {
            proof {
                lemma_segment_end_bounds(header, start);
            }
            host_parameter(header, end + 1)
        }
    }
}

/// The routing key that a `Forwarded` header selects. A header that holds
/// anything but ASCII is malformed and selects the empty key, as does a
/// header without a `host=` parameter.
pub open spec fn forwarded_host(header: Seq<char>) -> Seq<char> {
    if is_ascii_chars(header) {
        host_parameter(header, 0)
    } else {
        Seq::empty()
    }
}

/// A path without its trailing slash. The root path `/` is left alone, and
/// only one slash is taken off.
pub open spec fn normalized_path(path: Seq<char>) -> Seq<char> {
    if path.len() > 1 && path.last() == '/' {
        path.drop_last()
    } else {
        path
    }
}

/// A parameter ends at or after the place where it begins, and within the
/// header.
pub proof fn lemma_segment_end_bounds(header: Seq<char>, start: int)
    requires
        0 <= start <= header.len(),
    ensures
        start <= segment_end(header, start) <= header.len(),
        forall|i: int| start <= i < segment_end(header, start) ==> header[i] != ';',
        segment_end(header, start) < header.len() ==> header[segment_end(header, start)] == ';',
    decreases header.len() - start,
{
    if start < header.len() && header[start] != ';' {
        lemma_segment_end_bounds(header, start + 1);
    }
}

/// Parameters are found in the tail of a header where they are found in the
/// tail alone: what stands before the place where reading begins does not
/// matter.
pub proof fn lemma_host_parameter_shift(before: Seq<char>, rest: Seq<char>, start: int)
    requires
        0 <= start <= rest.len(),
    ensures
        segment_end(before + rest, before.len() + start) == before.len() + segment_end(rest, start),
        host_parameter(before + rest, before.len() + start) == host_parameter(rest, start),
    decreases rest.len() - start,
{
    let whole = before + rest;
    lemma_segment_end_shift(before, rest, start);
    lemma_segment_end_bounds(rest, start);
    let end = segment_end(rest, start);
    assert(whole.subrange(before.len() + start, before.len() + end) =~= rest.subrange(start, end));
    if !host_prefix().is_prefix_of(rest.subrange(start, end)) && end < rest.len() {
        lemma_host_parameter_shift(before, rest, end + 1);
    }
}

/// A parameter of the tail of a header ends where it ends in the tail
/// alone.
pub proof fn lemma_segment_end_shift(before: Seq<char>, rest: Seq<char>, start: int)
    requires
        0 <= start <= rest.len(),
    ensures
        segment_end(before + rest, before.len() + start) == before.len() + segment_end(rest, start),
    decreases rest.len() - start,
{
    let whole = before + rest;
    if start < rest.len() {
        assert(whole[before.len() + start] == rest[start]);
        if rest[start] != ';' {
            lemma_segment_end_shift(before, rest, start + 1);
        }
    }
}

/// A header that consists of the `host=` parameter alone selects the key
/// that the parameter carries.
pub proof fn lemma_host_parameter_selects_key(key: Seq<char>)
    requires
        is_ascii_chars(key),
        !key.contains(';'),
    ensures
        forwarded_host(host_prefix() + key) == key,
{
    let header = host_prefix() + key;
    assert(is_ascii_chars(header)) by {
        assert forall|i: int| 0 <= i < header.len() implies '\0' <= #[trigger] header[i]
            <= '\u{7f}' by {
            if i >= 5 {
                assert(header[i] == key[i - 5]);
            }
        }
    }
    lemma_segment_end_bounds(header, 0);
    let end = segment_end(header, 0);
    if end < header.len() {
        assert(header[end] == ';');
        if end >= 5 {
            assert(key[end - 5] == ';');
            assert(key.contains(';'));
        }
    }
    assert(end == header.len());
    assert(header.subrange(0, end) =~= header);
    assert(header.subrange(0, 5) =~= host_prefix());
    assert(header.skip(5) =~= key);
}

/// A parameter that is not the `host=` parameter is passed over: the key is
/// that of the rest of the header.
pub proof fn lemma_other_parameter_is_skipped(first: Seq<char>, rest: Seq<char>)
    requires
        is_ascii_chars(first),
        is_ascii_chars(rest),
        !first.contains(';'),
        !host_prefix().is_prefix_of(first),
    ensures
        forwarded_host(first + seq![';'] + rest) == forwarded_host(rest),
{
    let before = first + seq![';'];
    let header = before + rest;
    assert(is_ascii_chars(header)) by {
        assert forall|i: int| 0 <= i < header.len() implies '\0' <= #[trigger] header[i]
            <= '\u{7f}' by {
            if i < first.len() {
                assert(header[i] == first[i]);
            } else if i > first.len() {
                assert(header[i] == rest[i - first.len() - 1]);
            }
        }
    }
    lemma_segment_end_bounds(header, 0);
    let end = segment_end(header, 0);
    assert(end == first.len()) by {
        if end < first.len() {
            assert(header[end] == first[end]);
            assert(first.contains(';'));
        }
        assert(header[first.len() as int] == ';');
    }
    assert(header.subrange(0, end) =~= first);
    lemma_host_parameter_shift(before, rest, 0);
}

/// A header that begins with the `host=` parameter selects the key that the
/// parameter carries, whatever parameters follow.
pub proof fn lemma_leading_host_parameter(key: Seq<char>, rest: Seq<char>)
    requires
        is_ascii_chars(key),
        is_ascii_chars(rest),
        !key.contains(';'),
    ensures
        forwarded_host(host_prefix() + key + seq![';'] + rest) == key,
{
    let first = host_prefix() + key;
    let header = first + seq![';'] + rest;
    assert(is_ascii_chars(header)) by {
        assert forall|i: int| 0 <= i < header.len() implies '\0' <= #[trigger] header[i]
            <= '\u{7f}' by {
            if 5 <= i < first.len() {
                assert(header[i] == key[i - 5]);
            } else if i > first.len() {
                assert(header[i] == rest[i - first.len() - 1]);
            }
        }
    }
    lemma_segment_end_bounds(header, 0);
    let end = segment_end(header, 0);
    assert(end == first.len()) by {
        if end < first.len() {
            if end >= 5 {
                assert(header[end] == key[end - 5]);
                assert(key.contains(';'));
            }
        }
        assert(header[first.len() as int] == ';');
    }
    assert(header.subrange(0, end) =~= first);
    assert(first.subrange(0, 5) =~= host_prefix());
    assert(first.skip(5) =~= key);
}

/// Reads the routing key out of the value of a `Forwarded` header.
pub fn forwarded_host_of(header: &str) -> (key: String)
    ensures
        key@ == forwarded_host(header@),
{
    if !header.is_ascii() {
        return String::new();
    }
    let bytes = header.as_bytes();
    proof {
        is_ascii_spec_bytes(header);
    }
    let n: usize = bytes.len();
    let mut start: usize = 0;
    loop
        invariant
            is_ascii_chars(header@),
            n == header@.len(),
            bytes@.len() == n,
            forall|i: int| 0 <= i < n ==> bytes@[i] == header@[i] as u8,
            start <= n,
            host_parameter(header@, start as int) == forwarded_host(header@),
        decreases n - start,
    {
        let mut end: usize = start;
        while end < n && bytes[end] != 59u8
            invariant
                is_ascii_chars(header@),
                n == header@.len(),
                bytes@.len() == n,
                forall|i: int| 0 <= i < n ==> bytes@[i] == header@[i] as u8,
                start <= end <= n,
                segment_end(header@, end as int) == segment_end(header@, start as int),
            decreases n - end,
        {
            assert(header@[end as int] != ';');
            end += 1;
        }
        proof {
            if end < n {
                assert(header@[end as int] as u8 == 59u8);
                assert(header@[end as int] == ';');
            }
            assert(segment_end(header@, start as int) == end);
        }
        let ghost segment = header@.subrange(start as int, end as int);
        if end - start >= 5 && bytes[start] == 104u8 && bytes[start + 1] == 111u8 && bytes[start
            + 2] == 115u8 && bytes[start + 3] == 116u8 && bytes[start + 4] == 61u8 {
            proof {
                assert(segment[0] == 'h');
                assert(segment[1] == 'o');
                assert(segment[2] == 's');
                assert(segment[3] == 't');
                assert(segment[4] == '=');
                assert(segment.subrange(0, 5) =~= host_prefix());
                assert(segment.skip(5) =~= header@.subrange(start + 5, end as int));
            }
            return header.substring_ascii(start + 5, end).to_owned();
        }
        assert(!host_prefix().is_prefix_of(segment)) by {
            if host_prefix().is_prefix_of(segment) {
                let head = segment.subrange(0, 5);
                assert(head[0] == 'h' && head[1] == 'o' && head[2] == 's' && head[3] == 't'
                    && head[4] == '=');
            }
        }
        if end >= n {
            return String::new();
        }
        start = end + 1;
    }
}

/// Takes one trailing slash off a request path, so that `/a/b/` and `/a/b`
/// name the same resource.
pub fn normalize_path(path: &str) -> (normal: String)
    ensures
        normal@ == normalized_path(path@),
{
    let n: usize = path.unicode_len();
    if n > 1 && path.get_char(n - 1) == '/' {
        assert(path@.drop_last() =~= path@.subrange(0, n - 1));
        path.substring_char(0, n - 1).to_owned()
    } else {
        path.to_owned()
    }
}

} // verus!
