//! Small text transformations the pipeline's naming conventions rest on:
//! removing the colon separators of a hardware address, trimming wildcard
//! characters off a configured topic prefix, and taking the tail of a
//! device identifier for display names.

use vstd::prelude::*;
use vstd::string::StrSliceExecFns;
use vstd::string::StringExecFns;

verus! {

/// The characters a configured discovery topic prefix must not end with:
/// the topic-level separator and the two subscription wildcards.
pub open spec fn is_topic_wildcard_char(c: char) -> bool {
    c == '/' || c == '+' || c == '#'
}

/// `s` with every `:` removed, e.g. a colon-delimited hardware address
/// turned into its bare hexadecimal form.
pub open spec fn strip_colons_spec(s: Seq<char>) -> Seq<char>
    decreases s.len(),
{
    if s.len() == 0 {
        Seq::empty()
    } else if s.last() == ':' {
        strip_colons_spec(s.drop_last())
    } else {
        strip_colons_spec(s.drop_last()).push(s.last())
    }
}

/// `s` with its longest suffix of `/`, `+` and `#` characters removed.
pub open spec fn trim_topic_wildcards_spec(s: Seq<char>) -> Seq<char>
    decreases s.len(),
{
    if s.len() > 0 && is_topic_wildcard_char(s.last()) {
        trim_topic_wildcards_spec(s.drop_last())
    } else {
        s
    }
}

/// The last `n` characters of `s`, or all of `s` when it is shorter.
pub open spec fn tail_chars_spec(s: Seq<char>, n: int) -> Seq<char> {
    if s.len() <= n {
        s
    } else {
        s.subrange(s.len() - n, s.len() as int)
    }
}

/// Removes every colon from `s`.
pub fn strip_colons(s: &str) -> (r: String)
    ensures
        r@ == strip_colons_spec(s@),
{
    let len = s.unicode_len();
    let mut out = String::new();
    let mut i: usize = 0;
    while i < len
        invariant
            i <= len,
            len == s@.len(),
            out@ == strip_colons_spec(s@.take(i as int)),
        decreases len - i,
    {
        let c = s.get_char(i);
        if c != ':' {
            let piece = s.substring_char(i, i + 1);
            out.append(piece);
        }
        proof {
            assert(s@.take(i + 1).drop_last() =~= s@.take(i as int));
            assert(s@.take(i + 1).last() == s@[i as int]);
            if c != ':' {
                assert(out@ =~= strip_colons_spec(s@.take(i as int)).push(s@[i as int]));
            }
        }
        i = i + 1;
    }
    proof {
        assert(s@.take(len as int) =~= s@);
    }
    out
}

/// Whether `c` is a topic-level separator or a subscription wildcard.
fn is_topic_wildcard(c: char) -> (r: bool)
    ensures
        r == is_topic_wildcard_char(c),
{
    c == '/' || c == '+' || c == '#'
}

/// Removes the trailing `/`, `+` and `#` characters from `s`.
pub fn trim_topic_wildcards(s: &str) -> (r: String)
    ensures
        r@ == trim_topic_wildcards_spec(s@),
{
    let len = s.unicode_len();
    proof {
        assert(s@.take(len as int) =~= s@);
    }
    let mut end = len;
    while end > 0 && is_topic_wildcard(s.get_char(end - 1))
        invariant
            end <= len,
            len == s@.len(),
            trim_topic_wildcards_spec(s@) == trim_topic_wildcards_spec(s@.take(end as int)),
        decreases end,
    {
        proof {
            assert(s@.take(end as int).drop_last() =~= s@.take(end - 1));
            assert(s@.take(end as int).last() == s@[end - 1]);
        }
        end = end - 1;
    }
    proof {
        if end > 0 {
            assert(s@.take(end as int).last() == s@[end - 1]);
        }
        assert(trim_topic_wildcards_spec(s@.take(end as int)) == s@.take(end as int));
    }
    let kept = s.substring_char(0, end);
    let r = kept.to_owned();
    proof {
        assert(s@.subrange(0, end as int) =~= s@.take(end as int));
    }
    r
}

/// The last `n` characters of `s`, or all of `s` when it is shorter.
pub fn tail_chars(s: &str, n: usize) -> (r: String)
    ensures
        r@ == tail_chars_spec(s@, n as int),
{
    let len = s.unicode_len();
    if len <= n {
        s.to_owned()
    } else {
        let piece = s.substring_char(len - n, len);
        piece.to_owned()
    }
}

} // verus!
