//! A plain string model of filesystem paths.
//!
//! The conversion logic only ever needs three questions answered about a
//! path: whether it is absolute, what its directory part is, and what joining
//! it onto a base directory yields. All three are defined here over character
//! sequences, so the rest of the library can reason about them exactly.

use vstd::prelude::*;
use vstd::string::StrSliceExecFns;
use vstd::string::StringExecFns;

verus! {

/// A path is absolute when it begins with the separator.
pub open spec fn is_absolute_spec(s: Seq<char>) -> bool {
    s.len() > 0 && s[0] == '/'
}

pub fn is_absolute(s: &str) -> (b: bool)
    ensures
        b == is_absolute_spec(s@),
{
    let n = s.unicode_len();
    if n == 0 {
        false
    } else {
        s.get_char(0) == '/'
    }
}

/// Index of the last separator in `s`, or `-1` when `s` holds none.
pub open spec fn last_sep_idx(s: Seq<char>) -> int
    decreases s.len(),
{
    if s.len() == 0 {
        -1
    } else if s[s.len() - 1] == '/' {
        s.len() - 1
    } else {
        last_sep_idx(s.drop_last())
    }
}

/// The directory part of a path: everything before the last separator.
/// Empty when the path has no separator, or none before its first character.
pub open spec fn parent_spec(s: Seq<char>) -> Seq<char> {
    if last_sep_idx(s) <= 0 {
        Seq::empty()
    } else {
        s.subrange(0, last_sep_idx(s))
    }
}

/// How `last_sep_idx` grows when one character is appended; this is what a
/// left-to-right scan of the path relies on.
proof fn lemma_last_sep_idx_push(s: Seq<char>, c: char)
    ensures
        last_sep_idx(s.push(c)) == if c == '/' {
            s.len() as int
        } else {
            last_sep_idx(s)
        },
{
    let t = s.push(c);
    assert(t.drop_last() =~= s);
}

pub fn parent_dir(s: &str) -> (r: String)
    ensures
        r@ == parent_spec(s@),
{
    let n = s.unicode_len();
    let mut found: bool = false;
    let mut last: usize = 0;
    let mut i: usize = 0;
    while i < n
        invariant
            i <= n,
            n == s@.len(),
            found ==> last < i,
            last_sep_idx(s@.subrange(0, i as int)) == if found {
                last as int
            } else {
                -1
            },
        decreases n - i,
    {
        proof {
            assert(s@.subrange(0, i as int).push(s@[i as int]) =~= s@.subrange(
                0,
                i as int + 1,
            ));
            lemma_last_sep_idx_push(s@.subrange(0, i as int), s@[i as int]);
        }
        if s.get_char(i) == '/' {
            found = true;
            last = i;
        }
        i = i + 1;
    }
    proof {
        assert(s@.subrange(0, n as int) =~= s@);
    }
    if !found || last == 0 {
        String::new()
    } else {
        String::from_str(s.substring_char(0, last))
    }
}

/// Joining a relative path onto a base directory: a separator is inserted
/// unless the base already ends in one.
pub open spec fn join_spec(base: Seq<char>, rel: Seq<char>) -> Seq<char> {
    if base.len() > 0 && base[base.len() - 1] == '/' {
        base + rel
    } else {
        base + "/"@ + rel
    }
}

pub fn join(base: &str, rel: &str) -> (r: String)
    ensures
        r@ == join_spec(base@, rel@),
{
    let n = base.unicode_len();
    let owned = String::from_str(base);
    if n > 0 && base.get_char(n - 1) == '/' {
        owned.concat(rel)
    } else {
        owned.concat("/").concat(rel)
    }
}

} // verus!
