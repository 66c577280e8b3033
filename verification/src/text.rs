//! Text comparison and substitution.

use vstd::prelude::*;
use vstd::string::{StrSliceExecFns, StringExecFns};

verus! {

/// `text` with every match of `from` replaced by `to`, matches taken from
/// left to right and never overlapping.  An empty pattern matches nowhere.
pub open spec fn replace_all(text: Seq<char>, from: Seq<char>, to: Seq<char>) -> Seq<char>
    decreases text.len(),
{
    if from.len() == 0 || text.len() < from.len() {
        text
    } else if text.subrange(0, from.len() as int) == from {
        to + replace_all(text.subrange(from.len() as int, text.len() as int), from, to)
    } else {
        seq![text[0]] + replace_all(text.drop_first(), from, to)
    }
}

/// Whether two strings hold the same text.
pub fn same_text(a: &str, b: &str) -> (same: bool)
    ensures
        same == (a@ == b@),
{
    let x = String::from_str(a);
    let y = String::from_str(b);
    x == y
}

/// Replaces every match of `from` in `text` by `to`.
pub fn replace(text: &str, from: &str, to: &str) -> (replaced: String)
    ensures
        replaced@ == replace_all(text@, from@, to@),
{
    let n: usize = text.unicode_len();
    let m: usize = from.unicode_len();
    if m == 0 {
        return String::from_str(text);
    }
    let mut out = String::new();
    let mut i: usize = 0;
    proof {
        assert(text@.subrange(0, n as int) =~= text@);
        assert(out@ + text@ =~= text@);
    }
    while i < n
        invariant
            i <= n,
            n == text@.len(),
            m == from@.len(),
            m > 0,
            out@ + replace_all(text@.subrange(i as int, n as int), from@, to@) == replace_all(
                text@,
                from@,
                to@,
            ),
        decreases n - i,
    {
        let ghost rest = text@.subrange(i as int, n as int);
        let ghost before = out@;
        if n - i < m {
            out.append(text.substring_char(i, n));
            i = n;
            proof {
                assert(replace_all(rest, from@, to@) == rest);
                assert(text@.subrange(n as int, n as int).len() == 0);
                assert(out@ + replace_all(text@.subrange(n as int, n as int), from@, to@) =~= before
                    + rest);
            }
        } else if same_text(text.substring_char(i, i + m), from) {
            out.append(to);
            proof {
                assert(rest.subrange(0, m as int) =~= text@.subrange(i as int, i + m));
                assert(rest.subrange(m as int, rest.len() as int) =~= text@.subrange(
                    i + m,
                    n as int,
                ));
                assert(out@ + replace_all(text@.subrange(i + m, n as int), from@, to@) =~= before
                    + replace_all(rest, from@, to@));
            }
            i = i + m;
        } else {
            out.append(text.substring_char(i, i + 1));
            proof {
                assert(rest.subrange(0, m as int) =~= text@.subrange(i as int, i + m));
                assert(seq![rest[0]] =~= text@.subrange(i as int, i + 1));
                assert(rest.drop_first() =~= text@.subrange(i + 1, n as int));
                assert(out@ + replace_all(text@.subrange(i + 1, n as int), from@, to@) =~= before
                    + replace_all(rest, from@, to@));
            }
            i = i + 1;
        }
    }
    proof {
        assert(text@.subrange(n as int, n as int).len() == 0);
        assert(out@ + replace_all(text@.subrange(n as int, n as int), from@, to@) =~= out@);
    }
    out
}

} // verus!
