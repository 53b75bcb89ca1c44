//! Verified text helpers: substring search, splitting on a separator, and
//! joining lines. Command output is classified by scanning it with these.

use vstd::prelude::*;

verus! {

use vstd::string::StrSliceExecFns;
use vstd::string::StringExecFns;

/// Does `sub` occur as a contiguous run of characters inside `s`?
pub open spec fn contains_seq(s: Seq<char>, sub: Seq<char>) -> bool {
    exists|i: int| 0 <= i && i + sub.len() <= s.len() && #[trigger] s.subrange(i, i + sub.len())
        == sub
}

/// Substring search by direct comparison at every offset.
pub fn contains_substring(s: &str, sub: &str) -> (r: bool)
    ensures
        r == contains_seq(s@, sub@),
{
    let n = s.unicode_len();
    let m = sub.unicode_len();
    if m > n {
        return false;
    }
    let mut i: usize = 0;
    while i <= n - m
        invariant
            m <= n,
            n == s@.len(),
            m == sub@.len(),
            i <= n - m + 1,
            forall|k: int| 0 <= k < i ==> #[trigger] s@.subrange(k, k + sub@.len()) != sub@,
        decreases n - m - i + 1,
    {
        let mut j: usize = 0;
        let mut matched = true;
        while j < m && matched
            invariant
                j <= m,
                i + m <= n,
                n == s@.len(),
                m == sub@.len(),
                matched ==> forall|k: int| 0 <= k < j ==> s@[i + k] == sub@[k],
                !matched ==> exists|k: int| 0 <= k < j && s@[i + k] != sub@[k],
            decreases m - j,
        {
            if s.get_char(i + j) != sub.get_char(j) {
                matched = false;
            }
            j += 1;
        }
        if matched {
            proof {
                assert(s@.subrange(i as int, i + sub@.len()) =~= sub@);
            }
            return true;
        }
        proof {
            let k = choose|k: int| 0 <= k < j && s@[i + k] != sub@[k];
            assert(s@.subrange(i as int, i + sub@.len())[k] == s@[i + k]);
        }
        i += 1;
    }
    false
}

/// One step of splitting: `cur` is the piece accumulated so far; pieces
/// between occurrences of `sep` are kept in order, empty pieces dropped.
pub open spec fn split_rec(s: Seq<char>, sep: char, cur: Seq<char>) -> Seq<Seq<char>>
    decreases s.len(),
{
    if s.len() == 0 {
        if cur.len() > 0 {
            seq![cur]
        } else {
            Seq::empty()
        }
    } else if s[0] == sep {
        (if cur.len() > 0 {
            seq![cur]
        } else {
            Seq::empty()
        }) + split_rec(s.skip(1), sep, Seq::empty())
    } else {
        split_rec(s.skip(1), sep, cur.push(s[0]))
    }
}

/// The non-empty pieces of `s` between occurrences of `sep`, in order.
pub open spec fn split_non_empty_spec(s: Seq<char>, sep: char) -> Seq<Seq<char>> {
    split_rec(s, sep, Seq::empty())
}

/// Splits `s` at every occurrence of `sep`, dropping empty pieces.
pub fn split_non_empty(s: &str, sep: char) -> (r: Vec<String>)
    ensures
        r.deep_view() == split_non_empty_spec(s@, sep),
{
    let n = s.unicode_len();
    let mut r: Vec<String> = Vec::new();
    let mut start: usize = 0;
    let mut i: usize = 0;
    proof {
        assert(s@.skip(0) =~= s@);
        assert(s@.subrange(0, 0) =~= Seq::<char>::empty());
        assert(r.deep_view() =~= Seq::<Seq<char>>::empty());
    }
    while i < n
        invariant
            start <= i <= n,
            n == s@.len(),
            r.deep_view() + split_rec(s@.skip(i as int), sep, s@.subrange(start as int, i as int))
                == split_non_empty_spec(s@, sep),
        decreases n - i,
    {
        let ghost rem = s@.skip(i as int);
        let ghost cur = s@.subrange(start as int, i as int);
        proof {
            assert(rem.len() == n - i);
            assert(rem[0] == s@[i as int]);
            assert(rem.skip(1) =~= s@.skip(i + 1));
        }
        let c = s.get_char(i);
        if c == sep {
            proof {
                assert(split_rec(rem, sep, cur) == (if cur.len() > 0 {
                    seq![cur]
                } else {
                    Seq::<Seq<char>>::empty()
                }) + split_rec(s@.skip(i + 1), sep, Seq::empty()));
                assert(s@.subrange(i + 1, i + 1) =~= Seq::<char>::empty());
            }
            if i > start {
                let ghost old_dv = r.deep_view();
                let piece = s.substring_char(start, i).to_owned();
                r.push(piece);
                proof {
                    assert(r.deep_view() =~= old_dv.push(cur));
                    assert(old_dv.push(cur) =~= old_dv + seq![cur]);
                    assert(r.deep_view() + split_rec(s@.skip(i + 1), sep, s@.subrange(i + 1, i + 1))
                        == split_non_empty_spec(s@, sep));
                }
            } else {
                proof {
                    assert(cur.len() == 0);
                    assert(r.deep_view() + Seq::<Seq<char>>::empty() =~= r.deep_view());
                    assert(r.deep_view() + split_rec(s@.skip(i + 1), sep, s@.subrange(i + 1, i + 1))
                        == split_non_empty_spec(s@, sep));
                }
            }
            start = i + 1;
        } else {
            proof {
                assert(split_rec(rem, sep, cur) == split_rec(s@.skip(i + 1), sep, cur.push(s@[i as int])));
                assert(cur.push(s@[i as int]) =~= s@.subrange(start as int, i + 1));
            }
        }
        i += 1;
    }
    proof {
        assert(s@.skip(n as int).len() == 0);
    }
    if n > start {
        let ghost old_dv = r.deep_view();
        let ghost cur = s@.subrange(start as int, n as int);
        let piece = s.substring_char(start, n).to_owned();
        r.push(piece);
        proof {
            assert(split_rec(s@.skip(n as int), sep, cur) =~= seq![cur]);
            assert(r.deep_view() =~= old_dv.push(cur));
            assert(old_dv.push(cur) =~= old_dv + seq![cur]);
        }
    } else {
        proof {
            let ghost cur = s@.subrange(start as int, n as int);
            assert(cur.len() == 0);
            assert(split_rec(s@.skip(n as int), sep, cur) =~= Seq::<Seq<char>>::empty());
            assert(r.deep_view() + Seq::<Seq<char>>::empty() =~= r.deep_view());
        }
    }
    r
}

/// The first `i` lines joined with `sep` between consecutive lines.
pub open spec fn joined_prefix(lines: Seq<Seq<char>>, sep: char, i: int) -> Seq<char>
    decreases i,
{
    if i <= 0 {
        Seq::empty()
    } else if i == 1 {
        lines[0]
    } else {
        joined_prefix(lines, sep, i - 1).push(sep) + lines[i - 1]
    }
}

/// All of `lines` joined with `sep` between consecutive lines.
pub open spec fn join_spec(lines: Seq<Seq<char>>, sep: char) -> Seq<char> {
    joined_prefix(lines, sep, lines.len() as int)
}

/// Joins the lines with a newline between consecutive ones.
pub fn join_lines(lines: &Vec<String>) -> (r: String)
    ensures
        r@ == join_spec(lines.deep_view(), '\n'),
{
    let mut out = String::new();
    let mut i: usize = 0;
    while i < lines.len()
        invariant
            i <= lines.len(),
            out@ == joined_prefix(lines.deep_view(), '\n', i as int),
        decreases lines.len() - i,
    {
        if i > 0 {
            let ghost before = out@;
            out.append("\n");
            proof {
                reveal_strlit("\n");
                assert(out@ =~= before.push('\n'));
            }
        }
        out.append(lines[i].as_str());
        i += 1;
    }
    out
}

} // verus!
