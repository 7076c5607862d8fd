//! Splitting a text block into physical lines: content between line breaks,
//! where a break is `\n` or `\r\n`, and a final break is optional.

use vstd::prelude::*;
use vstd::string::*;

verus! {

/// Index of the first `'\n'` in `s`, or `s.len()` if there is none.
pub open spec fn find_nl(s: Seq<char>) -> int
    decreases s.len(),
{
    if s.len() == 0 {
        0
    } else if s[0] == '\n' {
        0
    } else {
        1 + find_nl(s.drop_first())
    }
}

pub proof fn lemma_find_nl(s: Seq<char>)
    ensures
        0 <= find_nl(s) <= s.len(),
        find_nl(s) < s.len() ==> s[find_nl(s)] == '\n',
        forall|k: int| 0 <= k < find_nl(s) ==> s[k] != '\n',
    decreases s.len(),
{
    if s.len() == 0 {
    } else if s[0] == '\n' {
    } else {
        lemma_find_nl(s.drop_first());
        assert forall|k: int| 0 <= k < find_nl(s) implies s[k] != '\n' by {
            if k > 0 {
                assert(s.drop_first()[k - 1] == s[k]);
            }
        }
    }
}

/// A line terminated by `'\n'` loses one trailing `'\r'`, if any.
pub open spec fn strip_cr(p: Seq<char>) -> Seq<char> {
    if p.len() > 0 && p.last() == '\r' {
        p.drop_last()
    } else {
        p
    }
}

/// The physical lines of `s`: the pieces between `'\n'` breaks, each
/// terminated piece stripped of one trailing `'\r'`; a final piece without a
/// terminator is kept as it stands, and a trailing break opens no empty line.
pub open spec fn lines_of(s: Seq<char>) -> Seq<Seq<char>>
    decreases s.len(),
    via lines_of_decreases
{
    if s.len() == 0 {
        Seq::empty()
    } else if find_nl(s) == s.len() {
        seq![s]
    } else {
        seq![strip_cr(s.take(find_nl(s)))] + lines_of(s.skip(find_nl(s) + 1))
    }
}

#[via_fn]
proof fn lines_of_decreases(s: Seq<char>) {
    lemma_find_nl(s);
}

pub proof fn lemma_lines_nonempty(s: Seq<char>)
    requires
        s.len() > 0,
    ensures
        lines_of(s).len() > 0,
{
    lemma_find_nl(s);
}

/// Dropping everything up to and past the first break keeps the last line.
pub proof fn lemma_lines_tail(s: Seq<char>)
    requires
        s.len() > 0,
        find_nl(s) < s.len(),
        s.skip(find_nl(s) + 1).len() > 0,
    ensures
        lines_of(s).last() == lines_of(s.skip(find_nl(s) + 1)).last(),
{
    lemma_find_nl(s);
    lemma_lines_nonempty(s.skip(find_nl(s) + 1));
    let head = seq![strip_cr(s.take(find_nl(s)))];
    let rest = lines_of(s.skip(find_nl(s) + 1));
    assert((head + rest).last() == rest.last());
}

/// Index of the first `'\n'` in `s`, or its length if there is none.
fn find_nl_exec(s: &str) -> (i: usize)
    ensures
        i == find_nl(s@),
{
    proof {
        lemma_find_nl(s@);
    }
    let n = s.unicode_len();
    let mut i: usize = 0;
    while i < n
        invariant
            i <= n,
            n == s@.len(),
            forall|k: int| 0 <= k < i ==> s@[k] != '\n',
        decreases n - i,
    {
        proof {
            lemma_find_nl(s@);
        }
        if s.get_char(i) == '\n' {
            return i;
        }
        i = i + 1;
    }
    n
}

/// A copy of `p` without its trailing `'\r'`, if it has one.
fn strip_cr_exec(p: &str) -> (r: String)
    ensures
        r@ == strip_cr(p@),
{
    let n = p.unicode_len();
    if n > 0 && p.get_char(n - 1) == '\r' {
        String::from_str(p.substring_char(0, n - 1))
    } else {
        String::from_str(p)
    }
}

/// The first physical line of `s`.
pub fn first_line(s: &str) -> (r: String)
    requires
        s@.len() > 0,
    ensures
        r@ == lines_of(s@).first(),
{
    proof {
        lemma_find_nl(s@);
    }
    let n = s.unicode_len();
    let i = find_nl_exec(s);
    if i == n {
        String::from_str(s)
    } else {
        strip_cr_exec(s.substring_char(0, i))
    }
}

/// The last physical line of `s`.
pub fn last_line(s: &str) -> (r: String)
    requires
        s@.len() > 0,
    ensures
        r@ == lines_of(s@).last(),
{
    let mut cur: &str = s;
    loop
        invariant
            cur@.len() > 0,
            lines_of(cur@).last() == lines_of(s@).last(),
        decreases cur@.len(),
    {
        proof {
            lemma_find_nl(cur@);
        }
        let n = cur.unicode_len();
        let i = find_nl_exec(cur);
        if i == n {
            return String::from_str(cur);
        }
        let rest = cur.substring_char(i + 1, n);
        if rest.unicode_len() == 0 {
            proof {
                let head = seq![strip_cr(cur@.take(i as int))];
                assert(lines_of(cur@) == head + lines_of(cur@.skip(i + 1)));
                assert(lines_of(cur@.skip(i + 1)) == Seq::<Seq<char>>::empty());
                assert(lines_of(cur@).last() == strip_cr(cur@.take(i as int)));
            }
            return strip_cr_exec(cur.substring_char(0, i));
        }
        proof {
            lemma_lines_tail(cur@);
        }
        cur = rest;
    }
}

} // verus!
