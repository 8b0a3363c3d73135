use vstd::prelude::*;
use vstd::string::{StrSliceExecFns, StringExecFns};

verus! {

/// Whether `s` holds a NUL character, which a null-terminated string cannot carry.
pub open spec fn has_nul(s: Seq<char>) -> bool {
    exists|i: int| 0 <= i < s.len() && s[i] == '\0'
}

/// `s` with every NUL character taken out, the other characters kept in order.
pub open spec fn without_nul(s: Seq<char>) -> Seq<char> {
    s.filter(|c: char| c != '\0')
}

/// Tells whether `s` holds a NUL character.
pub fn contains_nul(s: &str) -> (r: bool)
    ensures
        r == has_nul(s@),
{
    let n = s.unicode_len();
    let mut i: usize = 0;
    while i < n
        invariant
            n == s@.len(),
            i <= n,
            forall|j: int| 0 <= j < i ==> s@[j] != '\0',
        decreases n - i,
    {
        if s.get_char(i) == '\0' {
            return true;
        }
        i = i + 1;
    }
    false
}

/// A copy of `s` without its NUL characters.
pub fn strip_nul(s: &str) -> (r: String)
    ensures
        r@ == without_nul(s@),
        !has_nul(r@),
{
    let n = s.unicode_len();
    let mut out = String::new();
    let mut i: usize = 0;
    while i < n
        invariant
            n == s@.len(),
            i <= n,
            out@ == without_nul(s@.subrange(0, i as int)),
        decreases n - i,
    {
        let piece = s.substring_char(i, i + 1);
        let c = s.get_char(i);
        proof {
            reveal(Seq::filter);
            let t = s@.subrange(0, i + 1);
            assert(t.drop_last() =~= s@.subrange(0, i as int));
            assert(t.last() == c);
            assert(without_nul(t) == if c != '\0' {
                without_nul(t.drop_last()).push(c)
            } else {
                without_nul(t.drop_last())
            });
        }
        if c != '\0' {
            out.append(piece);
            assert(piece@ =~= seq![c]);
        }
        i = i + 1;
    }
    assert(s@.subrange(0, n as int) =~= s@);
    proof {
        lemma_without_nul_has_none(s@);
    }
    out
}

/// No NUL character is left once they are all taken out.
pub proof fn lemma_without_nul_has_none(s: Seq<char>)
    ensures
        !has_nul(without_nul(s)),
{
    let pred = |c: char| c != '\0';
    s.lemma_filter_len(pred);
    assert forall|i: int| 0 <= i < without_nul(s).len() implies without_nul(s)[i] != '\0' by {
        s.lemma_filter_pred(pred, i);
    }
}

/// Text without NUL characters is kept as it is.
pub proof fn lemma_without_nul_keeps(s: Seq<char>)
    requires
        !has_nul(s),
    ensures
        without_nul(s) == s,
    decreases s.len(),
{
    if s.len() > 0 {
        assert(!has_nul(s.drop_last())) by {
            if has_nul(s.drop_last()) {
                let i = choose|i: int| 0 <= i < s.drop_last().len() && s.drop_last()[i] == '\0';
                assert(s[i] == '\0');
            }
        }
        lemma_without_nul_keeps(s.drop_last());
        assert(s[s.len() - 1] != '\0');
        reveal(Seq::filter);
        assert(without_nul(s) == without_nul(s.drop_last()).push(s.last()));
        assert(s.drop_last().push(s.last()) =~= s);
    }
}

} // verus!
