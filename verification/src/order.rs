//! The order of strings (that of `String`'s `Ord`: lexicographic by
//! characters, as UTF-8 bytes compare in the order of the characters they
//! encode) and sorting by it.
use vstd::prelude::*;
use vstd::multiset::Multiset;

verus! {

broadcast use vstd::seq_lib::group_to_multiset_ensures;

/// `a` sorts before `b` or equals it.
pub open spec fn chars_le(a: Seq<char>, b: Seq<char>) -> bool
    decreases a.len(),
{
    if a.len() == 0 {
        true
    } else if b.len() == 0 {
        false
    } else if (a[0] as int) < (b[0] as int) {
        true
    } else if (a[0] as int) > (b[0] as int) {
        false
    } else {
        chars_le(a.drop_first(), b.drop_first())
    }
}

pub open spec fn sorted(s: Seq<Seq<char>>) -> bool {
    forall|i: int, j: int| 0 <= i < j < s.len() ==> chars_le(#[trigger] s[i], #[trigger] s[j])
}

pub proof fn lemma_chars_le_total(a: Seq<char>, b: Seq<char>)
    ensures
        chars_le(a, b) || chars_le(b, a),
    decreases a.len(),
{
    if a.len() > 0 && b.len() > 0 && a[0] as int == b[0] as int {
        lemma_chars_le_total(a.drop_first(), b.drop_first());
    }
}

pub proof fn lemma_chars_le_transitive(a: Seq<char>, b: Seq<char>, c: Seq<char>)
    requires
        chars_le(a, b),
        chars_le(b, c),
    ensures
        chars_le(a, c),
    decreases a.len(),
{
    if a.len() > 0 && b.len() > 0 && c.len() > 0 && a[0] as int == b[0] as int && b[0] as int == c[0] as int {
        lemma_chars_le_transitive(a.drop_first(), b.drop_first(), c.drop_first());
    }
}

pub proof fn lemma_chars_le_antisymmetric(a: Seq<char>, b: Seq<char>)
    requires
        chars_le(a, b),
        chars_le(b, a),
    ensures
        a == b,
    decreases a.len(),
{
    if a.len() > 0 {
        assert(b.len() > 0);
        assert((a[0] as int) == (b[0] as int));
        assert(a[0] == b[0]);
        lemma_chars_le_antisymmetric(a.drop_first(), b.drop_first());
        assert(a =~= seq![a[0]] + a.drop_first());
        assert(b =~= seq![b[0]] + b.drop_first());
    } else {
        assert(b.len() == 0);
        assert(a =~= b);
    }
}

/// Whether `a` sorts before `b` or equals it.
pub fn str_le(a: &str, b: &str) -> (res: bool)
    ensures
        res == chars_le(a@, b@),
{
    let n = a.unicode_len();
    let m = b.unicode_len();
    let mut i: usize = 0;
    assert(a@.skip(0) == a@ && b@.skip(0) == b@);
    while i < n && i < m
        invariant
            n == a@.len(),
            m == b@.len(),
            i <= n,
            i <= m,
            chars_le(a@, b@) == chars_le(a@.skip(i as int), b@.skip(i as int)),
        decreases n - i,
    {
        let ca = a.get_char(i) as u32;
        let cb = b.get_char(i) as u32;
        assert(a@.skip(i as int)[0] == a@[i as int]);
        assert(b@.skip(i as int)[0] == b@[i as int]);
        if ca < cb {
            return true;
        }
        if ca > cb {
            return false;
        }
        assert(a@.skip(i as int).drop_first() == a@.skip(i + 1));
        assert(b@.skip(i as int).drop_first() == b@.skip(i + 1));
        i = i + 1;
    }
    i == n
}

pub open spec fn views(v: Seq<String>) -> Seq<Seq<char>> {
    v.map_values(|s: String| s@)
}

/// Sorts strings into ascending order.
pub fn sort_strings(v: Vec<String>) -> (res: Vec<String>)
    ensures
        sorted(views(res@)),
        views(res@).to_multiset() == views(v@).to_multiset(),
{
    let mut rest = v;
    let mut out: Vec<String> = Vec::new();
    let ghost given = views(rest@);
    while rest.len() > 0
        invariant
            sorted(views(out@)),
            views(out@).to_multiset().add(views(rest@).to_multiset()) == given.to_multiset(),
        decreases rest@.len(),
    {
        let ghost before_rest = views(rest@);
        let x = rest.pop().unwrap();
        assert(before_rest == views(rest@).push(x@));
        let mut k: usize = 0;
        while k < out.len() && str_le(out[k].as_str(), x.as_str())
            invariant
                k <= out@.len(),
                sorted(views(out@)),
                forall|j: int| 0 <= j < k ==> chars_le(#[trigger] views(out@)[j], x@),
            decreases out@.len() - k,
        {
            k = k + 1;
        }
        let ghost before_out = views(out@);
        proof {
            assert forall|j: int| k <= j < before_out.len() implies chars_le(x@, #[trigger] before_out[j]) by {
                assert(!chars_le(before_out[k as int], x@));
                lemma_chars_le_total(before_out[k as int], x@);
                if j > k {
                    lemma_chars_le_transitive(x@, before_out[k as int], before_out[j]);
                }
            }
        }
        out.insert(k, x);
        assert(views(out@) =~= before_out.insert(k as int, x@));
        assert(sorted(views(out@))) by {
            let s = views(out@);
            assert forall|i: int, j: int| 0 <= i < j < s.len() implies chars_le(#[trigger] s[i], #[trigger] s[j]) by {
                if i < k && j > k {
                    lemma_chars_le_transitive(s[i], x@, s[j]);
                }
            }
        }
    }
    assert(views(rest@) =~= Seq::<Seq<char>>::empty());
    assert(views(rest@).to_multiset() =~= Multiset::<Seq<char>>::empty());
    assert(views(out@).to_multiset().add(Multiset::<Seq<char>>::empty()) =~= views(out@).to_multiset());
    out
}

} // verus!
