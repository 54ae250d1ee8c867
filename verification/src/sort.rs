//! Ordering records by name, as `String` orders names.

use vstd::multiset::Multiset;
use vstd::prelude::*;

verus! {

/// `a` sorts before or with `b`: lexicographic order by code point, the order
/// of `String`.
pub open spec fn spec_str_le(a: Seq<char>, b: Seq<char>) -> bool
    decreases a.len(),
{
    if a.len() == 0 {
        true
    } else if b.len() == 0 {
        false
    } else if (a[0] as u32) < (b[0] as u32) {
        true
    } else if (a[0] as u32) > (b[0] as u32) {
        false
    } else {
        spec_str_le(a.drop_first(), b.drop_first())
    }
}

proof fn lemma_str_le_refl(a: Seq<char>)
    ensures
        spec_str_le(a, a),
    decreases a.len(),
{
    if a.len() > 0 {
        lemma_str_le_refl(a.drop_first());
    }
}

proof fn lemma_str_le_total(a: Seq<char>, b: Seq<char>)
    ensures
        spec_str_le(a, b) || spec_str_le(b, a),
    decreases a.len(),
{
    if a.len() > 0 && b.len() > 0 && a[0] as u32 == b[0] as u32 {
        lemma_str_le_total(a.drop_first(), b.drop_first());
    }
}

proof fn lemma_str_le_trans(a: Seq<char>, b: Seq<char>, c: Seq<char>)
    requires
        spec_str_le(a, b),
        spec_str_le(b, c),
    ensures
        spec_str_le(a, c),
    decreases a.len(),
{
    if a.len() > 0 && b.len() > 0 && c.len() > 0 && a[0] as u32 == b[0] as u32 && b[0] as u32
        == c[0] as u32 {
        lemma_str_le_trans(a.drop_first(), b.drop_first(), c.drop_first());
    }
}

/// `spec_str_le(a, b)`.
pub fn str_le(a: &str, b: &str) -> (r: bool)
    ensures
        r == spec_str_le(a@, b@),
{
    let la = a.unicode_len();
    let lb = b.unicode_len();
    let mut i: usize = 0;
    proof {
        assert(a@.subrange(0, la as int) =~= a@);
        assert(b@.subrange(0, lb as int) =~= b@);
    }
    while i < la && i < lb
        invariant
            i <= la,
            i <= lb,
            la == a@.len(),
            lb == b@.len(),
            spec_str_le(a@, b@) == spec_str_le(a@.subrange(i as int, la as int), b@.subrange(i as int, lb as int)),
        decreases la - i,
    {
        let ca = a.get_char(i) as u32;
        let cb = b.get_char(i) as u32;
        if ca < cb {
            return true;
        }
        if ca > cb {
            return false;
        }
        proof {
            assert(a@.subrange(i as int, la as int).drop_first() =~= a@.subrange(i + 1, la as int));
            assert(b@.subrange(i as int, lb as int).drop_first() =~= b@.subrange(i + 1, lb as int));
        }
        i = i + 1;
    }
    i == la
}

/// A record ordered by a name.
pub trait NamedRecord: Sized {
    spec fn name_view(&self) -> Seq<char>;

    fn record_name(&self) -> (n: &str)
        ensures
            n@ == self.name_view(),
    ;
}

/// `perm` places the records: `sorted[i]` is `records[perm[i]]`, and no index
/// of `records` is used twice.
pub open spec fn spec_placement<T>(records: Seq<T>, sorted: Seq<T>, perm: Seq<int>) -> bool {
    &&& perm.len() == sorted.len()
    &&& sorted.len() == records.len()
    &&& forall|i: int|
        0 <= i < perm.len() ==> 0 <= #[trigger] perm[i] < records.len() && sorted[i] == records[perm[i]]
    &&& forall|i: int, j: int| 0 <= i < j < perm.len() ==> #[trigger] perm[i] != #[trigger] perm[j]
}

/// `perm` places the records and keeps records of one name in the order
/// they came in.
pub open spec fn spec_stable_placement<T: NamedRecord>(records: Seq<T>, sorted: Seq<T>, perm: Seq<int>) -> bool {
    &&& spec_placement(records, sorted, perm)
    &&& forall|i: int, j: int|
        0 <= i < j < sorted.len() && (#[trigger] sorted[i]).name_view() == (#[trigger] sorted[j]).name_view()
            ==> perm[i] < perm[j]
}

/// The records ordered by name, as `String` orders names; records of one name
/// keep the order they came in.
pub fn sort_by_name<T: NamedRecord>(records: Vec<T>) -> (sorted: Vec<T>)
    ensures
        sorted@.to_multiset() == records@.to_multiset(),
        forall|i: int, j: int|
            0 <= i < j < sorted@.len() ==> spec_str_le(
                (#[trigger] sorted@[i]).name_view(),
                (#[trigger] sorted@[j]).name_view(),
            ),
        exists|perm: Seq<int>| #[trigger] spec_stable_placement(records@, sorted@, perm),
{
    broadcast use vstd::seq_lib::group_to_multiset_ensures;
    broadcast use vstd::multiset::group_multiset_axioms;

    let ghost orig = records@;
    let ghost n = orig.len();
    let mut src = records;
    let mut out: Vec<T> = Vec::new();
    let ghost mut idx_src: Seq<int> = Seq::new(n, |i: int| i);
    let ghost mut idx_out: Seq<int> = Seq::empty();
    proof {
        assert(out@.to_multiset() =~= Multiset::<T>::empty());
        assert(out@.to_multiset().add(src@.to_multiset()) =~= orig.to_multiset());
    }
    while src.len() > 0
        invariant
            out@.to_multiset().add(src@.to_multiset()) == orig.to_multiset(),
            n == orig.len(),
            forall|i: int, j: int|
                0 <= i < j < out@.len() ==> spec_str_le(
                    (#[trigger] out@[i]).name_view(),
                    (#[trigger] out@[j]).name_view(),
                ),
            forall|i: int, k: int|
                0 <= i < out@.len() && 0 <= k < src@.len() ==> spec_str_le(
                    (#[trigger] out@[i]).name_view(),
                    (#[trigger] src@[k]).name_view(),
                ),
            idx_src.len() == src@.len(),
            idx_out.len() == out@.len(),
            out@.len() + src@.len() == n,
            forall|k: int|
                0 <= k < src@.len() ==> 0 <= #[trigger] idx_src[k] < n && src@[k] == orig[idx_src[k]],
            forall|i: int|
                0 <= i < out@.len() ==> 0 <= #[trigger] idx_out[i] < n && out@[i] == orig[idx_out[i]],
            forall|a: int, b: int| 0 <= a < b < src@.len() ==> #[trigger] idx_src[a] < #[trigger] idx_src[b],
            forall|a: int, b: int| 0 <= a < b < out@.len() ==> #[trigger] idx_out[a] != #[trigger] idx_out[b],
            forall|i: int, k: int|
                0 <= i < out@.len() && 0 <= k < src@.len() ==> #[trigger] idx_out[i] != #[trigger] idx_src[k],
            forall|a: int, b: int|
                0 <= a < b < out@.len() && (#[trigger] out@[a]).name_view() == (#[trigger] out@[b]).name_view()
                    ==> idx_out[a] < idx_out[b],
            forall|i: int, k: int|
                0 <= i < out@.len() && 0 <= k < src@.len() && (#[trigger] out@[i]).name_view() == (
                #[trigger] src@[k]).name_view() ==> idx_out[i] < idx_src[k],
        decreases src@.len(),
    {
        let mut m: usize = 0;
        let mut k: usize = 1;
        proof {
            lemma_str_le_refl(src@[0].name_view());
        }
        while k < src.len()
            invariant
                0 <= m < k <= src@.len(),
                forall|q: int| 0 <= q < k ==> spec_str_le(src@[m as int].name_view(), (#[trigger] src@[q]).name_view()),
                forall|q: int| 0 <= q < m ==> !spec_str_le((#[trigger] src@[q]).name_view(), src@[m as int].name_view()),
            decreases src@.len() - k,
        {
            if !str_le(src[m].record_name(), src[k].record_name()) {
                proof {
                    lemma_str_le_total(src@[m as int].name_view(), src@[k as int].name_view());
                    lemma_str_le_refl(src@[k as int].name_view());
                    assert forall|q: int| 0 <= q < k + 1 implies spec_str_le(
                        src@[k as int].name_view(),
                        (#[trigger] src@[q]).name_view(),
                    ) by {
                        if q < k {
                            lemma_str_le_trans(src@[k as int].name_view(), src@[m as int].name_view(), src@[q].name_view());
                        }
                    }
                    assert forall|q: int| 0 <= q < k implies !spec_str_le(
                        (#[trigger] src@[q]).name_view(),
                        src@[k as int].name_view(),
                    ) by {
                        if spec_str_le(src@[q].name_view(), src@[k as int].name_view()) {
                            lemma_str_le_trans(src@[m as int].name_view(), src@[q].name_view(), src@[k as int].name_view());
                        }
                    }
                }
                m = k;
            }
            k = k + 1;
        }
        let ghost before_src = src@;
        let ghost before_out = out@;
        let ghost before_is = idx_src;
        let ghost before_io = idx_out;
        let x = src.remove(m);
        proof {
            assert(src@ == before_src.remove(m as int));
            vstd::seq_lib::to_multiset_remove(before_src, m as int);
        }
        out.push(x);
        proof {
            idx_out = before_io.push(before_is[m as int]);
            idx_src = before_is.remove(m as int);
            assert(out@ == before_out.push(x));
            assert(before_src.contains(x)) by {
                assert(before_src[m as int] == x);
            }
            vstd::seq_lib::to_multiset_contains(before_src, x);
            vstd::seq_lib::to_multiset_build(before_out, x);
            assert(out@.to_multiset().add(src@.to_multiset()) =~= orig.to_multiset());
            assert forall|i: int, j: int|
                0 <= i < j < out@.len() implies spec_str_le(
                (#[trigger] out@[i]).name_view(),
                (#[trigger] out@[j]).name_view(),
            ) by {
                if j == out@.len() - 1 {
                    assert(before_src[m as int] == x);
                }
            }
            assert forall|i: int, q: int|
                0 <= i < out@.len() && 0 <= q < src@.len() implies spec_str_le(
                (#[trigger] out@[i]).name_view(),
                (#[trigger] src@[q]).name_view(),
            ) by {
                let orig_q = if q < m {
                    q
                } else {
                    q + 1
                };
                assert(src@[q] == before_src[orig_q]);
                if i == out@.len() - 1 {
                } else {
                    assert(out@[i] == before_out[i]);
                }
            }
            assert forall|k2: int|
                0 <= k2 < src@.len() implies 0 <= #[trigger] idx_src[k2] < n && src@[k2] == orig[idx_src[k2]] by {
                let o = if k2 < m { k2 } else { k2 + 1 };
                assert(idx_src[k2] == before_is[o]);
                assert(src@[k2] == before_src[o]);
            }
            assert forall|i: int|
                0 <= i < out@.len() implies 0 <= #[trigger] idx_out[i] < n && out@[i] == orig[idx_out[i]] by {
                if i < out@.len() - 1 {
                    assert(idx_out[i] == before_io[i]);
                    assert(out@[i] == before_out[i]);
                } else {
                    assert(before_src[m as int] == x);
                }
            }
            assert forall|a: int, b: int| 0 <= a < b < src@.len() implies #[trigger] idx_src[a] < #[trigger] idx_src[b] by {
                let oa = if a < m { a } else { a + 1 };
                let ob = if b < m { b } else { b + 1 };
                assert(idx_src[a] == before_is[oa]);
                assert(idx_src[b] == before_is[ob]);
            }
            assert forall|a: int, b: int| 0 <= a < b < out@.len() implies #[trigger] idx_out[a] != #[trigger] idx_out[b] by {
                assert(idx_out[a] == before_io[a]);
                if b < out@.len() - 1 {
                    assert(idx_out[b] == before_io[b]);
                } else {
                    assert(idx_out[b] == before_is[m as int]);
                }
            }
            assert forall|i: int, k2: int|
                0 <= i < out@.len() && 0 <= k2 < src@.len() implies #[trigger] idx_out[i] != #[trigger] idx_src[k2] by {
                let o = if k2 < m { k2 } else { k2 + 1 };
                assert(idx_src[k2] == before_is[o]);
                if i < out@.len() - 1 {
                    assert(idx_out[i] == before_io[i]);
                } else {
                    assert(idx_out[i] == before_is[m as int]);
                }
            }
            assert forall|a: int, b: int|
                0 <= a < b < out@.len() && (#[trigger] out@[a]).name_view() == (#[trigger] out@[b]).name_view()
                    implies idx_out[a] < idx_out[b] by {
                assert(idx_out[a] == before_io[a]);
                assert(out@[a] == before_out[a]);
                if b < out@.len() - 1 {
                    assert(idx_out[b] == before_io[b]);
                    assert(out@[b] == before_out[b]);
                } else {
                    assert(idx_out[b] == before_is[m as int]);
                    assert(out@[b] == before_src[m as int]);
                }
            }
            assert forall|i: int, k2: int|
                0 <= i < out@.len() && 0 <= k2 < src@.len() && (#[trigger] out@[i]).name_view() == (
                #[trigger] src@[k2]).name_view() implies idx_out[i] < idx_src[k2] by {
                let o = if k2 < m { k2 } else { k2 + 1 };
                assert(idx_src[k2] == before_is[o]);
                assert(src@[k2] == before_src[o]);
                if i < out@.len() - 1 {
                    assert(idx_out[i] == before_io[i]);
                    assert(out@[i] == before_out[i]);
                } else {
                    assert(idx_out[i] == before_is[m as int]);
                    assert(out@[i] == before_src[m as int]);
                    if k2 < m {
                        lemma_str_le_refl(before_src[o].name_view());
                        assert(!spec_str_le(before_src[o].name_view(), before_src[m as int].name_view()));
                    }
                }
            }
        }
    }
    proof {
        assert(src@.to_multiset() =~= Multiset::<T>::empty());
        assert(out@.to_multiset() =~= orig.to_multiset());
        assert(spec_stable_placement(orig, out@, idx_out));
    }
    out
}

} // verus!
