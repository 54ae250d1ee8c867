//! Host-side Thrust-shaped algorithms (CPU), with Thrust's names and semantics
//! for host execution policies.
//!
//! Where an algorithm compares elements, its contract holds for element types
//! whose `==` or ordering follows their specification (every integer type does).

use vstd::prelude::*;
use vstd::std_specs::cmp::{OrdSpec, PartialEqSpec};

verus! {

/// thrust::fill: every element becomes `value`.
pub fn hermes_fill<T: Copy>(slice: &mut [T], value: T)
    ensures
        final(slice)@ == Seq::new(old(slice)@.len(), |i: int| value),
{
    let n = slice.len();
    let mut i: usize = 0;
    while i < n
        invariant
            i <= n,
            n == slice@.len(),
            n == old(slice)@.len(),
            forall|k: int| 0 <= k < i ==> slice@[k] == value,
        decreases n - i,
    {
        slice[i] = value;
        i = i + 1;
    }
    assert(slice@ =~= Seq::new(old(slice)@.len(), |i: int| value));
}

/// thrust::copy: copies the common prefix and returns its length.
pub fn hermes_copy<T: Copy>(src: &[T], dst: &mut [T]) -> (n: usize)
    ensures
        n == if src@.len() < old(dst)@.len() {
            src@.len()
        } else {
            old(dst)@.len()
        },
        final(dst)@ == src@.subrange(0, n as int) + old(dst)@.subrange(n as int, old(dst)@.len() as int),
{
    let n = if src.len() < dst.len() {
        src.len()
    } else {
        dst.len()
    };
    let mut i: usize = 0;
    while i < n
        invariant
            i <= n,
            n <= src@.len(),
            n <= dst@.len(),
            dst@.len() == old(dst)@.len(),
            forall|k: int| 0 <= k < i ==> dst@[k] == src@[k],
            forall|k: int| i <= k < dst@.len() ==> dst@[k] == old(dst)@[k],
        decreases n - i,
    {
        dst[i] = src[i];
        i = i + 1;
    }
    assert(dst@ =~= src@.subrange(0, n as int) + old(dst)@.subrange(n as int, old(dst)@.len() as int));
    n
}

/// Number of elements among the first `n` that equal `value`.
pub open spec fn spec_count_eq<T: PartialEq>(s: Seq<T>, value: T, n: int) -> nat
    decreases n,
{
    if n <= 0 {
        0
    } else {
        spec_count_eq(s, value, n - 1) + if s[n - 1].eq_spec(&value) {
            1nat
        } else {
            0nat
        }
    }
}

/// thrust::count: how many elements equal `value`.
pub fn hermes_count<T: PartialEq>(slice: &[T], value: &T) -> (n: usize)
    ensures
        T::obeys_eq_spec() ==> n == spec_count_eq(slice@, *value, slice@.len() as int),
{
    let mut count: usize = 0;
    let mut i: usize = 0;
    while i < slice.len()
        invariant
            i <= slice@.len(),
            count <= i,
            T::obeys_eq_spec() ==> count == spec_count_eq(slice@, *value, i as int),
        decreases slice@.len() - i,
    {
        if slice[i] == *value {
            count = count + 1;
        }
        i = i + 1;
    }
    count
}

/// One call of `f` was made on a reference to an element that held `before`.
pub open spec fn spec_called_on<T, F: FnMut(&mut T)>(f: F, before: T) -> bool {
    exists|r: &mut T| *r == before && call_ensures(f, (r,), ())
}

/// thrust::for_each: applies `f` to every element in place, in order.
pub fn hermes_for_each<T, F: FnMut(&mut T)>(slice: &mut [T], mut f: F)
    requires
        forall|x: &mut T, k: int|
            #![trigger call_requires(f, (x,)), old(slice)@[k]]
            0 <= k < old(slice)@.len() && *x == old(slice)@[k] ==> call_requires(f, (x,)),
    ensures
        final(slice)@.len() == old(slice)@.len(),
        forall|k: int| 0 <= k < old(slice)@.len() ==> #[trigger] spec_called_on(f, old(slice)@[k]),
{
    let n = slice.len();
    let mut i: usize = 0;
    let ghost f0 = f;
    while i < n
        invariant
            i <= n,
            n == slice@.len(),
            n == old(slice)@.len(),
            f == f0,
            forall|x: &mut T, k: int|
                #![trigger call_requires(f, (x,)), old(slice)@[k]]
                0 <= k < n && *x == old(slice)@[k] ==> call_requires(f, (x,)),
            forall|k: int| 0 <= k < i ==> #[trigger] spec_called_on(f, old(slice)@[k]),
            forall|k: int| i <= k < n ==> #[trigger] slice@[k] == old(slice)@[k],
        decreases n - i,
    {
        let ghost prev = slice@;
        let x = &mut slice[i];
        assert(*x == old(slice)@[i as int]);
        f(x);
        assert(spec_called_on(f, old(slice)@[i as int]));
        assert(forall|k: int| 0 <= k < n && k != i ==> slice@[k] == prev[k]);
        i = i + 1;
    }
}

/// thrust::transform (unary): `dst[i] = f(src[i])` over the common prefix;
/// returns its length.
pub fn hermes_transform<T, U, F: Fn(&T) -> U>(src: &[T], dst: &mut [U], f: F) -> (n: usize)
    requires
        forall|i: int|
            0 <= i < src@.len() && i < old(dst)@.len() ==> call_requires(f, (#[trigger] &src@[i],)),
    ensures
        n == if src@.len() < old(dst)@.len() {
            src@.len()
        } else {
            old(dst)@.len()
        },
        final(dst)@.len() == old(dst)@.len(),
        forall|i: int| 0 <= i < n ==> call_ensures(f, (&src@[i],), #[trigger] final(dst)@[i]),
        forall|i: int| n <= i < old(dst)@.len() ==> #[trigger] final(dst)@[i] == old(dst)@[i],
{
    let n = if src.len() < dst.len() {
        src.len()
    } else {
        dst.len()
    };
    let mut i: usize = 0;
    while i < n
        invariant
            i <= n,
            n <= src@.len(),
            n <= dst@.len(),
            dst@.len() == old(dst)@.len(),
            n == src@.len() || n == old(dst)@.len(),
            forall|k: int|
                0 <= k < src@.len() && k < old(dst)@.len() ==> call_requires(f, (#[trigger] &src@[k],)),
            forall|k: int| 0 <= k < i ==> call_ensures(f, (&src@[k],), #[trigger] dst@[k]),
            forall|k: int| i <= k < dst@.len() ==> #[trigger] dst@[k] == old(dst)@[k],
        decreases n - i,
    {
        let v = f(&src[i]);
        dst[i] = v;
        i = i + 1;
    }
    n
}

/// `accs` is a run of the left fold of `f` over `s` from `init`: `accs[0]` is
/// `init` and each next accumulator is a result of `f` on the previous one and
/// the next element.
pub open spec fn spec_fold_run<T, F: Fn(T, T) -> T>(f: F, s: Seq<T>, init: T, accs: Seq<T>) -> bool {
    &&& accs.len() == s.len() + 1
    &&& accs[0] == init
    &&& forall|k: int| 0 <= k < s.len() ==> call_ensures(f, (accs[k], s[k]), #[trigger] accs[k + 1])
}

/// `accs` is a run of the fold of `f` over the first `k` elements of `s` from
/// `init`, so `accs[k]` is an accumulator that the fold reaches before
/// element `k`.
pub open spec fn spec_fold_prefix<T, F: Fn(T, T) -> T>(f: F, s: Seq<T>, init: T, accs: Seq<T>, k: int) -> bool {
    &&& 0 <= k < s.len()
    &&& accs.len() == k + 1
    &&& accs[0] == init
    &&& forall|j: int| 0 <= j < k ==> call_ensures(f, (accs[j], s[j]), #[trigger] accs[j + 1])
}

/// thrust::reduce: the left fold of `f` over the slice, from `init`.
pub fn hermes_reduce<T: Copy, F: Fn(T, T) -> T>(slice: &[T], init: T, f: F) -> (r: T)
    requires
        forall|accs: Seq<T>, k: int|
            #[trigger] spec_fold_prefix(f, slice@, init, accs, k) ==> call_requires(f, (accs[k], slice@[k])),
    ensures
        exists|accs: Seq<T>| #[trigger] spec_fold_run(f, slice@, init, accs) && accs.last() == r,
{
    let mut acc = init;
    let ghost mut accs: Seq<T> = seq![init];
    let mut i: usize = 0;
    while i < slice.len()
        invariant
            i <= slice@.len(),
            forall|accs: Seq<T>, k: int|
                #[trigger] spec_fold_prefix(f, slice@, init, accs, k) ==> call_requires(f, (accs[k], slice@[k])),
            accs.len() == i + 1,
            accs[0] == init,
            accs[i as int] == acc,
            forall|k: int| 0 <= k < i ==> call_ensures(f, (accs[k], slice@[k]), #[trigger] accs[k + 1]),
        decreases slice@.len() - i,
    {
        assert(spec_fold_prefix(f, slice@, init, accs, i as int));
        acc = f(acc, slice[i]);
        proof {
            accs = accs.push(acc);
        }
        i = i + 1;
    }
    assert(spec_fold_run(f, slice@, init, accs));
    acc
}

/// thrust::sequence: `init`, `init + 1`, ... (wrapping).
pub fn hermes_sequence(slice: &mut [i64], init: i64)
    ensures
        final(slice)@.len() == old(slice)@.len(),
        forall|i: int|
            0 <= i < old(slice)@.len() ==> #[trigger] final(slice)@[i] == (init + i) as i64,
{
    let n = slice.len();
    let mut v = init;
    let mut i: usize = 0;
    while i < n
        invariant
            i <= n,
            n == slice@.len(),
            n == old(slice)@.len(),
            v == (init + i) as i64,
            forall|k: int| 0 <= k < i ==> #[trigger] slice@[k] == (init + k) as i64,
        decreases n - i,
    {
        slice[i] = v;
        let next = v.wrapping_add(1);
        assert(next == (init + i + 1) as i64) by (bit_vector)
            requires
                v == (init + i) as i64,
                next == if v + 1 > i64::MAX {
                    (v + 1 - 0x1_0000_0000_0000_0000int) as i64
                } else {
                    (v + 1) as i64
                },
        ;
        v = next;
        i = i + 1;
    }
}

/// thrust::equal: same length and pairwise equal.
pub fn hermes_equal<T: PartialEq>(a: &[T], b: &[T]) -> (r: bool)
    ensures
        T::obeys_eq_spec() ==> r == (a@.len() == b@.len() && forall|i: int|
            0 <= i < a@.len() ==> (#[trigger] a@[i]).eq_spec(&b@[i])),
{
    if a.len() != b.len() {
        return false;
    }
    let mut i: usize = 0;
    while i < a.len()
        invariant
            i <= a@.len(),
            a@.len() == b@.len(),
            T::obeys_eq_spec() ==> forall|k: int| 0 <= k < i ==> (#[trigger] a@[k]).eq_spec(&b@[k]),
        decreases a@.len() - i,
    {
        if !(a[i] == b[i]) {
            return false;
        }
        i = i + 1;
    }
    true
}

/// thrust::find: index of the first element equal to `value`.
pub fn hermes_find<T: PartialEq>(slice: &[T], value: &T) -> (r: Option<usize>)
    ensures
        T::obeys_eq_spec() ==> match r {
            Some(i) => i < slice@.len() && slice@[i as int].eq_spec(value) && forall|k: int|
                0 <= k < i ==> !(#[trigger] slice@[k]).eq_spec(value),
            None => forall|k: int| 0 <= k < slice@.len() ==> !(#[trigger] slice@[k]).eq_spec(value),
        },
{
    let mut i: usize = 0;
    while i < slice.len()
        invariant
            i <= slice@.len(),
            T::obeys_eq_spec() ==> forall|k: int| 0 <= k < i ==> !(#[trigger] slice@[k]).eq_spec(value),
        decreases slice@.len() - i,
    {
        if slice[i] == *value {
            return Some(i);
        }
        i = i + 1;
    }
    None
}

/// thrust::replace: every element equal to `target` becomes `new`; returns how many.
pub fn hermes_replace<T: PartialEq + Copy>(slice: &mut [T], target: &T, new: T) -> (n: usize)
    ensures
        final(slice)@.len() == old(slice)@.len(),
        T::obeys_eq_spec() ==> n == spec_count_eq(old(slice)@, *target, old(slice)@.len() as int),
        T::obeys_eq_spec() ==> forall|i: int|
            0 <= i < old(slice)@.len() ==> #[trigger] final(slice)@[i] == if old(slice)@[i].eq_spec(target) {
                new
            } else {
                old(slice)@[i]
            },
{
    let len = slice.len();
    let mut count: usize = 0;
    let mut i: usize = 0;
    while i < len
        invariant
            i <= len,
            len == slice@.len(),
            len == old(slice)@.len(),
            count <= i,
            T::obeys_eq_spec() ==> count == spec_count_eq(old(slice)@, *target, i as int),
            T::obeys_eq_spec() ==> forall|k: int|
                0 <= k < i ==> #[trigger] slice@[k] == if old(slice)@[k].eq_spec(target) {
                    new
                } else {
                    old(slice)@[k]
                },
            forall|k: int| i <= k < len ==> #[trigger] slice@[k] == old(slice)@[k],
        decreases len - i,
    {
        if slice[i] == *target {
            slice[i] = new;
            count = count + 1;
        }
        i = i + 1;
    }
    count
}

/// std's unstable sort of a slice (`<[T]>::sort_unstable`).
/// Trusted: for an element type whose ordering is a total order obeying its
/// specification (the only case std does not allow to panic), the result is
/// a nondecreasing rearrangement of the input; nothing is claimed about the
/// order of equal elements.
#[verifier::external_body]
fn sort_unstable_by_std<T: Ord>(slice: &mut [T])
    requires
        vstd::laws_cmp::obeys_cmp::<T>(),
    ensures
        final(slice)@.to_multiset() == old(slice)@.to_multiset(),
        forall|i: int, j: int|
            #![trigger final(slice)@[i], final(slice)@[j]]
            0 <= i <= j < final(slice)@.len() ==> final(slice)@[i].cmp_spec(&final(slice)@[j])
                != core::cmp::Ordering::Greater,
{
    slice.sort_unstable();
}

/// thrust::sort (unstable), for element types whose ordering is a total order
/// obeying its specification (every integer type).
pub fn hermes_sort<T: Ord>(slice: &mut [T])
    requires
        vstd::laws_cmp::obeys_cmp::<T>(),
    ensures
        final(slice)@.to_multiset() == old(slice)@.to_multiset(),
        forall|i: int, j: int|
            #![trigger final(slice)@[i], final(slice)@[j]]
            0 <= i <= j < final(slice)@.len() ==> final(slice)@[i].cmp_spec(&final(slice)@[j])
                != core::cmp::Ordering::Greater,
{
    sort_unstable_by_std(slice);
}

/// The run-compacted sequence: each element kept unless it equals the last kept one.
pub open spec fn spec_unique<T: PartialEq>(s: Seq<T>) -> Seq<T>
    decreases s.len(),
{
    if s.len() <= 1 {
        s
    } else {
        let rest = spec_unique(s.drop_last());
        if s.last().eq_spec(&rest.last()) {
            rest
        } else {
            rest.push(s.last())
        }
    }
}

proof fn lemma_unique_nonempty<T: PartialEq>(s: Seq<T>)
    requires
        s.len() >= 1,
    ensures
        spec_unique(s).len() >= 1,
        spec_unique(s).len() <= s.len(),
        spec_unique(s)[0] == s[0],
    decreases s.len(),
{
    if s.len() > 1 {
        lemma_unique_nonempty(s.drop_last());
    }
}

/// thrust::unique: compacts runs of equal elements to the front and returns
/// the new length.
pub fn hermes_unique<T: PartialEq + Copy>(slice: &mut [T]) -> (w: usize)
    ensures
        final(slice)@.len() == old(slice)@.len(),
        T::obeys_eq_spec() ==> w == spec_unique(old(slice)@).len() && final(slice)@.subrange(0, w as int)
            == spec_unique(old(slice)@),
        forall|k: int| w <= k < old(slice)@.len() ==> #[trigger] final(slice)@[k] == old(slice)@[k],
{
    let n = slice.len();
    if n == 0 {
        proof {
            assert(old(slice)@.subrange(0, 0) =~= spec_unique(old(slice)@));
        }
        return 0;
    }
    let mut w: usize = 1;
    let mut r: usize = 1;
    while r < n
        invariant
            1 <= w <= r <= n,
            n == slice@.len(),
            n == old(slice)@.len(),
            forall|k: int| w <= k < n ==> #[trigger] slice@[k] == old(slice)@[k],
            T::obeys_eq_spec() ==> slice@.subrange(0, w as int) == spec_unique(
                old(slice)@.subrange(0, r as int),
            ),
        decreases n - r,
    {
        proof {
            if T::obeys_eq_spec() {
                lemma_unique_nonempty(old(slice)@.subrange(0, r as int));
                assert(old(slice)@.subrange(0, r + 1).drop_last() =~= old(slice)@.subrange(0, r as int));
            }
        }
        let cur = slice[r];
        if !(cur == slice[w - 1]) {
            let ghost before = slice@;
            slice[w] = cur;
            proof {
                if T::obeys_eq_spec() {
                    assert(slice@.subrange(0, w + 1) =~= before.subrange(0, w as int).push(cur));
                }
            }
            w = w + 1;
        }
        r = r + 1;
    }
    proof {
        assert(old(slice)@.subrange(0, n as int) =~= old(slice)@);
    }
    w
}

/// Whether `d` is the inclusive scan of `f` over the first `n` elements of `s`.
pub open spec fn spec_is_scan<T, F: Fn(T, T) -> T>(f: F, s: Seq<T>, d: Seq<T>, n: int) -> bool {
    &&& n <= s.len()
    &&& n <= d.len()
    &&& (n > 0 ==> d[0] == s[0])
    &&& forall|i: int| 1 <= i < n ==> call_ensures(f, (d[i - 1], s[i]), #[trigger] d[i])
}

/// thrust::inclusive_scan over the common prefix; returns its length.
pub fn hermes_scan_inclusive<T: Copy, F: Fn(T, T) -> T>(src: &[T], dst: &mut [T], f: F) -> (n: usize)
    requires
        forall|d: Seq<T>, i: int|
            1 <= i < old(dst)@.len() && #[trigger] spec_is_scan(f, src@, d, i) && i < src@.len()
                ==> call_requires(f, (d[i - 1], src@[i])),
    ensures
        n == if src@.len() < old(dst)@.len() {
            src@.len()
        } else {
            old(dst)@.len()
        },
        final(dst)@.len() == old(dst)@.len(),
        spec_is_scan(f, src@, final(dst)@, n as int),
        forall|i: int| n <= i < old(dst)@.len() ==> #[trigger] final(dst)@[i] == old(dst)@[i],
{
    let n = if src.len() < dst.len() {
        src.len()
    } else {
        dst.len()
    };
    if n == 0 {
        return 0;
    }
    dst[0] = src[0];
    let mut i: usize = 1;
    while i < n
        invariant
            1 <= i <= n,
            n <= src@.len(),
            n <= dst@.len(),
            dst@.len() == old(dst)@.len(),
            forall|d: Seq<T>, k: int|
                1 <= k < old(dst)@.len() && #[trigger] spec_is_scan(f, src@, d, k) && k < src@.len()
                    ==> call_requires(f, (d[k - 1], src@[k])),
            spec_is_scan(f, src@, dst@, i as int),
            forall|k: int| i <= k < dst@.len() ==> #[trigger] dst@[k] == old(dst)@[k],
        decreases n - i,
    {
        let v = f(dst[i - 1], src[i]);
        dst[i] = v;
        i = i + 1;
    }
    n
}

/// Comparison helper in the style of Thrust binary predicates.
pub fn hermes_cmp<T: Ord>(a: &T, b: &T) -> (o: core::cmp::Ordering)
    ensures
        T::obeys_cmp_spec() ==> o == a.cmp_spec(b),
{
    a.cmp(b)
}

} // verus!
