//! The naming convention by which generated code picks a variant: the
//! function's name followed by one mark per argument, `N` where that
//! argument is nullable and `_` where it is not.
use vstd::prelude::*;
use vstd::string::*;
use crate::text::push_char;

verus! {

/// The mark of one argument in a variant's name.
pub open spec fn mark(nullable: bool) -> char {
    if nullable { 'N' } else { '_' }
}

/// The marks of a nullability profile, one per argument.
pub open spec fn marks(profile: Seq<bool>) -> Seq<char> {
    profile.map_values(|b: bool| mark(b))
}

/// The number of nullability profiles of `n` arguments.
pub open spec fn pow2(n: nat) -> nat
    decreases n,
{
    if n == 0 { 1 } else { 2 * pow2((n - 1) as nat) }
}

/// The name of the variant of `base` for a nullability profile.
pub fn variant_name(base: &str, profile: &Vec<bool>) -> (r: String)
    ensures
        r@ == base@ + marks(profile@),
{
    let mut r = String::from_str(base);
    let n = profile.len();
    let mut i: usize = 0;
    while i < n
        invariant
            n == profile@.len(),
            i <= n,
            r@ == base@ + marks(profile@.subrange(0, i as int)),
        decreases n - i,
    {
        let c = if profile[i] { 'N' } else { '_' };
        push_char(&mut r, c);
        assert(marks(profile@.subrange(0, i + 1)) =~= marks(profile@.subrange(0, i as int)).push(c));
        assert(base@ + marks(profile@.subrange(0, i + 1)) =~= (base@ + marks(profile@.subrange(0, i as int))).push(c));
        i += 1;
    }
    assert(profile@.subrange(0, n as int) =~= profile@);
    r
}

/// A copy of `p` with `b` appended.
fn extended(p: &Vec<bool>, b: bool) -> (r: Vec<bool>)
    ensures
        r@ == p@.push(b),
{
    let mut r: Vec<bool> = Vec::new();
    let n = p.len();
    let mut i: usize = 0;
    while i < n
        invariant
            n == p@.len(),
            i <= n,
            r@ == p@.subrange(0, i as int),
        decreases n - i,
    {
        r.push(p[i]);
        assert(p@.subrange(0, i + 1) =~= p@.subrange(0, i as int).push(p@[i as int]));
        i += 1;
    }
    assert(p@.subrange(0, n as int) =~= p@);
    r.push(b);
    r
}

/// Appending one element keeps sequences apart and tells them apart by it.
proof fn lemma_push_injective(p: Seq<bool>, q: Seq<bool>, a: bool, b: bool)
    requires
        p.push(a) == q.push(b),
    ensures
        p == q,
        a == b,
{
    assert(p =~= p.push(a).drop_last());
    assert(q =~= q.push(b).drop_last());
    assert(p.push(a).last() == a);
}

/// Every nullability profile of `n` arguments, each exactly once.
pub fn all_profiles(n: usize) -> (r: Vec<Vec<bool>>)
    ensures
        r@.len() == pow2(n as nat),
        forall|i: int| 0 <= i < r@.len() ==> (#[trigger] r@[i])@.len() == n,
        forall|i: int, j: int| 0 <= i < j < r@.len() ==> (#[trigger] r@[i])@ != (#[trigger] r@[j])@,
        forall|p: Seq<bool>| p.len() == n ==> exists|i: int| 0 <= i < r@.len() && (#[trigger] r@[i])@ == p,
{
    let mut cur: Vec<Vec<bool>> = Vec::new();
    cur.push(Vec::new());
    proof {
        assert forall|p: Seq<bool>| p.len() == 0 implies exists|i: int| 0 <= i < cur@.len() && (#[trigger] cur@[i])@ == p by {
            assert(cur@[0]@ =~= p);
        }
    }
    let mut k: usize = 0;
    while k < n
        invariant
            k <= n,
            cur@.len() == pow2(k as nat),
            forall|i: int| 0 <= i < cur@.len() ==> (#[trigger] cur@[i])@.len() == k,
            forall|i: int, j: int| 0 <= i < j < cur@.len() ==> (#[trigger] cur@[i])@ != (#[trigger] cur@[j])@,
            forall|p: Seq<bool>| p.len() == k ==> exists|i: int| 0 <= i < cur@.len() && (#[trigger] cur@[i])@ == p,
        decreases n - k,
    {
        let m = cur.len();
        let mut next: Vec<Vec<bool>> = Vec::new();
        let mut half: usize = 0;
        while half < 2
            invariant
                half <= 2,
                m == cur@.len(),
                next@.len() == half * m,
                forall|j: int| 0 <= j < next@.len() ==> (#[trigger] next@[j])@ == cur@[j % (m as int)]@.push(j >= m),
            decreases 2 - half,
        {
            let b = half == 1;
            let mut i: usize = 0;
            while i < m
                invariant
                    half < 2,
                    b == (half == 1),
                    i <= m,
                    m == cur@.len(),
                    next@.len() == half * m + i,
                    forall|j: int| 0 <= j < next@.len() ==> (#[trigger] next@[j])@ == cur@[j % (m as int)]@.push(j >= m),
                decreases m - i,
            {
                let e = extended(&cur[i], b);
                next.push(e);
                proof {
                    let j = half * m + i;
                    assert(j % (m as int) == i as int) by (nonlinear_arith)
                        requires j == half * m + i, i < m, half < 2;
                    assert((j >= m) == b) by (nonlinear_arith)
                        requires j == half * m + i, i < m, half < 2, b == (half == 1);
                }
                i += 1;
            }
            assert((half + 1) * m == half * m + m) by (nonlinear_arith);
            half += 1;
        }
        proof {
            let mi = m as int;
            assert(next@.len() == 2 * mi);
            assert forall|i: int| 0 <= i < next@.len() implies (#[trigger] next@[i])@.len() == k + 1 by {
                assert(0 <= i % mi < mi) by (nonlinear_arith) requires mi > 0;
            }
            assert forall|i: int, j: int| 0 <= i < j < next@.len() implies (#[trigger] next@[i])@ != (#[trigger] next@[j])@ by {
                if next@[i]@ == next@[j]@ {
                    assert(0 <= i % mi < mi && 0 <= j % mi < mi) by (nonlinear_arith) requires mi > 0;
                    lemma_push_injective(cur@[i % mi]@, cur@[j % mi]@, i >= mi, j >= mi);
                    assert(i % mi == j % mi) by {
                        if i % mi < j % mi {
                            assert(cur@[i % mi]@ != cur@[j % mi]@);
                        } else if j % mi < i % mi {
                            assert(cur@[j % mi]@ != cur@[i % mi]@);
                        }
                    }
                    assert(i == j) by (nonlinear_arith)
                        requires i % mi == j % mi, (i >= mi) == (j >= mi), 0 <= i < 2 * mi, 0 <= j < 2 * mi, mi > 0;
                }
            }
            assert forall|p: Seq<bool>| p.len() == k + 1 implies exists|i: int| 0 <= i < next@.len() && (#[trigger] next@[i])@ == p by {
                let q = p.drop_last();
                assert(q.len() == k);
                let t = choose|t: int| 0 <= t < cur@.len() && (#[trigger] cur@[t])@ == q;
                let j = if p.last() { t + mi } else { t };
                assert(j % mi == t) by (nonlinear_arith) requires 0 <= t < mi, j == t || j == t + mi;
                assert(next@[j]@ =~= p);
            }
            assert(pow2((k + 1) as nat) == 2 * pow2(k as nat));
        }
        cur = next;
        k += 1;
    }
    cur
}

/// Law: for each registered function, the variants cover every nullability
/// profile of its arguments exactly once. Each profile names one variant, and
/// two profiles of the same arity name the same variant only where they are
/// the same profile.
pub proof fn lemma_variants_exact(base: Seq<char>, p: Seq<bool>, q: Seq<bool>)
    requires
        p.len() == q.len(),
    ensures
        (base + marks(p) == base + marks(q)) <==> p == q,
{
    if base + marks(p) == base + marks(q) {
        assert forall|i: int| 0 <= i < p.len() implies p[i] == q[i] by {
            assert((base + marks(p))[base.len() + i] == marks(p)[i]);
            assert((base + marks(q))[base.len() + i] == marks(q)[i]);
        }
        assert(p =~= q);
    }
}

} // verus!
