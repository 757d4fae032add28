//! The laws of the algebra, stated over the specification functions of the
//! collection types and proved once and for all.

use vstd::prelude::*;

use crate::Empty;
use crate::Finite;
use crate::Lazy;
use crate::Natural;
use crate::Product;
use crate::Singleton;
use crate::Transform;
use crate::Union;

verus! {

use vstd::arithmetic::div_mod::lemma_fundamental_div_mod_converse;

/// An empty collection has length 0 and admits no value at any position.
pub proof fn law_empty<T>(e: Empty<T>, i: int, r: T)
    ensures
        e.spec_len() == 0,
        !e.spec_elem(i, r),
{
}

/// A singleton has length 1; position 0 holds the stored value and no
/// other position holds anything.
pub proof fn law_singleton<T: Copy>(s: Singleton<T>, i: int, r: T)
    ensures
        s.spec_len() == 1,
        s.spec_elem(i, r) <==> (i == 0 && r == s.inner),
{
}

/// A lazy collection has length 1; position 0 admits exactly the values its
/// producer can return, and no other position holds anything.
pub proof fn law_lazy<F: Fn() -> R, R>(l: Lazy<F>, i: int, r: R)
    ensures
        l.spec_len() == 1,
        l.spec_elem(i, r) <==> (i == 0 && call_ensures(l.inner, (), r)),
{
}

/// `Natural(n)` has length `n` and holds `i` at each position `i` below `n`.
pub proof fn law_natural(n: Natural, i: int, r: usize)
    ensures
        n.spec_len() == n.0,
        n.spec_elem(i, r) <==> r == i,
{
}

/// A union's length is the sum of its children's; positions below the left
/// length are the left child's positions, the rest are the right child's,
/// shifted by the left length.
pub proof fn law_union<A: Finite, B: Finite<Item = A::Item>>(u: Union<A, B>, i: int, r: A::Item)
    ensures
        u.spec_len() == u.left.spec_len() + u.right.spec_len(),
        i < u.left.spec_len() ==> (u.spec_elem(i, r) <==> u.left.spec_elem(i, r)),
        i >= u.left.spec_len() ==> (u.spec_elem(i, r) <==> u.right.spec_elem(
            i - u.left.spec_len(),
            r,
        )),
{
}

/// A transform keeps its child's length; position `i` admits exactly the
/// results of applying the stored function to a value the child admits
/// at `i`.
pub proof fn law_transform<A: Finite, F: Fn(A::Item) -> U, U>(m: Transform<A, F>, i: int, r: U)
    ensures
        m.spec_len() == m.finite.spec_len(),
        m.spec_elem(i, r) <==> exists|x: A::Item|
            #[trigger] m.finite.spec_elem(i, x) && call_ensures(m.f, (x,), r),
{
}

/// A product's length is the product of its children's lengths; a valid
/// position `i` holds the pair of the left child's element at
/// `i / len(right)` and the right child's element at `i % len(right)`.
pub proof fn law_product<A: Finite, B: Finite>(p: Product<A, B>, i: int, a: A::Item, b: B::Item)
    requires
        0 <= i < p.spec_len(),
    ensures
        p.spec_len() == p.left.spec_len() * p.right.spec_len(),
        p.spec_elem(i, (a, b)) <==> (p.left.spec_elem(i / p.right.spec_len() as int, a)
            && p.right.spec_elem(i % p.right.spec_len() as int, b)),
{
    assert(p.right.spec_len() > 0) by {
        if p.right.spec_len() == 0 {
            assert(p.left.spec_len() * p.right.spec_len() == 0) by (nonlinear_arith)
                requires
                    p.right.spec_len() == 0,
            ;
        }
    };
}

/// Row-major enumeration: iterating a product yields, in order, all pairs
/// of one element of each child with the right-hand index varying fastest —
/// the pair of the children's elements at `(ia, ib)` stands exactly at
/// position `ia * len(right) + ib`.
pub proof fn law_product_row_major<A: Finite, B: Finite>(
    p: Product<A, B>,
    ia: int,
    ib: int,
    a: A::Item,
    b: B::Item,
)
    requires
        0 <= ia < p.left.spec_len(),
        0 <= ib < p.right.spec_len(),
    ensures
        0 <= ia * p.right.spec_len() + ib < p.spec_len(),
        p.spec_elem(ia * p.right.spec_len() + ib, (a, b)) <==> (p.left.spec_elem(ia, a)
            && p.right.spec_elem(ib, b)),
{
    let rl = p.right.spec_len() as int;
    let i = ia * rl + ib;
    lemma_fundamental_div_mod_converse(i, rl, ia, ib);
    assert(0 <= i < p.left.spec_len() * rl) by (nonlinear_arith)
        requires
            0 <= ia < p.left.spec_len(),
            0 <= ib < rl,
            i == ia * rl + ib,
    ;
}

} // verus!
