//! An algebra of finite indexable collections.
//!
//! A collection here is anything that can report a cardinality and hand out
//! the element standing at a given position, without materializing its
//! elements in memory. Primitives (`Empty`, `Singleton`, `Natural`, `Lazy`)
//! answer directly; combinators (`Union`, `Transform`, `Product`) answer by
//! delegating to the collections they wrap, so an expression tree of them is
//! consumed lazily, one position at a time.

use vstd::prelude::*;
use core::marker::PhantomData;

pub mod laws;

verus! {

use vstd::arithmetic::div_mod::lemma_multiply_divide_lt;

/// A finite indexable collection: a cardinality (`len`) together with random
/// access to the element at each position below it (`index`).
///
/// `spec_len` is the mathematical cardinality and `spec_elem(i, r)` says
/// which values may stand at position `i`. For a deterministic collection
/// `spec_elem` admits exactly one value per position; a `Lazy` collection or
/// a `Transform` by an impure function may admit several, and then repeated
/// access to one position may observe different values.
///
/// `wf` collects the structural side conditions under which a tree of
/// combinators may be queried at all: that every function stored in it may
/// be applied to what its child produces, and that no cardinality outgrows
/// the machine. Asking for an element at or beyond `spec_len` is a contract
/// violation, not a recoverable outcome: `index` refuses such positions up
/// front.
pub trait Finite {
    type Item;

    /// Structural side conditions under which the collection may be queried.
    spec fn wf(&self) -> bool;

    /// The cardinality of the collection.
    spec fn spec_len(&self) -> nat;

    /// Which values may be produced at position `i`.
    spec fn spec_elem(&self, i: int, r: Self::Item) -> bool;

    /// The number of elements in the collection.
    fn len(&self) -> (n: usize)
        requires
            self.wf(),
        ensures
            n == self.spec_len(),
    ;

    /// The element standing at position `i`, for `i` below the length.
    fn index(&self, i: usize) -> (r: Self::Item)
        requires
            self.wf(),
            i < self.spec_len(),
        ensures
            self.spec_elem(i as int, r),
    ;

    /// Concatenates `self` and `other`: the positions of `self` come first,
    /// then those of `other`, contiguously and in order.
    fn union<B>(self, other: B) -> (u: Union<Self, B>)
        where Self: Sized,
        ensures
            u.left == self,
            u.right == other,
    {
        Union { left: self, right: other }
    }

    /// Wraps `self` so that every element is passed through `f` on access.
    /// No result is cached: `f` runs once per access.
    fn map<U, F: Fn(Self::Item) -> U>(self, f: F) -> (m: Transform<Self, F>)
        where Self: Sized,
        ensures
            m.finite == self,
            m.f == f,
    {
        Transform { finite: self, f }
    }

    /// Pairs `self` with `other`: all pairs of one element of each, in
    /// row-major order (the right-hand index varies fastest).
    fn product<B>(self, other: B) -> (p: Product<Self, B>)
        where Self: Sized,
        ensures
            p.left == self,
            p.right == other,
    {
        Product { left: self, right: other }
    }

    /// A cursor over positions `0 .. len`, in order. It borrows the
    /// collection, so a collection can be iterated any number of times;
    /// one cursor, though, is not restartable.
    fn iter(&self) -> (it: Iter<&Self>)
        where Self: Sized,
        ensures
            it.finite == self,
            it.index == 0,
    {
        Iter { finite: self, index: 0 }
    }
}

impl<'a, F: Finite> Finite for &'a F {
    type Item = F::Item;

    open spec fn wf(&self) -> bool {
        (**self).wf()
    }

    open spec fn spec_len(&self) -> nat {
        (**self).spec_len()
    }

    open spec fn spec_elem(&self, i: int, r: Self::Item) -> bool {
        (**self).spec_elem(i, r)
    }

    fn len(&self) -> usize {
        (**self).len()
    }

    fn index(&self, i: usize) -> Self::Item {
        (**self).index(i)
    }
}

/// The collection with no elements.
pub struct Empty<T>(PhantomData<T>);

/// Builds the collection with no elements.
pub fn empty<T>() -> (e: Empty<T>)
    ensures
        e.wf(),
        e.spec_len() == 0,
{
    Empty(PhantomData)
}

impl<T> Finite for Empty<T> {
    type Item = T;

    open spec fn wf(&self) -> bool {
        true
    }

    open spec fn spec_len(&self) -> nat {
        0
    }

    open spec fn spec_elem(&self, i: int, r: T) -> bool {
        false
    }

    fn len(&self) -> usize {
        0
    }

    fn index(&self, i: usize) -> T {
        vstd::pervasive::unreached()
    }
}

/// The collection holding exactly one value.
pub struct Singleton<T> {
    pub inner: T,
}

/// Builds the collection holding exactly `t`.
pub fn singleton<T: Copy>(t: T) -> (s: Singleton<T>)
    ensures
        s.wf(),
        s.spec_len() == 1,
        s.inner == t,
{
    Singleton { inner: t }
}

impl<T: Copy> Finite for Singleton<T> {
    type Item = T;

    open spec fn wf(&self) -> bool {
        true
    }

    open spec fn spec_len(&self) -> nat {
        1
    }

    open spec fn spec_elem(&self, i: int, r: T) -> bool {
        i == 0 && r == self.inner
    }

    fn len(&self) -> usize {
        1
    }

    fn index(&self, i: usize) -> T {
        if i == 0 {
            self.inner
        } else {
            vstd::pervasive::unreached()
        }
    }
}

/// A collection of one element, computed on demand: each access to position
/// 0 invokes the held producer afresh, so an impure producer may yield a
/// different value each time. Nothing is cached.
pub struct Lazy<F> {
    pub inner: F,
}

/// Builds the one-element collection whose element is produced by `f`,
/// anew on every access.
pub fn lazy<F: Fn() -> R, R>(f: F) -> (l: Lazy<F>)
    ensures
        l.spec_len() == 1,
        l.inner == f,
{
    Lazy { inner: f }
}

impl<F: Fn() -> R, R> Finite for Lazy<F> {
    type Item = R;

    open spec fn wf(&self) -> bool {
        call_requires(self.inner, ())
    }

    open spec fn spec_len(&self) -> nat {
        1
    }

    open spec fn spec_elem(&self, i: int, r: R) -> bool {
        i == 0 && call_ensures(self.inner, (), r)
    }

    fn len(&self) -> usize {
        1
    }

    fn index(&self, i: usize) -> R {
        if i == 0 {
            (self.inner)()
        } else {
            vstd::pervasive::unreached()
        }
    }
}

/// The collection of the integers `0 .. n`, stored as nothing but `n`
/// itself: the element at position `i` is `i`.
pub struct Natural(pub usize);

impl Finite for Natural {
    type Item = usize;

    open spec fn wf(&self) -> bool {
        true
    }

    open spec fn spec_len(&self) -> nat {
        self.0 as nat
    }

    open spec fn spec_elem(&self, i: int, r: usize) -> bool {
        r == i
    }

    fn len(&self) -> usize {
        self.0
    }

    fn index(&self, i: usize) -> usize {
        i
    }
}

/// The concatenation of two collections over the same item type: the
/// positions of `left` come first, then those of `right`, in order and
/// without overlap. Neither child is copied or consumed by access.
pub struct Union<A, B> {
    pub left: A,
    pub right: B,
}

impl<A: Finite, B: Finite<Item = A::Item>> Finite for Union<A, B> {
    type Item = A::Item;

    open spec fn wf(&self) -> bool {
        &&& self.left.wf()
        &&& self.right.wf()
        &&& self.left.spec_len() + self.right.spec_len() <= usize::MAX
    }

    open spec fn spec_len(&self) -> nat {
        self.left.spec_len() + self.right.spec_len()
    }

    open spec fn spec_elem(&self, i: int, r: A::Item) -> bool {
        if i < self.left.spec_len() {
            self.left.spec_elem(i, r)
        } else {
            self.right.spec_elem(i - self.left.spec_len(), r)
        }
    }

    fn len(&self) -> usize {
        self.left.len() + self.right.len()
    }

    fn index(&self, i: usize) -> A::Item {
        let llen = self.left.len();
        if i < llen {
            self.left.index(i)
        } else {
            self.right.index(i - llen)
        }
    }
}

/// A collection mapped element-wise through a function: the element at
/// position `i` is `f` applied to the child's element at `i`. The mapping is
/// applied afresh on every access; nothing is memoized.
pub struct Transform<A, F> {
    pub finite: A,
    pub f: F,
}

impl<A: Finite, F: Fn(A::Item) -> U, U> Finite for Transform<A, F> {
    type Item = U;

    open spec fn wf(&self) -> bool {
        &&& self.finite.wf()
        &&& forall|i: int, x: A::Item|
            0 <= i < self.finite.spec_len() && #[trigger] self.finite.spec_elem(i, x)
                ==> call_requires(self.f, (x,))
    }

    open spec fn spec_len(&self) -> nat {
        self.finite.spec_len()
    }

    open spec fn spec_elem(&self, i: int, r: U) -> bool {
        exists|x: A::Item| #[trigger] self.finite.spec_elem(i, x) && call_ensures(self.f, (x,), r)
    }

    fn len(&self) -> usize {
        self.finite.len()
    }

    fn index(&self, i: usize) -> U {
        let x = self.finite.index(i);
        (self.f)(x)
    }
}

/// The cartesian product of two collections: its elements are all pairs of
/// one element of each, enumerated in row-major order — position `i` holds
/// the pair of `left`'s element at `i / len(right)` and `right`'s element at
/// `i % len(right)`, so the right-hand index varies fastest.
pub struct Product<A, B> {
    pub left: A,
    pub right: B,
}

impl<A: Finite, B: Finite> Finite for Product<A, B> {
    type Item = (A::Item, B::Item);

    open spec fn wf(&self) -> bool {
        &&& self.left.wf()
        &&& self.right.wf()
        &&& self.left.spec_len() * self.right.spec_len() <= usize::MAX
    }

    open spec fn spec_len(&self) -> nat {
        self.left.spec_len() * self.right.spec_len()
    }

    open spec fn spec_elem(&self, i: int, r: (A::Item, B::Item)) -> bool {
        &&& self.right.spec_len() > 0
        &&& self.left.spec_elem(i / self.right.spec_len() as int, r.0)
        &&& self.right.spec_elem(i % self.right.spec_len() as int, r.1)
    }

    fn len(&self) -> usize {
        self.left.len() * self.right.len()
    }

    fn index(&self, i: usize) -> (A::Item, B::Item) {
        let rlen = self.right.len();
        proof {
            assert(rlen > 0) by {
                if self.right.spec_len() == 0 {
                    assert(self.left.spec_len() * self.right.spec_len() == 0)
                        by (nonlinear_arith)
                        requires
                            self.right.spec_len() == 0,
                    ;
                }
            };
            assert((i as int) / (rlen as int) < self.left.spec_len()) by {
                assert(i < rlen * self.left.spec_len()) by (nonlinear_arith)
                    requires
                        i < self.left.spec_len() * self.right.spec_len(),
                        rlen == self.right.spec_len(),
                ;
                lemma_multiply_divide_lt(i as int, rlen as int, self.left.spec_len() as int);
            };
        }
        let q = i / rlen;
        let r = i % rlen;
        (self.left.index(q), self.right.index(r))
    }
}

/// Materializes a collection by walking it once from position 0: the
/// resulting vector holds exactly `spec_len` elements, and the `k`-th of
/// them is one the collection admits at position `k`. This is the one
/// operation of the algebra that copies elements into a buffer.
pub fn collect<A: Finite>(c: &A) -> (v: Vec<A::Item>)
    requires
        c.wf(),
    ensures
        v@.len() == c.spec_len(),
        forall|k: int| 0 <= k < v@.len() ==> c.spec_elem(k, #[trigger] v@[k]),
{
    let mut it = c.iter();
    let mut v: Vec<A::Item> = Vec::new();
    loop
        invariant
            c.wf(),
            it.finite == c,
            it.index == v@.len(),
            it.index <= c.spec_len(),
            forall|k: int| 0 <= k < v@.len() ==> c.spec_elem(k, #[trigger] v@[k]),
        ensures
            it.index == c.spec_len(),
            it.index == v@.len(),
            forall|k: int| 0 <= k < v@.len() ==> c.spec_elem(k, #[trigger] v@[k]),
        decreases c.spec_len() - it.index,
    {
        match it.next() {
            Some(x) => v.push(x),
            None => break,
        }
    }
    v
}

/// Walks a finite collection from position 0 to its length, in order: a
/// sequential adaptor over the random-access primitives. It holds a cursor
/// and the collection (usually a borrow of it); once the cursor reaches the
/// length the walk is exhausted for good.
pub struct Iter<A> {
    pub finite: A,
    pub index: usize,
}

impl<A: Finite> Iter<A> {
    /// Yields the element at the cursor and advances, or reports
    /// exhaustion. Walking from a fresh cursor therefore yields exactly
    /// `spec_len` elements, the `k`-th being an element the collection
    /// admits at position `k`; the walk never asks for an out-of-range
    /// position.
    pub fn next(&mut self) -> (r: Option<A::Item>)
        requires
            old(self).finite.wf(),
            old(self).index <= old(self).finite.spec_len(),
        ensures
            final(self).finite == old(self).finite,
            final(self).index <= final(self).finite.spec_len(),
            if old(self).index < old(self).finite.spec_len() {
                &&& final(self).index == old(self).index + 1
                &&& r is Some
                &&& old(self).finite.spec_elem(old(self).index as int, r->Some_0)
            } else {
                &&& final(self).index == old(self).index
                &&& r is None
            },
    {
        let i = self.index;
        if i < self.finite.len() {
            self.index = i + 1;
            Some(self.finite.index(i))
        } else {
            None
        }
    }

    /// How many elements remain: an exact size, reported as both the lower
    /// and the upper bound.
    pub fn size_hint(&self) -> (r: (usize, Option<usize>))
        requires
            self.finite.wf(),
            self.index <= self.finite.spec_len(),
        ensures
            r.0 == self.finite.spec_len() - self.index,
            r.1 == Some(r.0),
    {
        let size = self.finite.len() - self.index;
        (size, Some(size))
    }

    /// How many elements remain, exactly.
    pub fn len(&self) -> (n: usize)
        requires
            self.finite.wf(),
            self.index <= self.finite.spec_len(),
        ensures
            n == self.finite.spec_len() - self.index,
    {
        self.finite.len() - self.index
    }
}

} // verus!

