//! Index arithmetic for multidimensional arrays: indexers that map
//! two-dimensional indices to offsets in flat storage, and an array view
//! built on them.

use vstd::arithmetic::div_mod::{lemma_fundamental_div_mod, lemma_fundamental_div_mod_converse};
use vstd::prelude::*;
use std::marker::PhantomData;
use std::ops::Index;
use vstd::std_specs::convert::{FromSpecImpl, IntoSpec};

verus! {

/// An extent that is known at compile time and takes no space.
#[derive(Debug, Clone, Copy, PartialEq, Eq, PartialOrd, Ord, Hash)]
pub struct Static<const N: usize>;

impl<const N: usize> From<Static<N>> for usize {
    fn from(value: Static<N>) -> (r: usize) {
        N
    }
}

impl<const N: usize> FromSpecImpl<Static<N>> for usize {
    open spec fn obeys_from_spec() -> bool {
        true
    }

    open spec fn from_spec(value: Static<N>) -> usize {
        N
    }
}

/// A map between multidimensional indices and offsets into flat storage.
pub trait Indexer: Sized {
    /// The multidimensional index.
    type Expanded;

    /// The indexer's extent is one that its arithmetic can be carried out
    /// for in `usize`.
    spec fn wf(&self) -> bool;

    /// The number of flat offsets that `expand` accepts.
    spec fn spec_len(&self) -> usize;

    /// The offset of `indices`, or `None` where an index is outside the
    /// extent.
    spec fn spec_flatten(&self, indices: Self::Expanded) -> Option<usize>;

    /// The indices that stand at the offset `index`, or `None` where the
    /// offset is not below `spec_len`.
    spec fn spec_expand(&self, index: usize) -> Option<Self::Expanded>;

    /// `expand` accepts exactly the offsets below `spec_len`.
    proof fn expand_accepts_below_len(&self, index: usize)
        requires
            self.wf(),
        ensures
            self.spec_expand(index).is_some() <==> index < self.spec_len(),
    ;

    /// The offset of `indices` in flat storage, or `None` where an index is
    /// outside the extent.
    fn flatten(&self, indices: Self::Expanded) -> (r: Option<usize>)
        requires
            self.wf(),
        ensures
            r == self.spec_flatten(indices),
    ;

    /// The indices at the offset `index`, or `None` where there are none.
    fn expand(&self, index: usize) -> (r: Option<Self::Expanded>)
        requires
            self.wf(),
        ensures
            r == self.spec_expand(index),
    ;

    /// The number of offsets that `expand` accepts.
    fn len(&self) -> (r: usize)
        requires
            self.wf(),
        ensures
            r == self.spec_len(),
    ;
}

/// The extent that `e` converts to.
pub open spec fn extent_of<E: Into<usize>>(e: E) -> usize {
    <E as IntoSpec<usize>>::into_spec(e)
}

/// The offset of column `i0` in row `i1` of a table with `e0` columns, rows
/// laid out one after the other.
pub open spec fn row_major(e0: int, i0: int, i1: int) -> int {
    i1 * e0 + i0
}

/// The offset of the pair `{i0, i1}` in the packed upper triangle of a
/// symmetric `e0` by `e0` table: row `lo` starts after the `lo` shorter and
/// shorter rows above it, and holds the columns from `lo` on.
pub open spec fn packed_triangle(e0: int, i0: int, i1: int) -> int {
    let hi = if i0 >= i1 { i0 } else { i1 };
    let lo = if i0 >= i1 { i1 } else { i0 };
    hi + lo * (2 * e0 - 1 - lo) / 2
}

/// A square table stored row by row.
pub struct Square<E>(pub E);

/// A symmetric square table of which only the upper triangle is stored.
pub struct SquareSymmetric<E>(pub E);

impl<E0: Copy + Into<usize>> Square<E0> {
    /// The number of rows, which is the number of columns.
    pub open spec fn extent(&self) -> usize {
        extent_of(self.0)
    }

    /// The indices in the order of their offsets.
    pub fn into_iter(self) -> (r: IndexerIter<Self>)
        requires
            self.wf(),
        ensures
            r.spec_index() == 0,
            r.indexer() == self,
    {
        IndexerIter::new(self)
    }
}

impl<E0: Copy + Into<usize>> Indexer for Square<E0> {
    type Expanded = [usize; 2];

    open spec fn wf(&self) -> bool {
        &&& <E0 as IntoSpec<usize>>::obeys_into_spec()
        &&& self.extent() * self.extent() <= usize::MAX
    }

    open spec fn spec_len(&self) -> usize {
        (self.extent() * self.extent()) as usize
    }

    open spec fn spec_flatten(&self, indices: [usize; 2]) -> Option<usize> {
        let e0 = self.extent();
        if indices[0] >= e0 || indices[1] >= e0 {
            None
        } else {
            Some(row_major(e0 as int, indices[0] as int, indices[1] as int) as usize)
        }
    }

    open spec fn spec_expand(&self, index: usize) -> Option<[usize; 2]> {
        let e0 = self.extent();
        if index >= e0 * e0 {
            None
        } else {
            Some([(index % e0) as usize, (index / e0) as usize])
        }
    }

    proof fn expand_accepts_below_len(&self, index: usize) {
    }

    fn flatten(&self, indices: [usize; 2]) -> (r: Option<usize>) {
        let i0 = indices[0];
        let i1 = indices[1];
        let e0: usize = self.0.into();
        if i0 >= e0 || i1 >= e0 {
            return None;
        }
        assert(i1 * e0 + i0 < e0 * e0) by (nonlinear_arith)
            requires
                i0 < e0,
                i1 < e0,
        ;
        Some(i1 * e0 + i0)
    }

    fn expand(&self, index: usize) -> (r: Option<[usize; 2]>) {
        let e0: usize = self.0.into();
        if index >= e0 * e0 {
            return None;
        }
        assert(e0 > 0) by (nonlinear_arith)
            requires
                index < e0 * e0,
        ;
        let i0 = index % e0;
        let i1 = index / e0;
        Some([i0, i1])
    }

    fn len(&self) -> (r: usize) {
        let e0: usize = self.0.into();
        e0 * e0
    }
}

/// The indices of an indexer, one after the other, in the order of their
/// offsets.
pub struct IndexerIter<X> {
    index: usize,
    indexer: X,
}

impl<X: Indexer> IndexerIter<X> {
    /// The offset of the item that `next` returns next.
    pub closed spec fn spec_index(&self) -> usize {
        self.index
    }

    /// The indexer that the items come from.
    pub closed spec fn indexer(&self) -> X {
        self.indexer
    }

    /// The indexer can be used and the position is not past its end.
    pub open spec fn wf(&self) -> bool {
        &&& self.indexer().wf()
        &&& self.spec_index() <= self.indexer().spec_len()
    }

    /// The items that are still to come.
    pub open spec fn remaining(&self) -> Seq<X::Expanded> {
        Seq::new(
            (self.indexer().spec_len() - self.spec_index()) as nat,
            |k: int| self.indexer().spec_expand((self.spec_index() + k) as usize).unwrap(),
        )
    }

    /// An iterator at the first offset of `indexer`.
    pub fn new(indexer: X) -> (r: Self)
        ensures
            r.spec_index() == 0,
            r.indexer() == indexer,
    {
        Self { index: 0, indexer }
    }

    /// The item at the current offset, if there is one; the position then
    /// moves on by one.
    pub fn next(&mut self) -> (r: Option<X::Expanded>)
        requires
            old(self).wf(),
        ensures
            final(self).wf(),
            final(self).indexer() == old(self).indexer(),
            r == old(self).indexer().spec_expand(old(self).spec_index()),
            r.is_some() <==> old(self).spec_index() < old(self).indexer().spec_len(),
            r.is_some() ==> final(self).spec_index() == old(self).spec_index() + 1,
            r.is_none() ==> final(self).spec_index() == old(self).spec_index(),
    {
        proof {
            self.indexer.expand_accepts_below_len(self.index);
        }
        let item = self.indexer.expand(self.index);
        if item.is_some() {
            self.index += 1;
        }
        item
    }

    /// The number of items that are still to come.
    pub fn len(&self) -> (r: usize)
        requires
            self.wf(),
        ensures
            r == self.indexer().spec_len() - self.spec_index(),
            r == self.remaining().len(),
    {
        self.indexer.len() - self.index
    }

    /// The number of items still to come, as a lower and an upper bound.
    pub fn size_hint(&self) -> (r: (usize, Option<usize>))
        requires
            self.wf(),
        ensures
            r.0 == self.remaining().len(),
            r.1 == Some(r.0),
    {
        let len = self.len();
        (len, Some(len))
    }

    /// Uses the iterator up and returns the number of items that were still
    /// to come.
    pub fn count(self) -> (r: usize)
        requires
            self.wf(),
        ensures
            r == self.remaining().len(),
    {
        self.len()
    }
}

impl<E0: Copy + Into<usize>> SquareSymmetric<E0> {
    /// The number of rows, which is the number of columns.
    pub open spec fn extent(&self) -> usize {
        extent_of(self.0)
    }

    /// The number of offsets that `flatten` uses: the size of the packed
    /// upper triangle.
    pub open spec fn packed_len(&self) -> nat {
        (self.extent() * (self.extent() + 1) / 2) as nat
    }

    /// The indices in the order in which `expand` gives them.
    pub fn into_iter(self) -> (r: IndexerIter<Self>)
        requires
            self.wf(),
        ensures
            r.spec_index() == 0,
            r.indexer() == self,
    {
        IndexerIter::new(self)
    }
}

impl<E0: Copy + Into<usize>> Indexer for SquareSymmetric<E0> {
    type Expanded = [usize; 2];

    open spec fn wf(&self) -> bool {
        &&& <E0 as IntoSpec<usize>>::obeys_into_spec()
        &&& 2 * self.extent() * self.extent() <= usize::MAX
    }

    open spec fn spec_len(&self) -> usize {
        (self.extent() * self.extent()) as usize
    }

    open spec fn spec_flatten(&self, indices: [usize; 2]) -> Option<usize> {
        let e0 = self.extent();
        if indices[0] >= e0 || indices[1] >= e0 {
            None
        } else {
            Some(packed_triangle(e0 as int, indices[0] as int, indices[1] as int) as usize)
        }
    }

    open spec fn spec_expand(&self, index: usize) -> Option<[usize; 2]> {
        let e0 = self.extent();
        if index >= e0 * e0 {
            None
        } else {
            Some([(index % e0) as usize, (index / e0) as usize])
        }
    }

    proof fn expand_accepts_below_len(&self, index: usize) {
        let e0 = self.extent();
        assert(e0 * e0 <= 2 * e0 * e0) by (nonlinear_arith);
    }

    fn flatten(&self, indices: [usize; 2]) -> (r: Option<usize>) {
        let i0 = indices[0];
        let i1 = indices[1];
        let e0: usize = self.0.into();
        if i0 >= e0 || i1 >= e0 {
            return None;
        }
        // Order the pair so that the larger index comes first.
        let (i0, i1) = if i0 >= i1 {
            (i0, i1)
        } else {
            (i1, i0)
        };
        assert(2 * e0 <= 2 * e0 * e0 && i1 * (2 * e0 - 1 - i1) <= 2 * e0 * e0 - 2 * e0)
            by (nonlinear_arith)
            requires
                i1 <= i0 < e0,
        ;
        Some(i0 + i1 * (2 * e0 - 1 - i1) / 2)
    }

    fn expand(&self, index: usize) -> (r: Option<[usize; 2]>) {
        let e0: usize = self.0.into();
        assert(e0 * e0 <= 2 * e0 * e0) by (nonlinear_arith);
        if index >= e0 * e0 {
            return None;
        }
        assert(e0 > 0) by (nonlinear_arith)
            requires
                index < e0 * e0,
        ;
        let i0 = index % e0;
        let i1 = index / e0;
        Some([i0, i1])
    }

    fn len(&self) -> (r: usize) {
        let e0: usize = self.0.into();
        assert(e0 * e0 <= 2 * e0 * e0) by (nonlinear_arith);
        e0 * e0
    }
}

/// Storage that can be asked for the element at an index and answers `None`
/// where it has none.
pub trait TryIndex<I> {
    /// The type of the elements.
    type Output;

    /// The element at `index`, if there is one.
    spec fn spec_get(&self, index: I) -> Option<Self::Output>;

    /// The element at `index`, or `None` where there is none.
    fn get(&self, index: I) -> (r: Option<&Self::Output>)
        ensures
            r.is_some() == self.spec_get(index).is_some(),
            r.is_some() ==> *r.unwrap() == self.spec_get(index).unwrap(),
    ;
}

impl<T, const N: usize> TryIndex<usize> for [T; N] {
    type Output = T;

    open spec fn spec_get(&self, index: usize) -> Option<T> {
        if index < N {
            Some(self[index as int])
        } else {
            None
        }
    }

    fn get(&self, index: usize) -> (r: Option<&T>) {
        if index < N {
            Some(&self[index])
        } else {
            None
        }
    }
}

impl<T> TryIndex<usize> for Vec<T> {
    type Output = T;

    open spec fn spec_get(&self, index: usize) -> Option<T> {
        if index < self.len() {
            Some(self[index as int])
        } else {
            None
        }
    }

    fn get(&self, index: usize) -> (r: Option<&T>) {
        if index < self.len() {
            Some(&self[index])
        } else {
            None
        }
    }
}

impl<'a, I, D: TryIndex<I>> TryIndex<I> for &'a D {
    type Output = D::Output;

    open spec fn spec_get(&self, index: I) -> Option<D::Output> {
        (**self).spec_get(index)
    }

    fn get(&self, index: I) -> (r: Option<&D::Output>) {
        (**self).get(index)
    }
}

impl<'a, I, D: TryIndex<I>> TryIndex<I> for &'a mut D {
    type Output = D::Output;

    open spec fn spec_get(&self, index: I) -> Option<D::Output> {
        (**self).spec_get(index)
    }

    fn get(&self, index: I) -> (r: Option<&D::Output>) {
        (**self).get(index)
    }
}

/// Typed indices that can be turned into plain offsets per axis and back.
pub trait Indices: Sized {
    /// The plain form: one `usize` per axis.
    type Array;

    /// The plain offsets of these indices.
    fn into_usize(self) -> Self::Array;

    /// The typed indices with the given plain offsets.
    fn from_usize(array: Self::Array) -> Self;
}

/// Indices that convert to an array with one entry per axis.
pub trait IntoArray<T>: Sized {
    /// The array that the indices convert to.
    type Array;

    /// The conversions of the entries are specified, so that
    /// `spec_into_array` says what `into_array` returns.
    spec fn converts() -> bool;

    /// The array of the converted entries.
    spec fn spec_into_array(self) -> Self::Array;

    /// Converts every entry and puts the results in an array.
    fn into_array(self) -> (r: Self::Array)
        ensures
            Self::converts() ==> r == self.spec_into_array(),
    ;
}

impl<const N: usize> IntoArray<usize> for [usize; N] {
    type Array = Self;

    open spec fn converts() -> bool {
        true
    }

    open spec fn spec_into_array(self) -> Self {
        self
    }

    fn into_array(self) -> (r: Self) {
        self
    }
}

impl<A: Into<usize>> IntoArray<usize> for (A,) {
    type Array = [usize; 1];

    open spec fn converts() -> bool {
        <A as IntoSpec<usize>>::obeys_into_spec()
    }

    open spec fn spec_into_array(self) -> [usize; 1] {
        [extent_of(self.0)]
    }

    fn into_array(self) -> (r: [usize; 1]) {
        [self.0.into()]
    }
}

impl<A: Into<usize>, B: Into<usize>> IntoArray<usize> for (A, B) {
    type Array = [usize; 2];

    open spec fn converts() -> bool {
        <A as IntoSpec<usize>>::obeys_into_spec() && <B as IntoSpec<usize>>::obeys_into_spec()
    }

    open spec fn spec_into_array(self) -> [usize; 2] {
        [extent_of(self.0), extent_of(self.1)]
    }

    fn into_array(self) -> (r: [usize; 2]) {
        [self.0.into(), self.1.into()]
    }
}

impl<A: Into<usize>, B: Into<usize>, C: Into<usize>> IntoArray<usize> for (A, B, C) {
    type Array = [usize; 3];

    open spec fn converts() -> bool {
        &&& <A as IntoSpec<usize>>::obeys_into_spec()
        &&& <B as IntoSpec<usize>>::obeys_into_spec()
        &&& <C as IntoSpec<usize>>::obeys_into_spec()
    }

    open spec fn spec_into_array(self) -> [usize; 3] {
        [extent_of(self.0), extent_of(self.1), extent_of(self.2)]
    }

    fn into_array(self) -> (r: [usize; 3]) {
        [self.0.into(), self.1.into(), self.2.into()]
    }
}

impl<N: Into<usize>> IntoArray<usize> for SquareSymmetric<N> {
    type Array = [usize; 2];

    open spec fn converts() -> bool {
        <N as IntoSpec<usize>>::obeys_into_spec()
    }

    open spec fn spec_into_array(self) -> [usize; 2] {
        [extent_of(self.0), extent_of(self.0)]
    }

    fn into_array(self) -> (r: [usize; 2]) {
        let n: usize = self.0.into();
        [n, n]
    }
}

/// Flat storage `D` seen through the indexer `X` and addressed by indices
/// of type `I`.
pub struct Array<D, X, I> {
    data: D,
    indexer: X,
    _index_type: PhantomData<I>,
}

impl<D, X, I> Array<D, X, I> {
    /// The flat storage.
    pub closed spec fn data(&self) -> D {
        self.data
    }

    /// The indexer that places the indices in the storage.
    pub closed spec fn indexer(&self) -> X {
        self.indexer
    }

    /// A view of `data` through `indexer`.
    pub fn new(data: D, indexer: X) -> (r: Self)
        ensures
            r.data() == data,
            r.indexer() == indexer,
    {
        Self { data, indexer, _index_type: PhantomData }
    }

    /// Gives the storage back.
    pub fn into_inner(self) -> (r: D)
        ensures
            r == self.data(),
    {
        self.data
    }
}

impl<D, X, I> Array<D, X, I> where
    D: TryIndex<usize>,
    I: IntoArray<usize>,
    X: Indexer<Expanded = I::Array>,
 {
    /// The indexer can be used and the conversion of the indices is
    /// specified.
    pub open spec fn wf(&self) -> bool {
        self.indexer().wf() && I::converts()
    }

    /// The element that `indices` address: the one that the storage holds at
    /// the offset that the indexer gives them, if both exist.
    pub open spec fn spec_index(&self, indices: I) -> Option<D::Output> {
        match self.indexer().spec_flatten(indices.spec_into_array()) {
            Some(offset) => self.data().spec_get(offset),
            None => None,
        }
    }

    /// The element that `indices` address, or `None` where an index is
    /// outside the extent or the storage is too short.
    pub fn get(&self, indices: I) -> (r: Option<&D::Output>)
        requires
            self.wf(),
        ensures
            r.is_some() == self.spec_index(indices).is_some(),
            r.is_some() ==> *r.unwrap() == self.spec_index(indices).unwrap(),
    {
        match self.indexer.flatten(indices.into_array()) {
            Some(offset) => self.data.get(offset),
            None => None,
        }
    }
}

impl<D, X, I> vstd::std_specs::core::IndexSpecImpl<I> for Array<D, X, I> where
    D: TryIndex<usize>,
    I: IntoArray<usize>,
    X: Indexer<Expanded = I::Array>,
 {
    open spec fn index_req(&self, indices: &I) -> bool {
        self.wf() && self.spec_index(*indices).is_some()
    }
}

impl<D, X, I> Index<I> for Array<D, X, I> where
    D: TryIndex<usize>,
    I: IntoArray<usize>,
    X: Indexer<Expanded = I::Array>,
 {
    type Output = D::Output;

    /// The element that `indices` address. The indices must address one.
    fn index(&self, indices: I) -> (r: &D::Output)
        ensures
            *r == self.spec_index(indices).unwrap(),
    {
        self.get(indices).unwrap()
    }
}

/// Storage whose elements can be changed in place.
pub trait TryIndexMut<I>: TryIndex<I> + Sized {
    /// The element at `index`, to be changed in place, if there is one. No
    /// other element changes.
    fn get_mut(&mut self, index: I) -> (r: Option<&mut Self::Output>)
        ensures
            r.is_some() == old(self).spec_get(index).is_some(),
            forall|other: I|
                other != index ==> #[trigger] (*final(self)).spec_get(other) == old(
                    self,
                ).spec_get(other),
            r matches Some(element) ==> {
                &&& *element == old(self).spec_get(index).unwrap()
                &&& (*final(self)).spec_get(index) == Some(*final(element))
            },
            r.is_none() ==> (*final(self)).spec_get(index).is_none(),
    ;
}

impl<T, const N: usize> TryIndexMut<usize> for [T; N] {
    fn get_mut(&mut self, index: usize) -> (r: Option<&mut T>) {
        if index < N {
            Some(&mut self[index])
        } else {
            None
        }
    }
}

impl<T> TryIndexMut<usize> for Vec<T> {
    fn get_mut(&mut self, index: usize) -> (r: Option<&mut T>) {
        if index < self.len() {
            Some(&mut self[index])
        } else {
            None
        }
    }
}

impl<'a, I, D: TryIndexMut<I>> TryIndexMut<I> for &'a mut D {
    fn get_mut(&mut self, index: I) -> (r: Option<&mut D::Output>) {
        (**self).get_mut(index)
    }
}

impl<D, X, I> Array<D, X, I> where
    D: TryIndexMut<usize>,
    I: IntoArray<usize>,
    X: Indexer<Expanded = I::Array>,
 {
    /// The element that `indices` address, to be changed in place. The
    /// indices must address one. Nothing else in the array changes.
    pub fn index_mut(&mut self, indices: I) -> (r: &mut D::Output)
        requires
            old(self).wf(),
            old(self).spec_index(indices).is_some(),
        ensures
            *r == old(self).spec_index(indices).unwrap(),
            final(self).indexer() == old(self).indexer(),
            (*final(self)).spec_index(indices) == Some(*final(r)),
            forall|offset: usize|
                Some(offset) != old(self).indexer().spec_flatten(indices.spec_into_array())
                    ==> #[trigger] final(self).data().spec_get(offset) == old(
                    self,
                ).data().spec_get(offset),
    {
        let offset = self.indexer.flatten(indices.into_array()).unwrap();
        self.data.get_mut(offset).unwrap()
    }
}

/// In a square table, `expand` undoes `flatten`: the indices of an offset
/// that `flatten` gave are the indices that it was given.
pub proof fn square_expand_undoes_flatten<E0: Copy + Into<usize>>(
    square: Square<E0>,
    indices: [usize; 2],
)
    requires
        square.wf(),
        square.spec_flatten(indices).is_some(),
    ensures
        square.spec_expand(square.spec_flatten(indices).unwrap()) matches Some(back)
            && back@ == indices@,
{
    let e0 = square.extent() as int;
    let i0 = indices[0] as int;
    let i1 = indices[1] as int;
    assert(0 <= i1 * e0 + i0 < e0 * e0) by (nonlinear_arith)
        requires
            0 <= i0 < e0,
            0 <= i1 < e0,
    ;
    lemma_fundamental_div_mod_converse(i1 * e0 + i0, e0, i1, i0);
    let back = square.spec_expand(square.spec_flatten(indices).unwrap()).unwrap();
    assert(back@ =~= indices@);
}

/// In a square table, `flatten` undoes `expand`: the offset of the indices
/// that `expand` gave is the offset that it was given.
pub proof fn square_flatten_undoes_expand<E0: Copy + Into<usize>>(square: Square<E0>, index: usize)
    requires
        square.wf(),
        square.spec_expand(index).is_some(),
    ensures
        square.spec_flatten(square.spec_expand(index).unwrap()) == Some(index),
{
    let e0 = square.extent() as int;
    let i = index as int;
    assert(e0 > 0 && i / e0 < e0) by (nonlinear_arith)
        requires
            0 <= i < e0 * e0,
            0 <= e0,
    ;
    lemma_fundamental_div_mod(i, e0);
    assert(e0 * (i / e0) == (i / e0) * e0) by (nonlinear_arith);
}

/// The packed triangle does not tell a pair of indices from the same pair
/// the other way round.
pub proof fn packed_triangle_is_symmetric(e0: int, i0: int, i1: int)
    ensures
        packed_triangle(e0, i0, i1) == packed_triangle(e0, i1, i0),
{
}

/// The offsets of the packed triangle of an `e0` by `e0` table lie below
/// `e0 * (e0 + 1) / 2`, the number of pairs.
pub proof fn packed_triangle_is_in_bounds(e0: int, i0: int, i1: int)
    requires
        0 <= i0 < e0,
        0 <= i1 < e0,
    ensures
        0 <= packed_triangle(e0, i0, i1) < e0 * (e0 + 1) / 2,
{
    let hi = if i0 >= i1 { i0 } else { i1 };
    let lo = if i0 >= i1 { i1 } else { i0 };
    let steps = lo * (2 * e0 - 1 - lo);
    assert(0 <= steps && steps + 2 * hi + 2 <= e0 * (e0 + 1)) by (nonlinear_arith)
        requires
            0 <= lo <= hi < e0,
            steps == lo * (2 * e0 - 1 - lo),
    ;
}

/// The offset at which row `lo` of the packed triangle starts.
pub open spec fn packed_row_start(e0: int, lo: int) -> int {
    lo + lo * (2 * e0 - 1 - lo) / 2
}

/// Each row of the packed triangle starts where the row above it ends: row
/// `lo` holds the `e0 - lo` columns from `lo` on.
proof fn packed_rows_follow(e0: int, lo: int)
    requires
        0 <= lo < e0,
    ensures
        packed_row_start(e0, lo + 1) == packed_row_start(e0, lo) + (e0 - lo),
{
    let x = lo * (2 * e0 - 1 - lo);
    let y = (lo + 1) * (2 * e0 - 1 - (lo + 1));
    assert(y == x + 2 * (e0 - 1 - lo)) by (nonlinear_arith)
        requires
            x == lo * (2 * e0 - 1 - lo),
            y == (lo + 1) * (2 * e0 - 1 - (lo + 1)),
    ;
}

/// A later row of the packed triangle starts no earlier than the end of an
/// earlier one.
proof fn packed_rows_ascend(e0: int, lo: int, later: int)
    requires
        0 <= lo < later <= e0,
    ensures
        packed_row_start(e0, lo) + (e0 - lo) <= packed_row_start(e0, later),
    decreases later - lo,
{
    packed_rows_follow(e0, lo);
    if lo + 1 < later {
        packed_rows_ascend(e0, lo + 1, later);
        packed_rows_follow(e0, lo + 1);
    }
}

/// Two pairs of indices share an offset in the packed triangle only if they
/// are the same pair, one way round or the other.
pub proof fn packed_triangle_is_injective(e0: int, i0: int, i1: int, j0: int, j1: int)
    requires
        0 <= i0 < e0,
        0 <= i1 < e0,
        0 <= j0 < e0,
        0 <= j1 < e0,
        packed_triangle(e0, i0, i1) == packed_triangle(e0, j0, j1),
    ensures
        (i0 == j0 && i1 == j1) || (i0 == j1 && i1 == j0),
{
    let i_hi = if i0 >= i1 { i0 } else { i1 };
    let i_lo = if i0 >= i1 { i1 } else { i0 };
    let j_hi = if j0 >= j1 { j0 } else { j1 };
    let j_lo = if j0 >= j1 { j1 } else { j0 };
    assert(packed_triangle(e0, i0, i1) == packed_row_start(e0, i_lo) + (i_hi - i_lo));
    assert(packed_triangle(e0, j0, j1) == packed_row_start(e0, j_lo) + (j_hi - j_lo));
    if i_lo < j_lo {
        packed_rows_ascend(e0, i_lo, j_lo);
    } else if j_lo < i_lo {
        packed_rows_ascend(e0, j_lo, i_lo);
    }
}

} // verus!
