use nn::math::{
    Array, Indexer, IndexerIter, IntoArray, Square, SquareSymmetric, Static, TryIndex, TryIndexMut,
};

#[derive(Debug, Copy, Clone, Eq, PartialEq, Ord, PartialOrd, Hash)]
struct Col(usize);

impl From<Col> for usize {
    fn from(value: Col) -> Self {
        value.0
    }
}

impl From<usize> for Col {
    fn from(value: usize) -> Self {
        Self(value)
    }
}

#[derive(Debug, Copy, Clone, Eq, PartialEq, Ord, PartialOrd, Hash)]
struct Row(usize);

impl From<Row> for usize {
    fn from(value: Row) -> Self {
        value.0
    }
}

impl From<usize> for Row {
    fn from(value: usize) -> Self {
        Self(value)
    }
}

#[test]
fn sym_tri() {
    let data = &mut [0, 1, 2, 3, 4, 5, 6, 7, 8, 9];
    let view = Array::<_, _, (Col, Row)>::new(data, SquareSymmetric(Static::<4>));

    assert_eq!(std::mem::size_of_val(&view), std::mem::size_of::<usize>(),);

    assert_eq!(view[(Col(0), Row(0))], 0);
    assert_eq!(view[(Col(1), Row(0))], 1);
    assert_eq!(view[(Col(2), Row(0))], 2);
    assert_eq!(view[(Col(3), Row(0))], 3);

    assert_eq!(view[(Col(0), Row(1))], 1);
    assert_eq!(view[(Col(1), Row(1))], 4);
    assert_eq!(view[(Col(2), Row(1))], 5);
    assert_eq!(view[(Col(3), Row(1))], 6);

    assert_eq!(view[(Col(0), Row(2))], 2);
    assert_eq!(view[(Col(1), Row(2))], 5);
    assert_eq!(view[(Col(2), Row(2))], 7);
    assert_eq!(view[(Col(3), Row(2))], 8);

    assert_eq!(view[(Col(0), Row(3))], 3);
    assert_eq!(view[(Col(1), Row(3))], 6);
    assert_eq!(view[(Col(2), Row(3))], 8);
    assert_eq!(view[(Col(3), Row(3))], 9);
}

#[test]
fn square_flatten_is_row_major() {
    let square = Square(3usize);
    assert_eq!(square.flatten([0, 0]), Some(0));
    assert_eq!(square.flatten([2, 0]), Some(2));
    assert_eq!(square.flatten([1, 2]), Some(7));
    assert_eq!(square.flatten([2, 2]), Some(8));
    assert_eq!(square.flatten([3, 0]), None);
    assert_eq!(square.flatten([0, 3]), None);
    assert_eq!(square.len(), 9);
}

#[test]
fn square_expand_undoes_flatten() {
    let square = Square(4usize);
    for i1 in 0..4 {
        for i0 in 0..4 {
            let offset = square.flatten([i0, i1]).unwrap();
            assert_eq!(offset, i1 * 4 + i0);
            assert_eq!(square.expand(offset), Some([i0, i1]));
        }
    }
    assert_eq!(square.expand(15), Some([3, 3]));
    assert_eq!(square.expand(16), None);
    assert_eq!(square.expand(7), Some([3, 1]));
}

#[test]
fn square_of_extent_zero_is_empty() {
    let square = Square(0usize);
    assert_eq!(square.len(), 0);
    assert_eq!(square.flatten([0, 0]), None);
    assert_eq!(square.expand(0), None);
}

#[test]
fn packed_triangle_is_symmetric_dense_and_in_bounds() {
    let indexer = SquareSymmetric(Static::<5>);
    let mut seen = [false; 15];
    for i1 in 0..5 {
        for i0 in i1..5 {
            let offset = indexer.flatten([i0, i1]).unwrap();
            assert_eq!(indexer.flatten([i1, i0]), Some(offset));
            assert!(offset < 15);
            assert!(!seen[offset]);
            seen[offset] = true;
        }
    }
    assert!(seen.iter().all(|s| *s));
    assert_eq!(indexer.flatten([5, 0]), None);
    assert_eq!(indexer.flatten([0, 5]), None);
    assert_eq!(indexer.flatten([3, 1]), Some(3 + 1 * (2 * 5 - 1 - 1) / 2));
}

#[test]
fn symmetric_expand_and_len_are_those_of_the_full_square() {
    let indexer = SquareSymmetric(3usize);
    assert_eq!(indexer.len(), 9);
    assert_eq!(indexer.expand(5), Some([2, 1]));
    assert_eq!(indexer.expand(8), Some([2, 2]));
    assert_eq!(indexer.expand(9), None);
}

#[test]
fn iterator_walks_the_offsets_in_order() {
    let mut iter = Square(2usize).into_iter();
    assert_eq!(iter.len(), 4);
    assert_eq!(iter.size_hint(), (4, Some(4)));
    assert_eq!(iter.next(), Some([0, 0]));
    assert_eq!(iter.next(), Some([1, 0]));
    assert_eq!(iter.len(), 2);
    assert_eq!(iter.next(), Some([0, 1]));
    assert_eq!(iter.next(), Some([1, 1]));
    assert_eq!(iter.next(), None);
    assert_eq!(iter.next(), None);
    assert_eq!(iter.len(), 0);
    assert_eq!(iter.count(), 0);
    let fresh = IndexerIter::new(SquareSymmetric(Static::<3>));
    assert_eq!(fresh.count(), 9);
    assert_eq!(SquareSymmetric(Static::<3>).into_iter().len(), 9);
}

#[test]
fn static_extent_converts_to_its_parameter() {
    assert_eq!(usize::from(Static::<7>), 7);
    assert_eq!(std::mem::size_of::<Static<7>>(), 0);
}

#[test]
fn indices_convert_entry_by_entry() {
    assert_eq!([4usize, 5, 6].into_array(), [4, 5, 6]);
    assert_eq!((Col(3),).into_array(), [3]);
    assert_eq!((Col(3), Row(1)).into_array(), [3, 1]);
    assert_eq!((Col(3), Row(1), Col(2)).into_array(), [3, 1, 2]);
    assert_eq!(SquareSymmetric(Static::<4>).into_array(), [4, 4]);
}

#[test]
fn storage_answers_none_outside() {
    let array = [10, 20, 30];
    assert_eq!(TryIndex::get(&array, 1usize), Some(&20));
    assert_eq!(TryIndex::get(&array, 3usize), None);
    let mut vec = vec![1, 2];
    assert_eq!(TryIndex::get(&vec, 0usize), Some(&1));
    assert_eq!(TryIndex::get(&vec, 2usize), None);
    *TryIndexMut::get_mut(&mut vec, 1usize).unwrap() = 5;
    assert_eq!(vec, vec![1, 5]);
    assert!(TryIndexMut::get_mut(&mut vec, 2usize).is_none());
}

#[test]
fn array_get_and_index_mut() {
    let mut view = Array::<_, _, [usize; 2]>::new(vec![0, 1, 2, 3], Square(2usize));
    assert_eq!(view.get([1, 1]), Some(&3));
    assert_eq!(view.get([2, 0]), None);
    *view.index_mut([0, 1]) = 20;
    assert_eq!(view[[0, 1]], 20);
    assert_eq!(view.into_inner(), vec![0, 1, 20, 3]);
    let short = Array::<_, _, [usize; 2]>::new(vec![0, 1], Square(2usize));
    assert_eq!(short.get([1, 0]), Some(&1));
    assert_eq!(short.get([0, 1]), None);
}
