use std::cell::Cell;

use feat::collect;
use feat::empty;
use feat::lazy;
use feat::singleton;
use feat::Finite;
use feat::Natural;

#[test]
fn finite_it_works() {
    assert!(empty::<()>().iter().len() == 0)
}

#[test]
fn lib_it_works() {}

#[test]
fn empty_has_no_elements() {
    let e = empty::<u32>();
    assert_eq!(e.len(), 0);
}

#[test]
fn empty_iteration_yields_nothing() {
    let e = empty::<u32>();
    let mut it = e.iter();
    assert_eq!(it.size_hint(), (0, Some(0)));
    assert!(it.next().is_none());
    assert!(it.next().is_none());
}

#[test]
fn singleton_holds_one_value() {
    let s = singleton(9u32);
    assert_eq!(s.len(), 1);
    assert_eq!(s.index(0), 9);
}

#[test]
fn lazy_computes_on_each_access() {
    let calls = Cell::new(0u32);
    let l = lazy(|| {
        calls.set(calls.get() + 1);
        5u32
    });
    assert_eq!(l.len(), 1);
    assert_eq!(l.index(0), 5);
    assert_eq!(l.index(0), 5);
    assert_eq!(calls.get(), 2);
}

#[test]
fn natural_counts_up_from_zero() {
    let n = Natural(4);
    assert_eq!(n.len(), 4);
    assert_eq!(n.index(0), 0);
    assert_eq!(n.index(3), 3);
}

#[test]
fn union_concatenates() {
    let u = Natural(5).union(Natural(3));
    assert_eq!(u.len(), 8);
    assert_eq!(u.index(0), 0);
    assert_eq!(u.index(4), 4);
    assert_eq!(u.index(5), 0);
    assert_eq!(u.index(7), 2);
}

#[test]
fn union_of_mixed_shapes() {
    let u = singleton(10usize).union(Natural(2));
    assert_eq!(u.len(), 3);
    assert_eq!(u.index(0), 10);
    assert_eq!(u.index(1), 0);
    assert_eq!(u.index(2), 1);
}

#[test]
fn map_applies_the_function() {
    let m = Natural(5).map(|i| i.to_string());
    assert_eq!(m.len(), 5);
    assert_eq!(m.index(0), "0");
    assert_eq!(m.index(4), "4");
}

#[test]
fn map_keeps_positions() {
    let m = Natural(3).map(|i| 2 * i);
    assert_eq!(m.len(), 3);
    assert_eq!(m.index(0), 0);
    assert_eq!(m.index(1), 2);
    assert_eq!(m.index(2), 4);
}

#[test]
fn product_pairs_row_major_at_an_index() {
    let p = Natural(3).product(Natural(5));
    assert_eq!(p.len(), 15);
    assert_eq!(p.index(7), (1, 2));
}

#[test]
fn product_enumerates_all_pairs_in_order() {
    let p = Natural(2).product(Natural(3));
    assert_eq!(p.len(), 6);
    let mut it = p.iter();
    let expected = vec![(0, 0), (0, 1), (0, 2), (1, 0), (1, 1), (1, 2)];
    for e in expected {
        assert_eq!(it.next(), Some(e));
    }
    assert!(it.next().is_none());
}

#[test]
fn product_with_an_empty_side_is_empty() {
    let p = Natural(4).product(empty::<u32>());
    assert_eq!(p.len(), 0);
    assert!(p.iter().next().is_none());
}

#[test]
fn iteration_matches_random_access() {
    let c = Natural(5).union(Natural(3));
    let mut it = (&c).iter();
    let mut yielded = Vec::new();
    while let Some(v) = it.next() {
        yielded.push(v);
    }
    assert_eq!(yielded.len(), c.len());
    for (k, v) in yielded.iter().enumerate() {
        assert_eq!(*v, c.index(k));
    }
}

#[test]
fn iterator_reports_exact_size_as_it_goes() {
    let n = Natural(3);
    let mut it = n.iter();
    assert_eq!(it.size_hint(), (3, Some(3)));
    assert_eq!(it.len(), 3);
    it.next();
    assert_eq!(it.size_hint(), (2, Some(2)));
    assert_eq!(it.len(), 2);
    it.next();
    it.next();
    assert_eq!(it.size_hint(), (0, Some(0)));
    assert!(it.next().is_none());
}

#[test]
fn a_collection_can_be_iterated_twice() {
    let n = Natural(3);
    let mut first = n.iter();
    let mut count: u32 = 0;
    while first.next().is_some() {
        count += 1;
    }
    assert_eq!(count, 3);
    let mut second = n.iter();
    assert_eq!(second.next(), Some(0));
}

#[test]
fn collect_materializes_in_order() {
    let c = Natural(2).product(Natural(2));
    assert_eq!(collect(&c), vec![(0, 0), (0, 1), (1, 0), (1, 1)]);
    assert_eq!(collect(&empty::<u32>()), Vec::<u32>::new());
    assert_eq!(collect(&Natural(4)), vec![0, 1, 2, 3]);
}

#[test]
fn combinators_compose() {
    let c = Natural(2).product(Natural(2)).map(|(a, b)| a + b).union(singleton(9usize));
    assert_eq!(c.len(), 5);
    assert_eq!(c.index(0), 0);
    assert_eq!(c.index(1), 1);
    assert_eq!(c.index(2), 1);
    assert_eq!(c.index(3), 2);
    assert_eq!(c.index(4), 9);
}
