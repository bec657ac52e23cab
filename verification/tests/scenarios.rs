use with_lock::MutexCell;

#[test]
fn end_to_end() {
    let a = MutexCell::new(2);
    let b = MutexCell::new(3);
    assert_eq!(a.get() + b.get(), 5);
    b.set(4);
    assert_eq!(a.get() + b.get(), 6);
    a.swap(&b);
    assert_eq!(a.get(), 4);
    assert_eq!(b.get(), 2);
    assert_eq!(a.replace(5), 4);
    assert_eq!(a.get(), 5);
    assert_eq!(a.take(), 5);
    assert_eq!(a.into_inner(), 0);
}

#[test]
fn new_then_get() {
    for x in [i64::MIN, -1, 0, 1, 42, i64::MAX] {
        assert_eq!(MutexCell::new(x).get(), x);
    }
}

#[test]
fn set_then_get() {
    let cell = MutexCell::new('x');
    for y in ['a', 'x', '\0', 'z'] {
        cell.set(y);
        assert_eq!(cell.get(), y);
    }
}

#[test]
fn replace_returns_the_prior_value() {
    let cell = MutexCell::new(String::from("one"));
    assert_eq!(cell.replace(String::from("two")), "one");
    assert_eq!(cell.replace(String::from("three")), "two");
    assert_eq!(cell.into_inner(), "three");
}

#[test]
fn swap_works_in_both_directions() {
    let a = MutexCell::new(1u8);
    let b = MutexCell::new(2u8);
    a.swap(&b);
    assert_eq!((a.get(), b.get()), (2, 1));
    b.swap(&a);
    assert_eq!((a.get(), b.get()), (1, 2));
    b.swap(&a);
    a.swap(&b);
    assert_eq!((a.get(), b.get()), (1, 2));
}

#[test]
fn swap_of_cells_in_a_row() {
    let cells = [MutexCell::new(0usize), MutexCell::new(1), MutexCell::new(2)];
    cells[0].swap(&cells[2]);
    cells[2].swap(&cells[1]);
    cells[1].swap(&cells[0]);
    assert_eq!(cells[0].get(), 0);
    assert_eq!(cells[1].get(), 2);
    assert_eq!(cells[2].get(), 1);
}

#[test]
fn swap_moves_values_that_cannot_be_copied() {
    let a = MutexCell::new(vec![1, 2, 3]);
    let b = MutexCell::new(Vec::new());
    a.swap(&b);
    assert_eq!(a.into_inner(), Vec::<i32>::new());
    assert_eq!(b.into_inner(), vec![1, 2, 3]);
}

#[test]
fn swap_with_itself_changes_nothing() {
    let cell = MutexCell::new(String::from("same"));
    cell.swap(&cell);
    cell.swap(&cell);
    assert_eq!(cell.into_inner(), "same");
}

#[test]
fn swap_of_two_cells_with_equal_values() {
    let a = MutexCell::new(7);
    let b = MutexCell::new(7);
    a.swap(&b);
    a.set(8);
    assert_eq!(a.get(), 8);
    assert_eq!(b.get(), 7);
}

#[test]
fn take_leaves_the_default() {
    let number = MutexCell::new(5u16);
    assert_eq!(number.take(), 5);
    assert_eq!(number.get(), 0);
    assert_eq!(number.take(), 0);

    let text = MutexCell::new(String::from("full"));
    assert_eq!(text.take(), "full");
    assert_eq!(text.into_inner(), "");

    let maybe = MutexCell::new(Some(3));
    assert_eq!(maybe.take(), Some(3));
    assert_eq!(maybe.get(), None);

    let flag = MutexCell::new(true);
    assert!(flag.take());
    assert!(!flag.get());
}

#[test]
fn get_mut_reaches_the_value_in_the_cell() {
    let mut cell = MutexCell::new(10u32);
    *cell.get_mut() = 11;
    assert_eq!(cell.get(), 11);
    cell.set(12);
    assert_eq!(*cell.get_mut(), 12);
    *cell.get_mut() *= 2;
    assert_eq!(cell.into_inner(), 24);
}

#[test]
fn into_inner_returns_the_last_value_stored() {
    let cell = MutexCell::new(1);
    assert_eq!(MutexCell::new(1).into_inner(), 1);
    cell.set(2);
    cell.replace(3);
    cell.set(4);
    assert_eq!(cell.into_inner(), 4);
}

fn shared_by_threads<T: Send + Sync>() {}

#[test]
fn cells_can_be_shared_between_threads() {
    shared_by_threads::<MutexCell<i32>>();
    shared_by_threads::<MutexCell<String>>();
}

struct Counted {
    label: u8,
    drops: std::rc::Rc<std::cell::Cell<u32>>,
}

impl Drop for Counted {
    fn drop(&mut self) {
        self.drops.set(self.drops.get() + 1);
    }
}

#[test]
fn set_drops_the_value_it_overwrites_once() {
    let drops = std::rc::Rc::new(std::cell::Cell::new(0));
    let cell = MutexCell::new(Counted { label: 1, drops: drops.clone() });
    cell.set(Counted { label: 2, drops: drops.clone() });
    assert_eq!(drops.get(), 1);
    let prior = cell.replace(Counted { label: 3, drops: drops.clone() });
    assert_eq!(prior.label, 2);
    assert_eq!(drops.get(), 1);
    let last = cell.into_inner();
    assert_eq!(last.label, 3);
    assert_eq!(drops.get(), 1);
    drop(prior);
    drop(last);
    assert_eq!(drops.get(), 3);
}

#[test]
fn swap_drops_nothing() {
    let drops = std::rc::Rc::new(std::cell::Cell::new(0));
    let a = MutexCell::new(Counted { label: 1, drops: drops.clone() });
    let b = MutexCell::new(Counted { label: 2, drops: drops.clone() });
    a.swap(&b);
    b.swap(&a);
    a.swap(&b);
    assert_eq!(drops.get(), 0);
    assert_eq!(a.into_inner().label, 2);
    assert_eq!(b.into_inner().label, 1);
    assert_eq!(drops.get(), 2);
}
