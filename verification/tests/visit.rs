use with_lock::visit::{exchange, read, store, trade};

#[test]
fn read_copies_the_value() {
    let held = 17u64;
    assert_eq!(read(&held), 17);
    assert_eq!(held, 17);
}

#[test]
fn store_overwrites_the_value() {
    let mut held = String::from("before");
    store(&mut held, String::from("after"));
    assert_eq!(held, "after");
}

#[test]
fn exchange_returns_the_prior_value() {
    let mut held = vec![1, 2];
    let prior = exchange(&mut held, vec![3]);
    assert_eq!(prior, vec![1, 2]);
    assert_eq!(held, vec![3]);
}

#[test]
fn trade_exchanges_two_values() {
    let mut one = 'a';
    let mut other = 'b';
    trade(&mut one, &mut other);
    assert_eq!((one, other), ('b', 'a'));
}
