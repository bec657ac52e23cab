use with_lock::order::takes_this_first;

#[test]
fn the_lower_address_goes_first() {
    assert!(takes_this_first(1, 2));
    assert!(!takes_this_first(2, 1));
    assert!(takes_this_first(0, usize::MAX));
    assert!(!takes_this_first(usize::MAX, 0));
}

#[test]
fn both_directions_agree() {
    for (one, other) in [(8usize, 16usize), (16, 8), (0, 1), (4096, 4104)] {
        assert_ne!(takes_this_first(one, other), takes_this_first(other, one));
    }
}

#[test]
fn equal_addresses() {
    assert!(takes_this_first(5, 5));
}
