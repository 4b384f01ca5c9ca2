use secrets::SecretVec;

#[test]
fn it_allows_custom_initialization() {
    let _ = SecretVec::<u64>::new(4, |mut s: Vec<u64>| {
        s.clone_from_slice(&[1, 2, 3, 4][..]);

        assert_eq!(*s, [1, 2, 3, 4]);
        s
    });
}

#[test]
fn it_allows_borrowing_immutably() {
    let secret = SecretVec::<u64>::zero(2);
    let s = secret.borrow();

    assert_eq!(*s.elements(), [0, 0]);
}

#[test]
fn it_allows_borrowing_mutably() {
    let mut secret = SecretVec::<u64>::zero(2);
    let mut s = secret.borrow_mut();

    s.clone_from_slice(&[7, 1][..]);

    assert_eq!(*s.elements(), [7, 1]);
}

#[test]
fn it_allows_storing_fixed_size_arrays() {
    let secret = SecretVec::<[u8; 2]>::new(2, |mut s: Vec<[u8; 2]>| {
        s.clone_from_slice(&[[1, 2], [3, 4]][..]);
        s
    });

    assert_eq!(*secret.borrow().elements(), [[1, 2], [3, 4]]);
}

#[test]
fn it_moves_safely() {
    let secret_1 = SecretVec::<u8>::zero(1);
    let secret_2 = secret_1;

    assert_eq!(*secret_2.borrow().elements(), [0]);
}

#[test]
fn it_safely_clones_immutable_references() {
    let secret = SecretVec::<u8>::random(4);
    let borrow_1 = secret.borrow();
    let borrow_2 = borrow_1.clone();

    assert!(borrow_1 == borrow_2);
}

#[test]
fn it_compares_equality() {
    let mut data: Vec<u8> = vec![1, 2, 3];
    let secret_1 = SecretVec::<u8>::from_existing(&mut data);
    let secret_2 = secret_1.clone();

    assert!(secret_1 == secret_2);
}

#[test]
fn it_compares_inequality() {
    let secret_1 = SecretVec::<[u64; 8]>::random(32);
    let secret_2 = SecretVec::<[u64; 8]>::random(32);

    assert!(secret_1 != secret_2);
}
