use secrets::SecretVec;

#[test]
fn zero_container_reads_as_zeroes() {
    let small = SecretVec::<u64>::zero(1);
    assert_eq!(*small.borrow().elements(), [0]);

    let larger = SecretVec::<u8>::zero(32);
    assert_eq!(*larger.borrow().elements(), vec![0u8; 32]);
}

#[test]
fn initializer_writes_visible_after_reacquire() {
    let secret = SecretVec::<u64>::new(4, |mut s: Vec<u64>| {
        s.clone_from_slice(&[1, 2, 3, 4][..]);
        s
    });

    assert_eq!(*secret.borrow().elements(), [1, 2, 3, 4]);
}

#[test]
fn exclusive_writes_persist_across_release_and_reacquire() {
    let mut secret = SecretVec::<u64>::zero(2);
    {
        let mut w = secret.borrow_mut();
        w.clone_from_slice(&[7, 1][..]);
    }
    assert_eq!(*secret.borrow().elements(), [7, 1]);

    {
        let mut w = secret.borrow_mut();
        w.set(0, 9);
    }
    assert_eq!(*secret.borrow().elements(), [9, 1]);
}

#[test]
fn independent_shared_guards_observe_identical_content() {
    let secret = SecretVec::<u8>::random(8);
    let a = secret.borrow();
    let b = secret.borrow();

    assert_eq!(*a.elements(), *b.elements());
    assert!(a == b);
}

#[test]
fn from_existing_zeroes_the_source() {
    let mut data: Vec<u8> = vec![1, 2, 3, 4];
    let secret = SecretVec::<u8>::from_existing(&mut data);

    assert_eq!(data, [0, 0, 0, 0]);
    assert_eq!(*secret.borrow().elements(), [1, 2, 3, 4]);
}

#[test]
fn equality_detects_differing_content() {
    let mut left: Vec<u8> = vec![1, 2, 3];
    let mut right: Vec<u8> = vec![1, 2, 4];
    let secret_1 = SecretVec::<u8>::from_existing(&mut left);
    let secret_2 = SecretVec::<u8>::from_existing(&mut right);

    assert!(secret_1 != secret_2);
}

#[test]
fn equality_detects_differing_length() {
    let mut left: Vec<u8> = vec![1, 2];
    let mut right: Vec<u8> = vec![1, 2, 3];
    let secret_1 = SecretVec::<u8>::from_existing(&mut left);
    let secret_2 = SecretVec::<u8>::from_existing(&mut right);

    assert!(secret_1 != secret_2);
}

#[test]
fn cross_guard_comparison_uses_dereferenced_views() {
    let mut data: Vec<u64> = vec![5, 6];
    let shared_side = SecretVec::<u64>::from_existing(&mut data);
    let mut exclusive_side = SecretVec::<u64>::zero(2);

    let shared = shared_side.borrow();
    let mut exclusive = exclusive_side.borrow_mut();
    assert!(!shared.constant_eq_mut(&exclusive));
    assert!(!exclusive.constant_eq_shared(&shared));

    exclusive.clone_from_slice(&[5, 6][..]);
    assert!(shared.constant_eq_mut(&exclusive));
    assert!(exclusive.constant_eq_shared(&shared));
}

#[test]
fn exclusive_guards_compare_by_content() {
    let mut secret_1 = SecretVec::<u8>::zero(3);
    let mut secret_2 = SecretVec::<u8>::zero(3);

    assert!(secret_1.borrow_mut() == secret_2.borrow_mut());

    let mut w = secret_1.borrow_mut();
    w.set(1, 42);
    assert!(w != secret_2.borrow_mut());
}

#[test]
fn metadata_queries_report_length_and_byte_size() {
    let secret = SecretVec::<u64>::zero(3);
    assert_eq!(secret.len(), 3);
    assert!(!secret.is_empty());
    assert_eq!(secret.size(), 24);

    let wide = SecretVec::<[u64; 8]>::zero(2);
    assert_eq!(wide.len(), 2);
    assert_eq!(wide.size(), 128);

    let empty = SecretVec::<u8>::zero(0);
    assert!(empty.is_empty());
    assert_eq!(empty.size(), 0);
}

#[test]
fn random_containers_have_requested_length() {
    let bytes = SecretVec::<u8>::random(16);
    assert_eq!(bytes.len(), 16);

    let words = SecretVec::<u64>::random(4);
    assert_eq!(words.len(), 4);

    let pairs = SecretVec::<[u8; 2]>::random(3);
    assert_eq!(pairs.len(), 3);
}

#[test]
fn random_bytes_are_not_all_zero_in_practice() {
    let bytes = SecretVec::<u8>::random(64);
    let zeroes = SecretVec::<u8>::zero(64);
    assert!(bytes != zeroes);
}

#[test]
fn rendering_never_shows_content() {
    let mut data: Vec<u64> = vec![7, 1];
    let mut secret = SecretVec::<u64>::from_existing(&mut data);

    assert_eq!(secret.redacted(), "[REDACTED]");
    assert!(!secret.redacted().contains('7'));

    let shared = secret.borrow();
    assert_eq!(shared.redacted(), "[REDACTED]");
    drop(shared);

    let exclusive = secret.borrow_mut();
    assert_eq!(exclusive.redacted(), "[REDACTED]");
}

#[test]
fn destroy_scrubs_and_releases() {
    let mut data: Vec<u8> = vec![9, 9, 9];
    let secret = SecretVec::<u8>::from_existing(&mut data);
    secret.destroy();
}
