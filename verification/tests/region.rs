use secrets::Region;

#[test]
fn region_session_lifecycle() {
    let mut region = Region::<u8>::allocate(4);
    assert_eq!(region.len(), 4);

    region.unlock_shared();
    region.unlock_shared();
    assert_eq!(region.read(0), 0);
    assert!(region.verify_canary());
    region.lock_shared();
    region.lock_shared();

    region.unlock_exclusive();
    region.write(0, 5);
    region.write(3, 7);
    region.lock_exclusive();

    assert_eq!(*region.contents(), [5, 0, 0, 7]);
    region.destroy();
}

#[test]
fn region_fill_and_erase() {
    let mut region = Region::<u64>::allocate(2);

    region.unlock_exclusive();
    region.fill_from(&[8, 9][..]);
    region.lock_exclusive();
    assert_eq!(*region.contents(), [8, 9]);

    region.unlock_exclusive();
    region.erase();
    region.lock_exclusive();
    assert_eq!(*region.contents(), [0, 0]);
}
