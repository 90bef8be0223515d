use bmetal::{CritSect, Mutex};

#[test]
fn token_has_no_size() {
    assert_eq!(std::mem::size_of::<CritSect<'static>>(), 0);
    assert_eq!(std::mem::align_of::<CritSect<'static>>(), 1);
}

#[test]
fn token_is_copy() {
    let tok = CritSect::new();
    let copy = tok;
    let cell = Mutex::new(8u8);
    assert_eq!(*cell.borrow(tok), 8);
    assert_eq!(*cell.borrow(copy), 8);
}

#[test]
fn cloned_token_reads_alike() {
    let tok = CritSect::new();
    let cloned = tok.clone();
    let cell = Mutex::new('q');
    assert_eq!(*cell.borrow(tok), *cell.borrow(cloned));
    assert_eq!(*cell.borrow(cloned), 'q');
}

#[test]
fn tokens_format_alike() {
    let a = CritSect::new();
    let b = CritSect::new();
    assert_eq!(format!("{:?}", a), format!("{:?}", b));
    assert!(format!("{:?}", a).starts_with("CritSect"));
}
