use bcl::field::Field;

#[test]
fn a_new_field_is_empty() {
    let f: Field<u32> = Field::new();
    assert!(f.is_none());
    assert!(!f.is_some());
    assert_eq!(f.get(), None);
    assert_eq!(f.as_ref(), None);
    assert_eq!(f.unwrap_or(9), 9);
}

#[test]
fn set_overwrites() {
    let mut f: Field<u32> = Field::new();
    f.set(Some(1));
    f.set(Some(2));
    assert_eq!(f.get(), Some(2));
    assert_eq!(f.unwrap(), 2);
    assert_eq!(f.unwrap_or(9), 2);
    assert_eq!(f.as_ref(), Some(&2));
    f.set(None);
    assert!(f.is_none());
}

#[test]
fn set_or_err_writes_once() {
    let mut f: Field<String> = Field::new();
    assert_eq!(f.set_or_err(Some("a".to_string()), "twice"), Ok(()));
    assert_eq!(f.set_or_err(Some("b".to_string()), "twice"), Err("twice"));
    assert_eq!(f.get(), Some("a".to_string()));
    assert!(f.is_some());
}

#[test]
fn writing_nothing_leaves_the_field_empty() {
    let mut f: Field<u8> = Field::new();
    assert_eq!(f.set_or_err(None, 0), Ok(()));
    assert!(f.is_none());
    assert_eq!(f.set_or_err(Some(1), 0), Ok(()));
    assert_eq!(f.set_or_err(None, 5), Err(5));
    assert_eq!(f.get(), Some(1));
}
