use backend::principal::{is_some_of, Principal};

#[test]
fn principals_compare_byte_for_byte() {
    let a = Principal::new([7; 32]);
    let b = Principal::new([7; 32]);
    assert_eq!(a, b);
    assert_eq!(a.to_bytes(), [7; 32]);
    for i in 0..32 {
        let mut bytes = [7u8; 32];
        bytes[i] = 8;
        assert_ne!(a, Principal::new(bytes));
    }
}

#[test]
fn nobody_is_all_zero() {
    let nobody = Principal::default();
    assert_eq!(nobody.to_bytes(), [0; 32]);
    assert!(nobody.is_nobody());
    assert!(Principal::new([0; 32]).is_nobody());
    let mut bytes = [0u8; 32];
    bytes[31] = 1;
    assert!(!Principal::new(bytes).is_nobody());
}

#[test]
fn optional_principals() {
    let a = Principal::new([1; 32]);
    let b = Principal::new([2; 32]);
    assert!(is_some_of(&Some(a), &a));
    assert!(!is_some_of(&Some(a), &b));
    assert!(!is_some_of(&None, &a));
}

#[test]
fn a_stranger_is_someone_else() {
    let nobody = Principal::default();
    assert_eq!(nobody.stranger().to_bytes(), [255; 32]);
    let someone = Principal::new([3; 32]);
    assert!(someone.stranger().is_nobody());
    for who in [nobody, someone, Principal::new([255; 32])] {
        assert_ne!(who.stranger(), who);
    }
}
