use ore_hq_server::decimal::push_decimal;
use ore_hq_server::keyed::{bytes32_eq, PubkeyMap};

#[test]
fn map_insert_get_replace_clear() {
    let mut m: PubkeyMap<u64> = PubkeyMap::new();
    assert_eq!(m.get(&[1; 32]), None);
    m.insert([1; 32], 10);
    m.insert([2; 32], 20);
    m.insert([1; 32], 11);
    assert_eq!(m.len(), 2);
    assert_eq!(m.get(&[1; 32]), Some(11));
    assert_eq!(m.get(&[2; 32]), Some(20));
    assert_eq!(m.entry(0), ([1; 32], 11));
    assert_eq!(m.position(&[2; 32]), Some(1));
    m.clear();
    assert_eq!(m.len(), 0);
    assert_eq!(m.get(&[2; 32]), None);
}

#[test]
fn byte_comparison() {
    let mut a = [0u8; 32];
    assert!(bytes32_eq(&a, &[0u8; 32]));
    a[31] = 1;
    assert!(!bytes32_eq(&a, &[0u8; 32]));
}

#[test]
fn decimal_digits() {
    for n in [0u64, 7, 10, 99, 1234567890, u64::MAX] {
        let mut s = String::from("x");
        push_decimal(&mut s, n);
        assert_eq!(s, format!("x{}", n));
    }
}
