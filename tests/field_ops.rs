use honey_badger::{Field, NativeField};

#[test]
fn reduces_on_entry() {
    let f = NativeField::new(7);
    assert_eq!(f.modulus(), 7);
    assert_eq!(f.to_u64(f.from_u64(23)), 2);
    assert_eq!(f.to_u64(f.from_u64(u64::MAX)), u64::MAX % 7);
}

#[test]
fn arithmetic_modulo_prime() {
    let f = NativeField::new(13);
    let a = f.from_u64(9);
    let b = f.from_u64(7);
    assert_eq!(f.to_u64(f.add(a, b)), 3);
    assert_eq!(f.to_u64(f.sub(a, b)), 2);
    assert_eq!(f.to_u64(f.sub(b, a)), 11);
    assert_eq!(f.to_u64(f.sub(a, a)), 0);
    assert_eq!(f.to_u64(f.mul(a, b)), 11);
}

#[test]
fn largest_modulus() {
    let p = 2_147_483_647u64;
    let f = NativeField::new(p);
    let a = f.from_u64(p - 1);
    assert_eq!(f.to_u64(f.mul(a, a)), 1);
    assert_eq!(f.to_u64(f.add(a, a)), p - 2);
}
