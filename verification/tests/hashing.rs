use name_registry::hashing::{bytes_equal, check_digest, digest};
use name_registry::{Error, Pallet};

fn from_hex(text: &str) -> [u8; 32] {
    let digits: Vec<u8> = text
        .bytes()
        .map(|c| match c {
            b'0'..=b'9' => c - b'0',
            b'a'..=b'f' => c - b'a' + 10,
            _ => panic!("not a hex digit"),
        })
        .collect();
    assert_eq!(digits.len(), 64);
    let mut out = [0_u8; 32];
    for i in 0..32 {
        out[i] = digits[2 * i] * 16 + digits[2 * i + 1];
    }
    out
}

#[test]
fn digest_of_empty_input() {
    assert_eq!(
        digest(&[]),
        from_hex("c5d2460186f7233c927e7db2dcc703c0e500b653ca82273b7bfad8045d85a470")
    );
}

#[test]
fn digest_of_abc() {
    assert_eq!(
        digest(b"abc"),
        from_hex("4e03657aea45a94fc7d47ba826c8d667c0d1e6e33a64a036ec44f58fa12d6c45")
    );
}

#[test]
fn digest_agrees_with_the_host_hash() {
    for name in [vec![], vec![1_u8], vec![9_u8], b"some longer name".to_vec(), vec![0_u8; 200]] {
        assert_eq!(digest(&name), sp_io::hashing::keccak_256(&name));
    }
}

#[test]
fn digest_depends_on_the_input() {
    assert_ne!(digest(&[1_u8]), digest(&[2_u8]));
    assert_ne!(digest(&[]), digest(&[0_u8]));
    assert_eq!(digest(&[1_u8, 2, 3]), digest(&[1_u8, 2, 3]));
}

#[test]
fn bytes_equal_compares_length_and_content() {
    assert!(bytes_equal(&[], &[]));
    assert!(bytes_equal(&[1, 2, 3], &[1, 2, 3]));
    assert!(!bytes_equal(&[1, 2, 3], &[1, 2]));
    assert!(!bytes_equal(&[1, 2], &[1, 2, 3]));
    assert!(!bytes_equal(&[1, 2, 3], &[1, 2, 4]));
    assert!(!bytes_equal(&[0, 2, 3], &[1, 2, 3]));
    assert!(!bytes_equal(&[], &[0]));
}

#[test]
fn check_digest_accepts_only_equal_values() {
    let a = [5_u8; 32];
    let mut b = [5_u8; 32];
    assert_eq!(check_digest(&a, &b), Ok(()));
    b[31] = 6;
    assert_eq!(check_digest(&a, &b), Err(Error::NameNotMatchHash));
    b[31] = 5;
    b[0] = 0;
    assert_eq!(check_digest(&a, &b), Err(Error::NameNotMatchHash));
}

#[test]
fn validate_name_accepts_the_digest_of_the_name() {
    let name = vec![1_u8];
    assert_eq!(Pallet::validate_name(&name, &digest(&name)), Ok(()));
    assert_eq!(
        Pallet::validate_name(
            &Vec::new(),
            &from_hex("c5d2460186f7233c927e7db2dcc703c0e500b653ca82273b7bfad8045d85a470")
        ),
        Ok(())
    );
}

#[test]
fn validate_name_rejects_any_other_value() {
    let name = vec![1_u8];
    assert_eq!(Pallet::validate_name(&name, &[0_u8; 32]), Err(Error::NameNotMatchHash));
    assert_eq!(Pallet::validate_name(&name, &digest(&[2_u8])), Err(Error::NameNotMatchHash));
    let mut padded = [0_u8; 32];
    padded[0] = 1;
    assert_eq!(Pallet::validate_name(&name, &padded), Err(Error::NameNotMatchHash));
}

#[test]
fn digest_of_one_byte() {
    assert_eq!(
        digest(&[1_u8]),
        from_hex("5fe7f977e71dba2ea1a68e21057beebb9be2ac30c6410aa38d4f3fbe41dcffd2")
    );
}
