use name_registry::ownership::OwnershipTable;
use name_registry::registry::CommitmentRegistry;
use name_registry::Error;

#[test]
fn registry_starts_empty() {
    let registry = CommitmentRegistry::new();
    assert_eq!(registry.lookup(&[0_u8; 32]), None);
    assert_eq!(registry.lookup(&[255_u8; 32]), None);
}

#[test]
fn registry_keeps_the_first_registration() {
    let mut registry = CommitmentRegistry::new();
    let commitment = [1_u8; 32];
    assert_eq!(registry.register(commitment, 11), Ok(()));
    assert_eq!(registry.lookup(&commitment), Some(11));
    assert_eq!(registry.register(commitment, 12), Err(Error::NameAlreadyRegistered));
    assert_eq!(registry.register(commitment, 11), Err(Error::NameAlreadyRegistered));
    assert_eq!(registry.lookup(&commitment), Some(11));
}

#[test]
fn registry_tells_commitments_apart() {
    let mut registry = CommitmentRegistry::new();
    let mut a = [0_u8; 32];
    let mut b = [0_u8; 32];
    a[0] = 1;
    b[31] = 1;
    assert_eq!(registry.register(a, 1), Ok(()));
    assert_eq!(registry.lookup(&b), None);
    assert_eq!(registry.register(b, 2), Ok(()));
    assert_eq!(registry.register([0_u8; 32], 3), Ok(()));
    assert_eq!(registry.lookup(&a), Some(1));
    assert_eq!(registry.lookup(&b), Some(2));
    assert_eq!(registry.lookup(&[0_u8; 32]), Some(3));
}

#[test]
fn rejected_registration_leaves_the_registry_unchanged() {
    let build = || {
        let mut registry = CommitmentRegistry::new();
        assert_eq!(registry.register([1_u8; 32], 1), Ok(()));
        assert_eq!(registry.register([2_u8; 32], 2), Ok(()));
        registry
    };
    let mut registry = build();
    assert_eq!(registry.register([2_u8; 32], 9), Err(Error::NameAlreadyRegistered));
    assert_eq!(registry, build());
}

#[test]
fn table_starts_empty() {
    let table = OwnershipTable::new();
    assert_eq!(table.lookup(&vec![]), None);
    assert_eq!(table.lookup(&vec![1_u8]), None);
}

#[test]
fn table_keeps_the_first_claim() {
    let mut table = OwnershipTable::new();
    let name = b"name".to_vec();
    assert_eq!(table.claim_internal(name.clone(), 7), Ok(()));
    assert_eq!(table.lookup(&name), Some(7));
    assert_eq!(table.claim_internal(name.clone(), 8), Err(Error::NameAlreadyClaimed));
    assert_eq!(table.claim_internal(name.clone(), 7), Err(Error::NameAlreadyClaimed));
    assert_eq!(table.lookup(&name), Some(7));
}

#[test]
fn table_tells_names_apart() {
    let mut table = OwnershipTable::new();
    assert_eq!(table.claim_internal(vec![1_u8], 1), Ok(()));
    assert_eq!(table.lookup(&vec![1_u8, 0]), None);
    assert_eq!(table.lookup(&vec![]), None);
    assert_eq!(table.claim_internal(vec![1_u8, 0], 2), Ok(()));
    assert_eq!(table.claim_internal(vec![], 3), Ok(()));
    assert_eq!(table.lookup(&vec![1_u8]), Some(1));
    assert_eq!(table.lookup(&vec![1_u8, 0]), Some(2));
    assert_eq!(table.lookup(&vec![]), Some(3));
    assert_eq!(table.lookup(&vec![0_u8, 1]), None);
}

#[test]
fn rejected_claim_leaves_the_table_unchanged() {
    let build = || {
        let mut table = OwnershipTable::new();
        assert_eq!(table.claim_internal(vec![1_u8], 1), Ok(()));
        assert_eq!(table.claim_internal(vec![2_u8], 2), Ok(()));
        table
    };
    let mut table = build();
    assert_eq!(table.claim_internal(vec![1_u8], 9), Err(Error::NameAlreadyClaimed));
    assert_eq!(table, build());
}
