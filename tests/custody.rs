use chain_custody::{
    initialize_material, transfer_material, CustodyError, Identity, InitializeMaterial, Material,
    TransferMaterial,
};

fn party(tag: u8) -> Identity {
    Identity::new([tag; 32])
}

fn create(id: &str, creator: Identity) -> Material {
    initialize_material(&InitializeMaterial { initializer: creator }, id)
}

fn attempt(record: Material, signer: Identity, new_holder: Identity) -> (Material, Result<(), CustodyError>) {
    let mut ctx = TransferMaterial { material_account: record, current_holder: signer };
    let r = transfer_material(&mut ctx, new_holder);
    assert_eq!(ctx.current_holder, signer);
    (ctx.material_account, r)
}

#[test]
fn create_sets_initial_state() {
    let alice = party(1);
    for id in ["", "A", "BATCH-42", "ABCDEFGHIJKLMNOPQRSTUVWXYZ"] {
        let m = create(id, alice);
        assert_eq!(m.current_holder, alice);
        assert_eq!(m.last_sequence, 0);
    }
}

#[test]
fn long_identifier_is_truncated() {
    let m = create("ABCDEFGHIJKLMNOPQRSTUVWXYZ", party(1));
    assert_eq!(&m.id[..], b"ABCDEFGHIJKLMNOPQRST");
}

#[test]
fn short_identifier_is_zero_padded() {
    let m = create("X", party(1));
    let mut expected = [0u8; 20];
    expected[0] = b'X';
    assert_eq!(m.id, expected);
}

#[test]
fn identifier_of_exactly_max_length_is_kept() {
    let m = create("ABCDEFGHIJKLMNOPQRST", party(1));
    assert_eq!(&m.id[..], b"ABCDEFGHIJKLMNOPQRST");
}

#[test]
fn empty_identifier_is_all_zeros() {
    let m = create("", party(1));
    assert_eq!(m.id, [0u8; 20]);
}

#[test]
fn multibyte_identifier_is_cut_by_bytes() {
    // each 'é' is two bytes in UTF-8
    let m = create("ééééééééééé", party(1));
    let bytes = "ééééééééééé".as_bytes();
    assert_eq!(&m.id[..], &bytes[..20]);
}

#[test]
fn custody_scenario() {
    let alice = party(1);
    let bob = party(2);
    let carol = party(3);
    let m = create("BATCH-42", alice);
    assert_eq!(m.current_holder, alice);
    assert_eq!(m.last_sequence, 0);
    assert_eq!(&m.id[..8], b"BATCH-42");

    let (m, r) = attempt(m, alice, bob);
    assert_eq!(r, Ok(()));
    assert_eq!(m.current_holder, bob);
    assert_eq!(m.last_sequence, 1);

    let (m, r) = attempt(m, alice, carol);
    assert_eq!(r, Err(CustodyError::UnauthorizedTransfer));
    assert_eq!(m.current_holder, bob);
    assert_eq!(m.last_sequence, 1);

    let (m, r) = attempt(m, bob, carol);
    assert_eq!(r, Ok(()));
    assert_eq!(m.current_holder, carol);
    assert_eq!(m.last_sequence, 2);
    assert_eq!(&m.id[..8], b"BATCH-42");
}

#[test]
fn unauthorized_transfer_leaves_record_unchanged() {
    let alice = party(1);
    let mallory = party(9);
    let m = create("LOT-7", alice);
    let (after, r) = attempt(m, mallory, mallory);
    assert_eq!(r, Err(CustodyError::UnauthorizedTransfer));
    assert_eq!(after, m);
}

#[test]
fn signer_differing_in_one_byte_is_refused() {
    let alice = party(1);
    let mut near = [1u8; 32];
    near[31] = 0;
    let m = create("LOT-7", alice);
    let (after, r) = attempt(m, Identity::new(near), party(2));
    assert_eq!(r, Err(CustodyError::UnauthorizedTransfer));
    assert_eq!(after, m);
}

#[test]
fn self_transfer_advances_sequence() {
    let alice = party(1);
    let m = create("SELF", alice);
    let (m, r) = attempt(m, alice, alice);
    assert_eq!(r, Ok(()));
    assert_eq!(m.current_holder, alice);
    assert_eq!(m.last_sequence, 1);
}

#[test]
fn sequence_counts_successful_transfers() {
    let mut m = create("CHAIN", party(0));
    for n in 1..=50u8 {
        let holder = m.current_holder;
        assert_eq!(m.last_sequence, (n - 1) as u64);
        let (next, r) = attempt(m, holder, party(n));
        assert_eq!(r, Ok(()));
        m = next;
        assert_eq!(m.last_sequence, n as u64);
        assert_eq!(m.current_holder, party(n));
    }
}

#[test]
fn transfer_at_high_sequence() {
    let alice = party(1);
    let mut m = create("OLD", alice);
    m.last_sequence = u64::MAX - 1;
    let (m, r) = attempt(m, alice, party(2));
    assert_eq!(r, Ok(()));
    assert_eq!(m.last_sequence, u64::MAX);
}

#[test]
fn record_size_constants() {
    assert_eq!(Material::MAX_ID_LEN, 20);
    assert_eq!(Material::SIZE, 68);
}

#[test]
fn identities_compare_by_bytes() {
    assert!(party(4).same_as(&party(4)));
    assert!(!party(4).same_as(&party(5)));
}
