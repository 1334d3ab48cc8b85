use mesozoic::bond::{
    Address, BondPolicy, Bonder, EncryptionInfo, IdentityKey, IoCapabilities, MasterId,
};

fn master(ediv: u16, last: u8) -> MasterId {
    MasterId { ediv, rand: [1, 2, 3, 4, 5, 6, 7, last] }
}

fn key(fill: u8) -> EncryptionInfo {
    EncryptionInfo { ltk: [fill; 16], flags: 0x21 }
}

fn identity(fill: u8) -> IdentityKey {
    IdentityKey { irk: [fill; 16], addr: Address { flags: 0x02, bytes: [fill; 6] } }
}

fn buffer(len: usize) -> [u8; 62] {
    let mut buffer = [0u8; 62];
    for (i, byte) in buffer.iter_mut().enumerate().take(len) {
        *byte = (i + 1) as u8;
    }
    buffer
}

#[test]
fn empty_store_knows_no_key() {
    let bonder = Bonder::default();
    assert_eq!(bonder.get_key(master(1, 1)), None);
    assert_eq!(bonder.peer_identity(), None);
    assert_eq!(bonder.load_sys_attrs(true), None);
    assert!(!bonder.is_bonded_peer(true));
    assert_eq!(bonder.io_capabilities(), IoCapabilities::NoInputNoOutput);
}

#[test]
fn key_is_returned_for_the_stored_id_only() {
    let mut bonder = Bonder::default();
    bonder.on_bonded(master(7, 8), key(0xAA), identity(3));
    assert_eq!(bonder.get_key(master(7, 8)), Some(key(0xAA)));
    assert_eq!(bonder.get_key(master(7, 9)), None);
    assert_eq!(bonder.get_key(master(8, 8)), None);
    assert_eq!(bonder.get_key(MasterId { ediv: 7, rand: [0, 2, 3, 4, 5, 6, 7, 8] }), None);
    assert_eq!(bonder.peer_identity(), Some(identity(3)));
}

#[test]
fn new_bond_replaces_the_old_one() {
    let mut bonder = Bonder::default();
    bonder.on_bonded(master(1, 1), key(0x11), identity(1));
    bonder.save_sys_attrs(true, &buffer(10), 10);
    assert!(bonder.load_sys_attrs(true).is_some());

    bonder.on_bonded(master(2, 2), key(0x22), identity(2));
    assert_eq!(bonder.get_key(master(1, 1)), None);
    assert_eq!(bonder.get_key(master(2, 2)), Some(key(0x22)));
    assert_eq!(bonder.peer_identity(), Some(identity(2)));
    // The attributes of the host before are gone.
    assert_eq!(bonder.load_sys_attrs(true), None);
}

#[test]
fn default_policy_never_bonds() {
    let mut bonder = Bonder::default();
    assert!(!bonder.can_bond());
    bonder.on_bonded(master(1, 1), key(1), identity(1));
    assert!(!bonder.can_bond());
    let bonder = Bonder::new(BondPolicy::RejectAll);
    assert!(!bonder.can_bond());
}

#[test]
fn single_peer_policy_bonds_once() {
    let mut bonder = Bonder::new(BondPolicy::SinglePeer);
    assert!(bonder.can_bond());
    bonder.on_bonded(master(1, 1), key(1), identity(1));
    assert!(!bonder.can_bond());
}

#[test]
fn attributes_are_cut_to_the_reported_length() {
    let mut bonder = Bonder::default();
    bonder.on_bonded(master(1, 1), key(1), identity(1));
    bonder.save_sys_attrs(true, &buffer(62), 5);
    assert_eq!(bonder.load_sys_attrs(true), Some(&[1u8, 2, 3, 4, 5][..]));
    // A later save replaces what was saved.
    bonder.save_sys_attrs(true, &buffer(62), 3);
    assert_eq!(bonder.load_sys_attrs(true), Some(&[1u8, 2, 3][..]));
    bonder.save_sys_attrs(true, &buffer(62), 62);
    assert_eq!(bonder.load_sys_attrs(true), Some(&buffer(62)[..]));
    bonder.save_sys_attrs(true, &buffer(62), 1000);
    assert_eq!(bonder.load_sys_attrs(true), Some(&buffer(62)[..]));
}

#[test]
fn attributes_of_another_host_are_not_saved() {
    let mut bonder = Bonder::default();
    // No host is bonded.
    bonder.save_sys_attrs(true, &buffer(62), 5);
    assert_eq!(bonder.load_sys_attrs(true), None);

    bonder.on_bonded(master(1, 1), key(1), identity(1));
    bonder.save_sys_attrs(false, &buffer(62), 5);
    assert_eq!(bonder.load_sys_attrs(true), None);

    bonder.save_sys_attrs(true, &buffer(62), 4);
    bonder.save_sys_attrs(false, &buffer(62), 9);
    assert_eq!(bonder.load_sys_attrs(true), Some(&[1u8, 2, 3, 4][..]));
}

#[test]
fn attributes_are_loaded_for_the_bonded_host_only() {
    let mut bonder = Bonder::default();
    bonder.on_bonded(master(1, 1), key(1), identity(1));
    bonder.save_sys_attrs(true, &buffer(62), 2);
    assert_eq!(bonder.load_sys_attrs(false), None);
    assert_eq!(bonder.load_sys_attrs(true), Some(&[1u8, 2][..]));
    assert!(bonder.is_bonded_peer(true));
    assert!(!bonder.is_bonded_peer(false));
}

#[test]
fn empty_attributes_are_not_handed_out() {
    let mut bonder = Bonder::default();
    bonder.on_bonded(master(1, 1), key(1), identity(1));
    assert_eq!(bonder.load_sys_attrs(true), None);
    bonder.save_sys_attrs(true, &buffer(62), 0);
    assert_eq!(bonder.load_sys_attrs(true), None);
}

#[test]
fn master_ids_compare_by_all_fields() {
    assert!(master(1, 1) == master(1, 1));
    assert!(master(1, 1) != master(2, 1));
    assert!(master(1, 1) != master(1, 2));
    for i in 0..8 {
        let mut other = master(1, 8);
        other.rand[i] ^= 0x80;
        assert!(master(1, 8) != other);
    }
}
