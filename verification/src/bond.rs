//! The bond store: the one host that the device is paired with, its keys,
//! and the system attributes of its connection. It lives in memory only.

use arrayvec::ArrayVec;
use vstd::prelude::*;
use vstd::std_specs::cmp::PartialEqSpecImpl;

verus! {

/// Capacity in bytes of the stored system attributes.
pub const SYS_ATTRS_CAPACITY: usize = 62;

/// Identifies the long term key of a bond.
#[derive(Clone, Copy, Debug)]
pub struct MasterId {
    /// Encrypted diversifier.
    pub ediv: u16,
    /// Random number.
    pub rand: [u8; 8],
}

/// The key material of a bond.
#[derive(Clone, Copy, Debug, PartialEq, Eq)]
pub struct EncryptionInfo {
    /// Long term key.
    pub ltk: [u8; 16],
    pub flags: u8,
}

/// A device address on the link.
#[derive(Clone, Copy, Debug, PartialEq, Eq)]
pub struct Address {
    /// Bit 0 says that the address was resolved; bits 1 to 7 hold its type.
    pub flags: u8,
    pub bytes: [u8; 6],
}

/// The stable identity of a host.
#[derive(Clone, Copy, Debug, PartialEq, Eq)]
pub struct IdentityKey {
    /// Identity resolution key.
    pub irk: [u8; 16],
    /// Identity address.
    pub addr: Address,
}

/// One bonded host.
#[derive(Clone, Copy, Debug, PartialEq, Eq)]
pub struct Peer {
    pub master_id: MasterId,
    pub key: EncryptionInfo,
    pub peer_id: IdentityKey,
}

impl PartialEq for MasterId {
    fn eq(&self, other: &MasterId) -> (equal: bool) {
        if self.ediv != other.ediv {
            return false;
        }
        let mut i: usize = 0;
        while i < 8
            invariant
                i <= 8,
                forall|j: int| 0 <= j < i ==> self.rand[j] == other.rand[j],
            decreases 8 - i,
        {
            if self.rand[i] != other.rand[i] {
                return false;
            }
            i += 1;
        }
        assert(self.rand =~= other.rand);
        true
    }
}

impl Eq for MasterId {

}

impl PartialEqSpecImpl for MasterId {
    open spec fn obeys_eq_spec() -> bool {
        true
    }

    open spec fn eq_spec(&self, other: &MasterId) -> bool {
        *self == *other
    }
}

/// What the device can show and take in while pairing.
#[derive(Clone, Copy, Debug, PartialEq, Eq, Structural)]
pub enum IoCapabilities {
    /// Neither a display nor a keyboard.
    NoInputNoOutput,
    DisplayYesNo,
    DisplayOnly,
    KeyboardOnly,
    KeyboardDisplay,
}

/// Whether the device takes up a bond.
#[derive(Clone, Copy, Debug, PartialEq, Eq, Structural)]
pub enum BondPolicy {
    /// No pairing request leads to a bond.
    RejectAll,
    /// The first host to pair is bonded; while it is stored, no other is.
    SinglePeer,
}

/// `arrayvec::ArrayVec`: a vector in an array of fixed capacity. Its
/// inside is not looked into; what it holds goes by [`bytes_of`].
#[verifier::external_type_specification]
#[verifier::external_body]
#[verifier::reject_recursive_types(T)]
pub struct ExArrayVec<T, const CAP: usize>(ArrayVec<T, CAP>);

/// The bytes that a store of system attributes holds.
pub uninterp spec fn bytes_of(v: ArrayVec<u8, 62>) -> Seq<u8>;

/// `ArrayVec::new`: a store that holds no bytes.
#[verifier::external_body]
fn attrs_new() -> (v: ArrayVec<u8, 62>)
    ensures
        bytes_of(v) == Seq::<u8>::empty(),
{
    ArrayVec::new()
}

/// `ArrayVec::clear`: removes every byte.
#[verifier::external_body]
fn attrs_clear(v: &mut ArrayVec<u8, 62>)
    ensures
        bytes_of(*final(v)) == Seq::<u8>::empty(),
{
    v.clear()
}

/// `ArrayVec::try_extend_from_slice`: appends `other` where the capacity
/// that is left takes all of it, and otherwise changes nothing and says so.
#[verifier::external_body]
fn attrs_extend(v: &mut ArrayVec<u8, 62>, other: &[u8]) -> (fits: bool)
    ensures
        fits <==> bytes_of(*old(v)).len() + other@.len() <= 62,
        fits ==> bytes_of(*final(v)) == bytes_of(*old(v)) + other@,
        !fits ==> bytes_of(*final(v)) == bytes_of(*old(v)),
{
    v.try_extend_from_slice(other).is_ok()
}

/// `ArrayVec::truncate`: keeps the first `new_len` bytes, or all of them
/// where there are no more than that.
#[verifier::external_body]
fn attrs_truncate(v: &mut ArrayVec<u8, 62>, new_len: usize)
    ensures
        bytes_of(*final(v)) == if new_len < bytes_of(*old(v)).len() {
            bytes_of(*old(v)).take(new_len as int)
        } else {
            bytes_of(*old(v))
        },
{
    v.truncate(new_len)
}

/// `ArrayVec::is_empty`: whether the store holds no byte.
#[verifier::external_body]
fn attrs_is_empty(v: &ArrayVec<u8, 62>) -> (empty: bool)
    ensures
        empty <==> bytes_of(*v).len() == 0,
{
    v.is_empty()
}

/// `ArrayVec::as_slice`: the stored bytes.
#[verifier::external_body]
fn attrs_as_slice(v: &ArrayVec<u8, 62>) -> (bytes: &[u8])
    ensures
        bytes@ == bytes_of(*v),
{
    v.as_slice()
}

/// The bond store, as plain values.
pub struct BondModel {
    pub policy: BondPolicy,
    /// The bonded host, if there is one.
    pub peer: Option<Peer>,
    /// The system attributes saved for the bonded host.
    pub sys_attrs: Seq<u8>,
}

impl BondModel {
    /// A store that holds no bond.
    pub open spec fn empty(policy: BondPolicy) -> BondModel {
        BondModel { policy, peer: None, sys_attrs: Seq::<u8>::empty() }
    }

    /// Whether a pairing request may lead to a bond.
    pub open spec fn can_bond(self) -> bool {
        self.policy == BondPolicy::SinglePeer && self.peer is None
    }

    /// The store after a bond with `peer`: the peer replaces any other, and
    /// the saved attributes of the other are gone.
    pub open spec fn bonded(self, peer: Peer) -> BondModel {
        BondModel { peer: Some(peer), sys_attrs: Seq::<u8>::empty(), ..self }
    }

    /// The key stored under `master_id`.
    pub open spec fn key_for(self, master_id: MasterId) -> Option<EncryptionInfo> {
        match self.peer {
            Some(peer) => if master_id == peer.master_id {
                Some(peer.key)
            } else {
                None
            },
            None => None,
        }
    }

    /// Whether the connected host is the bonded one, given what the link
    /// layer says of its address and the stored identity.
    pub open spec fn is_bonded_peer(self, identity_matches: bool) -> bool {
        self.peer is Some && identity_matches
    }

    /// The store after the attributes of a connection are saved: the first
    /// `len` bytes of `buffer` for the bonded host, and no change for another.
    pub open spec fn saved(self, identity_matches: bool, buffer: Seq<u8>, len: nat) -> BondModel {
        if self.is_bonded_peer(identity_matches) {
            BondModel {
                sys_attrs: if len < buffer.len() {
                    buffer.take(len as int)
                } else {
                    buffer
                },
                ..self
            }
        } else {
            self
        }
    }

    /// The attributes to hand to a connection: those saved, for the bonded
    /// host and where any are saved.
    pub open spec fn loaded(self, identity_matches: bool) -> Option<Seq<u8>> {
        if self.is_bonded_peer(identity_matches) && self.sys_attrs.len() > 0 {
            Some(self.sys_attrs)
        } else {
            None
        }
    }
}

/// The bond store.
pub struct Bonder {
    policy: BondPolicy,
    peer: Option<Peer>,
    sys_attrs: ArrayVec<u8, 62>,
}

impl View for Bonder {
    type V = BondModel;

    closed spec fn view(&self) -> BondModel {
        BondModel { policy: self.policy, peer: self.peer, sys_attrs: bytes_of(self.sys_attrs) }
    }
}

impl Default for Bonder {
    /// A store that holds no bond and takes up none.
    fn default() -> (bonder: Bonder)
        ensures
            bonder@ == BondModel::empty(BondPolicy::RejectAll),
    {
        Bonder::new(BondPolicy::RejectAll)
    }
}

impl Bonder {
    /// A store that holds no bond.
    pub fn new(policy: BondPolicy) -> (bonder: Bonder)
        ensures
            bonder@ == BondModel::empty(policy),
    {
        Bonder { policy, peer: None, sys_attrs: attrs_new() }
    }

    /// The device has neither a display nor a keyboard for pairing.
    pub fn io_capabilities(&self) -> (capabilities: IoCapabilities)
        ensures
            capabilities == IoCapabilities::NoInputNoOutput,
    {
        IoCapabilities::NoInputNoOutput
    }

    /// Whether a pairing request may lead to a bond: never once a host is
    /// bonded, and before that as the policy says.
    pub fn can_bond(&self) -> (accept: bool)
        ensures
            accept == self@.can_bond(),
    {
        match self.policy {
            BondPolicy::RejectAll => false,
            BondPolicy::SinglePeer => self.peer.is_none(),
        }
    }

    /// Stores the bond with a host. It replaces the bond with any other
    /// host, and the attributes that were saved are dropped.
    pub fn on_bonded(&mut self, master_id: MasterId, key: EncryptionInfo, peer_id: IdentityKey)
        ensures
            final(self)@ == old(self)@.bonded(Peer { master_id, key, peer_id }),
    {
        attrs_clear(&mut self.sys_attrs);
        self.peer = Some(Peer { master_id, key, peer_id });
    }

    /// The key of the bonded host, where `master_id` is the one it was
    /// stored under.
    pub fn get_key(&self, master_id: MasterId) -> (key: Option<EncryptionInfo>)
        ensures
            key == self@.key_for(master_id),
    {
        match self.peer {
            Some(peer) => if master_id == peer.master_id {
                Some(peer.key)
            } else {
                None
            },
            None => None,
        }
    }

    /// The identity of the bonded host, for the link layer to hold an
    /// address against.
    pub fn peer_identity(&self) -> (identity: Option<IdentityKey>)
        ensures
            identity == match self@.peer {
                Some(peer) => Some(peer.peer_id),
                None => None,
            },
    {
        match self.peer {
            Some(peer) => Some(peer.peer_id),
            None => None,
        }
    }

    /// Whether the connected host is the bonded one. `identity_matches` says
    /// whether the link layer found its address to match the stored identity.
    pub fn is_bonded_peer(&self, identity_matches: bool) -> (bonded: bool)
        ensures
            bonded == self@.is_bonded_peer(identity_matches),
    {
        self.peer.is_some() && identity_matches
    }

    /// Saves the system attributes of a connection. `buffer` is what the
    /// link layer filled and `len` the length it reported. For a host that
    /// is not the bonded one, nothing is saved.
    pub fn save_sys_attrs(
        &mut self,
        identity_matches: bool,
        buffer: &[u8; 62],
        len: usize,
    )
        ensures
            final(self)@ == old(self)@.saved(identity_matches, buffer@, len as nat),
    {
        if self.is_bonded_peer(identity_matches) {
            attrs_clear(&mut self.sys_attrs);
            let fits = attrs_extend(&mut self.sys_attrs, buffer.as_slice());
            assert(fits);
            attrs_truncate(&mut self.sys_attrs, len);
        }
    }

    /// The system attributes to hand to a connection: those saved, where
    /// the host is the bonded one and any are saved, and else none.
    pub fn load_sys_attrs(&self, identity_matches: bool) -> (attrs: Option<&[u8]>)
        ensures
            attrs is Some <==> self@.loaded(identity_matches) is Some,
            attrs matches Some(bytes) ==> Some(bytes@) == self@.loaded(identity_matches),
    {
        if self.is_bonded_peer(identity_matches) && !attrs_is_empty(&self.sys_attrs) {
            Some(attrs_as_slice(&self.sys_attrs))
        } else {
            None
        }
    }
}

/// The stored key is returned for the identifier it was stored under, and
/// for no other.
pub proof fn lemma_key_only_for_stored_id(store: BondModel, master_id: MasterId)
    ensures
        store.key_for(master_id) is Some <==> (store.peer is Some
            && store.peer->0.master_id == master_id),
        store.key_for(master_id) matches Some(key) ==> key == store.peer->0.key,
{
}

/// After a bond with a new host, the key of the new host is found under its
/// identifier, and the identifier of the host before it finds nothing.
pub proof fn lemma_new_bond_replaces_old(store: BondModel, previous: Peer, next: Peer)
    requires
        previous.master_id != next.master_id,
    ensures
        store.bonded(previous).bonded(next).key_for(next.master_id) == Some(next.key),
        store.bonded(previous).bonded(next).key_for(previous.master_id) is None,
        store.bonded(previous).bonded(next).peer == Some(next),
{
}

/// A new bond drops the attributes saved for the host before it.
pub proof fn lemma_new_bond_drops_attributes(store: BondModel, peer: Peer, identity_matches: bool)
    ensures
        store.bonded(peer).loaded(identity_matches) is None,
{
}

/// Once a host is bonded, no pairing request leads to another bond,
/// whatever the policy.
pub proof fn lemma_no_second_bond(store: BondModel)
    requires
        store.peer is Some,
    ensures
        !store.can_bond(),
{
}

/// Attributes are saved and handed out for the bonded host only.
pub proof fn lemma_attributes_only_for_bonded_peer(store: BondModel, buffer: Seq<u8>, len: nat)
    ensures
        store.saved(false, buffer, len) == store,
        store.loaded(false) is None,
        store.peer is None ==> store.saved(true, buffer, len) == store,
        store.peer is None ==> store.loaded(true) is None,
{
}

} // verus!
