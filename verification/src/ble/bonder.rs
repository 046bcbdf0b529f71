//! Pairing credentials and the bounded cache that holds them.

use vstd::prelude::*;
use crate::ble::nrf::BONDED_DEVICE_NUM;

verus! {

/// Identity and keys of a paired device.
#[derive(Clone, Copy, Debug, PartialEq, Eq)]
pub struct Peer {
    /// Encrypted diversifier of the master identification.
    pub ediv: u16,
    /// Random number of the master identification.
    pub rand: [u8; 8],
    /// Long term key.
    pub ltk: [u8; 16],
    /// Flags that go with the long term key.
    pub ltk_flags: u8,
    /// Identity resolution key.
    pub irk: [u8; 16],
    /// Flags of the identity address.
    pub addr_flags: u8,
    /// Bytes of the identity address.
    pub addr: [u8; 6],
}

/// System attributes the radio stack keeps for a paired device.
#[derive(Clone, Copy, Debug, PartialEq, Eq)]
pub struct SystemAttribute {
    pub length: usize,
    pub data: [u8; 62],
}

/// One paired device, as it is persisted under its slot.
#[derive(Clone, Copy, Debug, PartialEq, Eq)]
pub struct BondInfo {
    pub slot_num: u8,
    pub peer: Peer,
    pub sys_attr: SystemAttribute,
    pub removed: bool,
}

/// The fixed-capacity map of the `heapless` crate. Verus does not look
/// inside it.
#[verifier::external_type_specification]
#[verifier::external_body]
#[verifier::reject_recursive_types(K)]
#[verifier::reject_recursive_types(V)]
#[verifier::reject_recursive_types(S)]
pub struct ExIndexMap<K, V, S, const N: usize>(heapless::IndexMap<K, V, S, N>);

/// The hasher factory of the `hash32` crate that `heapless::FnvIndexMap` is
/// made with.
#[verifier::external_type_specification]
#[verifier::external_body]
#[verifier::reject_recursive_types(H)]
pub struct ExBuildHasherDefault<H>(hash32::BuildHasherDefault<H>);

/// The hasher of the `hash32` crate that `heapless::FnvIndexMap` hashes its
/// keys with.
#[verifier::external_type_specification]
#[verifier::external_body]
pub struct ExFnvHasher(hash32::FnvHasher);

/// The entries of a map of bonds: what is known of a
/// `heapless::FnvIndexMap` from slot number to bond.
pub uninterp spec fn bond_map_entries(
    map: heapless::FnvIndexMap<u8, BondInfo, BONDED_DEVICE_NUM>,
) -> Map<u8, BondInfo>;

/// `heapless::IndexMap::new`: a map without entries.
#[verifier::external_body]
fn bond_map_new() -> (map: heapless::FnvIndexMap<u8, BondInfo, BONDED_DEVICE_NUM>)
    ensures
        bond_map_entries(map) == (Map::<u8, BondInfo>::empty()),
{
    heapless::FnvIndexMap::new()
}

/// `heapless::IndexMap::len`: the number of entries.
#[verifier::external_body]
fn bond_map_len(map: &heapless::FnvIndexMap<u8, BondInfo, BONDED_DEVICE_NUM>) -> (len: usize)
    ensures
        len == bond_map_entries(*map).dom().len(),
{
    map.len()
}

/// `heapless::IndexMap::get`, with the bond copied out: the entry under
/// `slot`, if there is one.
#[verifier::external_body]
fn bond_map_get(
    map: &heapless::FnvIndexMap<u8, BondInfo, BONDED_DEVICE_NUM>,
    slot: u8,
) -> (found: Option<BondInfo>)
    ensures
        found == (if bond_map_entries(*map).dom().contains(slot) {
            Some(bond_map_entries(*map)[slot])
        } else {
            None
        }),
{
    match map.get(&slot) {
        Some(info) => Some(*info),
        None => None,
    }
}

/// `heapless::IndexMap::insert`. Where `slot` has an entry, its bond is
/// replaced and the old one handed back. Where it has none, the pair is added
/// if an entry is free; in a full map nothing changes and the pair comes back
/// as the error.
#[verifier::external_body]
fn bond_map_insert(
    map: &mut heapless::FnvIndexMap<u8, BondInfo, BONDED_DEVICE_NUM>,
    slot: u8,
    info: BondInfo,
) -> (outcome: Result<Option<BondInfo>, (u8, BondInfo)>)
    ensures
        outcome.is_err() <==> !bond_map_entries(*old(map)).dom().contains(slot)
            && bond_map_entries(*old(map)).dom().len() >= BONDED_DEVICE_NUM,
        match outcome {
            Ok(previous) => {
                &&& bond_map_entries(*final(map)) == bond_map_entries(*old(map)).insert(slot, info)
                &&& previous == (if bond_map_entries(*old(map)).dom().contains(slot) {
                    Some(bond_map_entries(*old(map))[slot])
                } else {
                    None
                })
            },
            Err(rejected) => {
                &&& bond_map_entries(*final(map)) == bond_map_entries(*old(map))
                &&& rejected == (slot, info)
            },
        },
{
    map.insert(slot, info)
}

/// The bonded devices the keyboard knows, by slot number: at most
/// `BONDED_DEVICE_NUM` of them.
pub struct BondCache {
    bonds: heapless::FnvIndexMap<u8, BondInfo, BONDED_DEVICE_NUM>,
}

impl BondCache {
    /// The bonds of the cache, by slot.
    pub closed spec fn view(&self) -> Map<u8, BondInfo> {
        bond_map_entries(self.bonds)
    }

    /// The cache holds finitely many bonds and no more than it has room for.
    pub open spec fn wf(&self) -> bool {
        &&& self@.dom().finite()
        &&& self@.dom().len() <= BONDED_DEVICE_NUM
    }

    /// An empty cache.
    pub fn new() -> (cache: Self)
        ensures
            cache.wf(),
            cache@ == (Map::<u8, BondInfo>::empty()),
    {
        BondCache { bonds: bond_map_new() }
    }

    /// The number of bonds in the cache.
    pub fn len(&self) -> (len: usize)
        requires
            self.wf(),
        ensures
            len == self@.dom().len(),
            len <= BONDED_DEVICE_NUM,
    {
        bond_map_len(&self.bonds)
    }

    /// The bond under `slot`, if there is one.
    pub fn get(&self, slot: u8) -> (found: Option<BondInfo>)
        ensures
            found == (if self@.dom().contains(slot) {
                Some(self@[slot])
            } else {
                None
            }),
    {
        bond_map_get(&self.bonds, slot)
    }

    /// Puts `info` under `slot`. A bond already under `slot` is replaced and
    /// handed back. A new slot is taken while the cache has room; in a full
    /// cache nothing changes and the pair comes back as the error.
    pub fn insert(&mut self, slot: u8, info: BondInfo) -> (outcome: Result<
        Option<BondInfo>,
        (u8, BondInfo),
    >)
        requires
            old(self).wf(),
        ensures
            final(self).wf(),
            outcome.is_err() <==> !old(self)@.dom().contains(slot) && old(self)@.dom().len()
                == BONDED_DEVICE_NUM,
            match outcome {
                Ok(previous) => {
                    &&& final(self)@ == old(self)@.insert(slot, info)
                    &&& previous == (if old(self)@.dom().contains(slot) {
                        Some(old(self)@[slot])
                    } else {
                        None
                    })
                },
                Err(rejected) => {
                    &&& final(self)@ == old(self)@
                    &&& rejected == (slot, info)
                },
            },
    {
        bond_map_insert(&mut self.bonds, slot, info)
    }
}

} // verus!
