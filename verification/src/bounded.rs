//! Contracts for the fixed-capacity `heapless::Vec` collections the fixtures store
//! their data in.
//!
//! Each instantiation gets a name for what it holds and one wrapper per method the
//! verified code calls. Every claim below restates what `heapless` 0.8's `Vec`
//! source does: `push` stores the item only while `len < N` and hands it back
//! otherwise, `extend_from_slice` appends all of `other` when it fits and changes
//! nothing otherwise, `clear` empties, `as_slice` exposes the stored items in order,
//! and no vector ever holds more than its capacity `N`.

use vstd::prelude::*;
use crate::scenario::{EcuNodeConfig, GatewayNodeConfig, GatewayNodeView};

verus! {

/// `heapless::Vec`, a vector stored inline with a fixed capacity `N`.
#[verifier::external_type_specification]
#[verifier::external_body]
#[verifier::reject_recursive_types(T)]
pub struct ExHeaplessVec<T, const N: usize>(heapless::Vec<T, N>);

/// Bytes of one data identifier (at most 64).
pub type DidBytes = heapless::Vec<u8, 64>;

/// The bytes a `heapless::Vec<u8, 64>` holds, in order.
pub uninterp spec fn did_bytes(v: heapless::Vec<u8, 64>) -> Seq<u8>;

/// `heapless::Vec::<u8, 64>::new`: an empty vector.
#[verifier::external_body]
pub fn did_bytes_new() -> (v: DidBytes)
    ensures
        did_bytes(v) == Seq::<u8>::empty(),
{
    heapless::Vec::new()
}

/// `heapless::Vec::<u8, 64>::clear`: removes every byte.
#[verifier::external_body]
pub fn did_bytes_clear(v: &mut DidBytes)
    ensures
        did_bytes(*final(v)) == Seq::<u8>::empty(),
{
    v.clear()
}

/// `heapless::Vec::<u8, 64>::extend_from_slice`: appends `other` when it fits in the
/// 64-byte capacity, else fails and leaves the vector as it was.
#[verifier::external_body]
pub fn did_bytes_extend(v: &mut DidBytes, other: &[u8]) -> (r: Result<(), ()>)
    ensures
        did_bytes(*old(v)).len() + other@.len() <= 64 ==> r is Ok
            && did_bytes(*final(v)) == did_bytes(*old(v)) + other@,
        did_bytes(*old(v)).len() + other@.len() > 64 ==> r is Err
            && did_bytes(*final(v)) == did_bytes(*old(v)),
        did_bytes(*final(v)).len() <= 64,
{
    v.extend_from_slice(other)
}

/// `heapless::Vec::<u8, 64>::as_slice`: the stored bytes.
#[verifier::external_body]
pub fn did_bytes_as_slice(v: &DidBytes) -> (s: &[u8])
    ensures
        s@ == did_bytes(*v),
        s@.len() <= 64,
{
    v.as_slice()
}

/// The identifier table of the DID store: up to 8 identifiers with their bytes.
/// One entry of the DID table: an identifier and its bytes.
pub type DidEntry = (u16, DidBytes);

pub type DidTable = heapless::Vec<DidEntry, 8>;

/// The entries a `heapless::Vec<(u16, heapless::Vec<u8, 64>), 8>` holds, in order,
/// each as its identifier and the bytes of its inner vector.
pub uninterp spec fn did_table(v: heapless::Vec<(u16, heapless::Vec<u8, 64>), 8>) -> Seq<(u16, Seq<u8>)>;

/// `heapless::Vec::<(u16, _), 8>::new`: an empty table.
#[verifier::external_body]
pub fn did_table_new() -> (v: DidTable)
    ensures
        did_table(v) == Seq::<(u16, Seq<u8>)>::empty(),
{
    heapless::Vec::new()
}

/// `heapless::Vec::<(u16, _), 8>::push`: appends `item` while fewer than 8 entries are
/// stored, else hands `item` back and leaves the table as it was.
#[verifier::external_body]
pub fn did_table_push(v: &mut DidTable, item: DidEntry) -> (r: Result<(), DidEntry>)
    ensures
        did_table(*old(v)).len() < 8 ==> r is Ok
            && did_table(*final(v)) == did_table(*old(v)).push((item.0, did_bytes(item.1))),
        did_table(*old(v)).len() >= 8 ==> (r matches Err(back) && back == item)
            && did_table(*final(v)) == did_table(*old(v)),
        did_table(*final(v)).len() <= 8,
{
    v.push(item)
}

/// `heapless::Vec::<(u16, _), 8>::as_slice`: the stored entries in order.
#[verifier::external_body]
pub fn did_table_as_slice(v: &DidTable) -> (s: &[DidEntry])
    ensures
        s@.len() == did_table(*v).len(),
        s@.len() <= 8,
        forall|i: int| 0 <= i < s@.len() ==> did_bytes((#[trigger] s@[i]).1).len() <= 64,
        forall|i: int| 0 <= i < s@.len() ==> (#[trigger] s@[i]).0 == did_table(*v)[i].0
            && did_bytes(s@[i].1) == did_table(*v)[i].1,
{
    v.as_slice()
}

/// Mutable access to the bytes of entry `i` (through `DerefMut` to the slice): the
/// entry's identifier stays, its bytes become whatever the borrow leaves behind.
#[verifier::external_body]
pub fn did_table_bytes_mut(v: &mut DidTable, i: usize) -> (b: &mut DidBytes)
    requires
        i < did_table(*old(v)).len(),
    ensures
        did_bytes(*b) == did_table(*old(v))[i as int].1,
        did_bytes(*b).len() <= 64,
        did_table(*final(v)).len() <= 8,
        did_table(*final(v)) == did_table(*old(v)).update(
            i as int,
            (did_table(*old(v))[i as int].0, did_bytes(*final(b))),
        ),
{
    &mut v[i].1
}

/// The ECUs behind one gateway (at most 8).
pub type EcuList = heapless::Vec<EcuNodeConfig, 8>;

/// The ECU configurations a `heapless::Vec<EcuNodeConfig, 8>` holds, in order.
pub uninterp spec fn ecu_list(v: heapless::Vec<EcuNodeConfig, 8>) -> Seq<EcuNodeConfig>;

/// `heapless::Vec::<EcuNodeConfig, 8>::new`: an empty list.
#[verifier::external_body]
pub fn ecu_list_new() -> (v: EcuList)
    ensures
        ecu_list(v) == Seq::<EcuNodeConfig>::empty(),
{
    heapless::Vec::new()
}

/// `heapless::Vec::<EcuNodeConfig, 8>::push`: appends `item` while fewer than 8 are
/// stored, else hands it back and leaves the list as it was.
#[verifier::external_body]
pub fn ecu_list_push(v: &mut EcuList, item: EcuNodeConfig) -> (r: Result<(), EcuNodeConfig>)
    ensures
        ecu_list(*old(v)).len() < 8 ==> r is Ok && ecu_list(*final(v)) == ecu_list(*old(v)).push(item),
        ecu_list(*old(v)).len() >= 8 ==> (r matches Err(back) && back == item)
            && ecu_list(*final(v)) == ecu_list(*old(v)),
        ecu_list(*final(v)).len() <= 8,
{
    v.push(item)
}

/// `heapless::Vec::<EcuNodeConfig, 8>::as_slice`: the stored items in order.
#[verifier::external_body]
pub fn ecu_list_as_slice(v: &EcuList) -> (s: &[EcuNodeConfig])
    ensures
        s@ == ecu_list(*v),
        s@.len() <= 8,
{
    v.as_slice()
}

/// The gateways of a scenario (at most 4).
pub type GatewayList = heapless::Vec<GatewayNodeConfig, 4>;

/// The gateway configurations a `heapless::Vec<GatewayNodeConfig, 4>` holds, in
/// order, each by its view.
pub uninterp spec fn gateway_list(v: heapless::Vec<GatewayNodeConfig, 4>) -> Seq<GatewayNodeView>;

/// `heapless::Vec::<GatewayNodeConfig, 4>::new`: an empty list.
#[verifier::external_body]
pub fn gateway_list_new() -> (v: GatewayList)
    ensures
        gateway_list(v) == Seq::<GatewayNodeView>::empty(),
{
    heapless::Vec::new()
}

/// `heapless::Vec::<GatewayNodeConfig, 4>::push`: appends `item` while fewer than 4
/// are stored, else hands it back and leaves the list as it was.
#[verifier::external_body]
pub fn gateway_list_push(v: &mut GatewayList, item: GatewayNodeConfig) -> (r: Result<(), GatewayNodeConfig>)
    ensures
        gateway_list(*old(v)).len() < 4 ==> r is Ok
            && gateway_list(*final(v)) == gateway_list(*old(v)).push(item@),
        gateway_list(*old(v)).len() >= 4 ==> (r matches Err(back) && back == item)
            && gateway_list(*final(v)) == gateway_list(*old(v)),
        gateway_list(*final(v)).len() <= 4,
{
    v.push(item)
}

/// `heapless::Vec::<GatewayNodeConfig, 4>::clear`: removes every gateway.
#[verifier::external_body]
pub fn gateway_list_clear(v: &mut GatewayList)
    ensures
        gateway_list(*final(v)) == Seq::<GatewayNodeView>::empty(),
{
    v.clear()
}

/// `heapless::Vec::<GatewayNodeConfig, 4>::as_slice`: the stored items in order.
#[verifier::external_body]
pub fn gateway_list_as_slice(v: &GatewayList) -> (s: &[GatewayNodeConfig])
    ensures
        s@.len() == gateway_list(*v).len(),
        s@.len() <= 4,
        forall|i: int| 0 <= i < s@.len() ==> (#[trigger] s@[i])@ == gateway_list(*v)[i],
{
    v.as_slice()
}

} // verus!
