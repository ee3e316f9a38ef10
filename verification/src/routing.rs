//! Delivery decisions of one simulation tick: which node a frame that a bus delivers
//! goes to, and when the tester counts as connected.

use vstd::prelude::*;

verus! {

/// The index of the first entry of `xs` equal to `x`, if any.
pub open spec fn first_index_of(xs: Seq<u32>, x: u32) -> Option<int> {
    if exists|i: int| 0 <= i < xs.len() && xs[i] == x {
        Some(choose|i: int| 0 <= i < xs.len() && xs[i] == x && forall|j: int| 0 <= j < i ==> xs[j] != x)
    } else {
        None
    }
}

/// Finds the first entry of `xs` equal to `x`.
fn first_match(xs: &[u32], x: u32) -> (r: Option<usize>)
    ensures
        r matches Some(i) ==> i < xs@.len() && xs@[i as int] == x
            && forall|j: int| 0 <= j < i ==> xs@[j] != x,
        r is None ==> forall|j: int| 0 <= j < xs@.len() ==> xs@[j] != x,
        r matches Some(i) ==> first_index_of(xs@, x) == Some(i as int),
        r is None ==> first_index_of(xs@, x) is None,
{
    let mut i: usize = 0;
    while i < xs.len()
        invariant
            i <= xs@.len(),
            forall|j: int| 0 <= j < i ==> xs@[j] != x,
        decreases xs@.len() - i,
    {
        if xs[i] == x {
            proof {
                let k = choose|k: int| 0 <= k < xs@.len() && xs@[k] == x && forall|j: int| 0 <= j < k ==> xs@[j] != x;
                assert(!(k < i));
                assert(!(i < k));
            }
            return Some(i);
        }
        i = i + 1;
    }
    None
}

/// Where a frame delivered by the TCP bus goes.
#[derive(Debug, Clone, Copy, PartialEq, Eq)]
pub enum TcpDelivery {
    /// To the TCP face of the gateway at this index.
    Gateway(usize),
    /// To the tester.
    Tester,
    /// To nobody: no node has that address.
    Dropped,
}

/// Routes a TCP frame addressed to `dst`: the first gateway with that node address
/// takes it, else the tester when `dst` is the tester's address, else nobody.
pub fn route_tcp(dst: u32, gateway_addrs: &[u32], tester_addr: u32) -> (r: TcpDelivery)
    ensures
        r matches TcpDelivery::Gateway(i) ==> i < gateway_addrs@.len() && gateway_addrs@[i as int] == dst
            && forall|j: int| 0 <= j < i ==> gateway_addrs@[j] != dst,
        !(r is Gateway) ==> forall|j: int| 0 <= j < gateway_addrs@.len() ==> gateway_addrs@[j] != dst,
        r == match first_index_of(gateway_addrs@, dst) {
            Some(i) => TcpDelivery::Gateway(i as usize),
            None => if dst == tester_addr { TcpDelivery::Tester } else { TcpDelivery::Dropped },
        },
{
    match first_match(gateway_addrs, dst) {
        Some(i) => TcpDelivery::Gateway(i),
        None => if dst == tester_addr { TcpDelivery::Tester } else { TcpDelivery::Dropped },
    }
}

/// What an ISO-TP node does with a frame the CAN bus delivers.
#[derive(Debug, Clone, Copy, PartialEq, Eq)]
pub enum CanDelivery {
    /// A frame from the gateway to the ECU (addressed to the request identifier).
    FromGateway,
    /// A frame from the ECU to the gateway (addressed to the response identifier).
    FromEcu,
    /// Not for this ECU.
    Ignored,
}

/// Classifies a CAN frame addressed to `dst` for the ECU link with the given request
/// and response identifiers; the request identifier is checked first.
pub fn route_can(dst: u32, request_can_id: u32, response_can_id: u32) -> (r: CanDelivery)
    ensures
        r == if dst == request_can_id {
            CanDelivery::FromGateway
        } else if dst == response_can_id {
            CanDelivery::FromEcu
        } else {
            CanDelivery::Ignored
        },
{
    if dst == request_can_id {
        CanDelivery::FromGateway
    } else if dst == response_can_id {
        CanDelivery::FromEcu
    } else {
        CanDelivery::Ignored
    }
}

/// The ECU a frame from the gateway's CAN outbox is for: the first whose request
/// identifier is `dst`.
pub fn ecu_for_request(dst: u32, request_can_ids: &[u32]) -> (r: Option<usize>)
    ensures
        r matches Some(i) ==> i < request_can_ids@.len() && request_can_ids@[i as int] == dst
            && forall|j: int| 0 <= j < i ==> request_can_ids@[j] != dst,
        r is None ==> forall|j: int| 0 <= j < request_can_ids@.len() ==> request_can_ids@[j] != dst,
        r == match first_index_of(request_can_ids@, dst) {
            Some(i) => Some(i as usize),
            None => None::<usize>,
        },
{
    first_match(request_can_ids, dst)
}

/// Whether the first gateway's connection is active (`false` with no gateway).
pub fn first_active(active: &[bool]) -> (r: bool)
    ensures
        r == (active@.len() > 0 && active@[0]),
{
    active.len() > 0 && active[0]
}

/// Whether every gateway's connection is active.
pub fn all_active(active: &[bool]) -> (r: bool)
    ensures
        r == forall|i: int| 0 <= i < active@.len() ==> active@[i],
{
    let mut i: usize = 0;
    while i < active.len()
        invariant
            i <= active@.len(),
            forall|j: int| 0 <= j < i ==> active@[j],
        decreases active@.len() - i,
    {
        if !active[i] {
            return false;
        }
        i = i + 1;
    }
    true
}

/// One step of waiting for every connection to become active, after `ticks_done`
/// ticks: `Some(n)` ends the wait reporting `n` ticks (the ticks done once all are
/// active, `max_ticks` once the budget is spent), `None` asks for another tick.
pub fn quiet_step(ticks_done: usize, max_ticks: usize, all_connections_active: bool) -> (r: Option<usize>)
    ensures
        r == if ticks_done >= max_ticks {
            Some(max_ticks)
        } else if all_connections_active {
            Some(ticks_done)
        } else {
            None::<usize>
        },
        r matches Some(n) ==> n <= max_ticks,
{
    if ticks_done >= max_ticks {
        Some(max_ticks)
    } else if all_connections_active {
        Some(ticks_done)
    } else {
        None
    }
}

} // verus!
