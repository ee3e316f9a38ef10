//! In-memory data-identifier store that answers the UDS server's DID hooks in tests.
//!
//! Stores up to eight identifiers with up to 64 bytes each. Writes replace the bytes of
//! an identifier that is already stored; `set_did` also adds new identifiers while
//! room is left.

use vstd::prelude::*;
use crate::bounded::{
    did_bytes, did_bytes_as_slice, did_bytes_clear, did_bytes_extend, did_bytes_new, did_table,
    did_table_as_slice, did_table_bytes_mut, did_table_new, did_table_push, DidTable,
};

verus! {

/// Most identifiers the store holds.
pub const MAX_DIDS: usize = 8;

/// Most bytes stored per identifier; longer data is cut to this length.
pub const MAX_DID_LEN: usize = 64;

/// Negative response a DID hook answers with.
#[derive(Debug, Clone, Copy, PartialEq, Eq)]
pub enum Nrc {
    /// The identifier is not stored (UDS NRC 0x31, requestOutOfRange).
    RequestOutOfRange,
}

/// The first `MAX_DID_LEN` bytes of `data`, the part the store keeps.
pub open spec fn clip(data: Seq<u8>) -> Seq<u8> {
    if data.len() <= MAX_DID_LEN { data } else { data.take(MAX_DID_LEN as int) }
}

/// Whether some entry of `t` carries identifier `id`.
pub open spec fn table_has(t: Seq<(u16, Seq<u8>)>, id: u16) -> bool {
    exists|i: int| 0 <= i < t.len() && (#[trigger] t[i]).0 == id
}

/// The identifiers of `t` as a map to their bytes.
pub open spec fn table_map(t: Seq<(u16, Seq<u8>)>) -> Map<u16, Seq<u8>> {
    Map::new(
        |id: u16| table_has(t, id),
        |id: u16| t[choose|i: int| 0 <= i < t.len() && (#[trigger] t[i]).0 == id].1,
    )
}

/// A table the store can hold: at most eight entries of at most 64 bytes, no
/// identifier twice.
pub open spec fn table_ok(t: Seq<(u16, Seq<u8>)>) -> bool {
    &&& t.len() <= MAX_DIDS
    &&& forall|i: int| 0 <= i < t.len() ==> (#[trigger] t[i]).1.len() <= MAX_DID_LEN
    &&& forall|i: int, j: int|
        0 <= i < t.len() && 0 <= j < t.len() && i != j ==> (#[trigger] t[i]).0 != (#[trigger] t[j]).0
}

/// The entry of a well-formed table that carries `id` gives the map's bytes for `id`.
proof fn lemma_map_at(t: Seq<(u16, Seq<u8>)>, i: int)
    requires
        table_ok(t),
        0 <= i < t.len(),
    ensures
        table_map(t).contains_key(t[i].0),
        table_map(t)[t[i].0] == t[i].1,
{
    let id = t[i].0;
    assert(table_has(t, id));
    let k = choose|k: int| 0 <= k < t.len() && (#[trigger] t[k]).0 == id;
    assert(k == i);
}

/// Replacing the bytes of entry `i` replaces the bytes of its identifier in the map.
proof fn lemma_map_update(t: Seq<(u16, Seq<u8>)>, i: int, d: Seq<u8>)
    requires
        table_ok(t),
        0 <= i < t.len(),
        d.len() <= MAX_DID_LEN,
    ensures
        table_ok(t.update(i, (t[i].0, d))),
        table_map(t.update(i, (t[i].0, d))) == table_map(t).insert(t[i].0, d),
{
    let u = t.update(i, (t[i].0, d));
    assert(table_ok(u)) by {
        assert forall|a: int, b: int|
            0 <= a < u.len() && 0 <= b < u.len() && a != b implies (#[trigger] u[a]).0 != (#[trigger] u[b]).0 by {
            assert(u[a].0 == t[a].0);
            assert(u[b].0 == t[b].0);
        }
    }
    lemma_map_at(u, i);
    assert forall|id: u16| #[trigger] table_has(u, id) == table_has(t, id) by {
        if table_has(u, id) {
            let k = choose|k: int| 0 <= k < u.len() && (#[trigger] u[k]).0 == id;
            assert(t[k].0 == id);
        }
        if table_has(t, id) {
            let k = choose|k: int| 0 <= k < t.len() && (#[trigger] t[k]).0 == id;
            assert(u[k].0 == id);
        }
    }
    assert forall|id: u16| table_has(u, id) && id != t[i].0 implies table_map(u)[id] == table_map(t)[id] by {
        let k = choose|k: int| 0 <= k < t.len() && (#[trigger] t[k]).0 == id;
        lemma_map_at(t, k);
        assert(u[k] == t[k]);
        lemma_map_at(u, k);
    }
    assert(table_map(u) =~= table_map(t).insert(t[i].0, d));
}

/// Appending an entry for a new identifier adds that identifier to the map.
proof fn lemma_map_push(t: Seq<(u16, Seq<u8>)>, id: u16, d: Seq<u8>)
    requires
        table_ok(t),
        t.len() < MAX_DIDS,
        !table_has(t, id),
        d.len() <= MAX_DID_LEN,
    ensures
        table_ok(t.push((id, d))),
        table_map(t.push((id, d))) == table_map(t).insert(id, d),
{
    let u = t.push((id, d));
    assert(table_ok(u)) by {
        assert forall|a: int, b: int|
            0 <= a < u.len() && 0 <= b < u.len() && a != b implies (#[trigger] u[a]).0 != (#[trigger] u[b]).0 by {
            if a == t.len() {
                assert(t[b] == u[b]);
            } else if b == t.len() {
                assert(t[a] == u[a]);
            } else {
                assert(t[a] == u[a]);
                assert(t[b] == u[b]);
            }
        }
    }
    lemma_map_at(u, t.len() as int);
    assert forall|x: u16| #[trigger] table_has(u, x) == (table_has(t, x) || x == id) by {
        if table_has(u, x) {
            let k = choose|k: int| 0 <= k < u.len() && (#[trigger] u[k]).0 == x;
            if k < t.len() {
                assert(t[k] == u[k]);
            }
        }
        if table_has(t, x) {
            let k = choose|k: int| 0 <= k < t.len() && (#[trigger] t[k]).0 == x;
            assert(u[k] == t[k]);
        }
    }
    assert forall|x: u16| table_has(t, x) implies table_map(u)[x] == table_map(t)[x] by {
        let k = choose|k: int| 0 <= k < t.len() && (#[trigger] t[k]).0 == x;
        lemma_map_at(t, k);
        assert(u[k] == t[k]);
        lemma_map_at(u, k);
    }
    assert(table_map(u) =~= table_map(t).insert(id, d));
}

/// A table within the store's capacity has at most eight identifiers of at most 64
/// bytes each.
proof fn lemma_table_bounded(t: Seq<(u16, Seq<u8>)>)
    requires
        table_ok(t),
    ensures
        t.len() <= MAX_DIDS,
        forall|id: u16| #[trigger] table_map(t).contains_key(id) ==> table_map(t)[id].len() <= MAX_DID_LEN,
{
    assert forall|id: u16| #[trigger] table_map(t).contains_key(id) implies table_map(t)[id].len() <= MAX_DID_LEN by {
        let k = choose|k: int| 0 <= k < t.len() && (#[trigger] t[k]).0 == id;
        lemma_map_at(t, k);
    }
}

/// The index of the entry of `t` carrying `id`, if any.
fn table_find(t: &DidTable, id: u16) -> (r: Option<usize>)
    requires
        table_ok(did_table(*t)),
    ensures
        r matches Some(i) ==> i < did_table(*t).len() && did_table(*t)[i as int].0 == id,
        r is None ==> !table_has(did_table(*t), id),
{
    let s = did_table_as_slice(t);
    let mut i: usize = 0;
    while i < s.len()
        invariant
            i <= s@.len(),
            s@.len() == did_table(*t).len(),
            forall|k: int| 0 <= k < s@.len() ==> (#[trigger] s@[k]).0 == did_table(*t)[k].0,
            forall|k: int| 0 <= k < i ==> (#[trigger] did_table(*t)[k]).0 != id,
        decreases s@.len() - i,
    {
        if s[i].0 == id {
            return Some(i);
        }
        i = i + 1;
    }
    None
}

/// Overwrites the bytes of entry `i` of `t` with `data`.
fn table_replace(t: &mut DidTable, i: usize, data: &[u8])
    requires
        table_ok(did_table(*old(t))),
        i < did_table(*old(t)).len(),
        data@.len() <= MAX_DID_LEN,
    ensures
        table_ok(did_table(*final(t))),
        did_table(*final(t)).len() == did_table(*old(t)).len(),
        table_map(did_table(*final(t))) == table_map(did_table(*old(t))).insert(
            did_table(*old(t))[i as int].0,
            data@,
        ),
{
    let ghost before = did_table(*t);
    proof { lemma_map_update(before, i as int, data@); }
    let bytes = did_table_bytes_mut(t, i);
    did_bytes_clear(bytes);
    let _ = did_bytes_extend(bytes, data);
    assert(did_bytes(*bytes) =~= data@);
}

/// The first `MAX_DID_LEN` bytes of `data`.
fn clipped(data: &[u8]) -> (part: &[u8])
    ensures
        part@ == clip(data@),
{
    let n: usize = if data.len() < MAX_DID_LEN { data.len() } else { MAX_DID_LEN };
    let part = vstd::slice::slice_subrange(data, 0, n);
    assert(part@ =~= clip(data@));
    part
}

/// Stores `data` (cut to 64 bytes) under `id` in `t`: replaces the bytes of a stored
/// identifier, adds a new one while fewer than eight are stored, else changes nothing.
fn table_store(t: &mut DidTable, id: u16, data: &[u8])
    requires
        table_ok(did_table(*old(t))),
    ensures
        table_ok(did_table(*final(t))),
        ({
            let before = table_map(did_table(*old(t)));
            let after = table_map(did_table(*final(t)));
            &&& before.contains_key(id) || did_table(*old(t)).len() < MAX_DIDS ==> after == before.insert(id, clip(data@))
            &&& !before.contains_key(id) && did_table(*old(t)).len() >= MAX_DIDS ==> after == before
            &&& did_table(*final(t)).len() == if before.contains_key(id) || did_table(*old(t)).len() >= MAX_DIDS {
                did_table(*old(t)).len()
            } else {
                did_table(*old(t)).len() + 1
            }
        }),
{
    let part = clipped(data);
    let ghost before = did_table(*t);
    match table_find(t, id) {
        Some(i) => {
            proof { lemma_map_at(before, i as int); }
            table_replace(t, i, part);
        },
        None => {
            let mut buf = did_bytes_new();
            let _ = did_bytes_extend(&mut buf, part);
            assert(did_bytes(buf) =~= part@);
            proof {
                if before.len() < MAX_DIDS {
                    lemma_map_push(before, id, part@);
                }
            }
            let _ = did_table_push(t, (id, buf));
        },
    }
}

/// Minimal in-memory DID store.
pub struct TestHandler {
    dids: DidTable,
}

impl TestHandler {
    /// The table stays within the store's capacity, with no identifier twice.
    #[verifier::type_invariant]
    spec fn inv(self) -> bool {
        table_ok(did_table(self.dids))
    }

    /// The stored entries, in the order they were added.
    pub closed spec fn entries(&self) -> Seq<(u16, Seq<u8>)> {
        did_table(self.dids)
    }

    /// The stored identifiers and their bytes.
    pub closed spec fn dids(&self) -> Map<u16, Seq<u8>> {
        table_map(self.entries())
    }

    /// How many identifiers are stored.
    pub closed spec fn did_count(&self) -> nat {
        self.entries().len()
    }

    /// At most eight identifiers are stored, each with at most 64 bytes.
    pub open spec fn bounded(&self) -> bool {
        &&& self.did_count() <= MAX_DIDS
        &&& forall|id: u16| #[trigger] self.dids().contains_key(id) ==> self.dids()[id].len() <= MAX_DID_LEN
    }

    /// An empty store.
    pub fn new() -> (r: Self)
        ensures
            r.dids() == Map::<u16, Seq<u8>>::empty(),
            r.did_count() == 0,
            r.bounded(),
    {
        let r = TestHandler { dids: did_table_new() };
        assert(r.dids() =~= Map::<u16, Seq<u8>>::empty());
        r
    }

    /// Stores `data` (cut to 64 bytes) under `id`: replaces the bytes of an identifier
    /// already stored, adds a new identifier while fewer than eight are stored, and
    /// otherwise leaves the store unchanged.
    pub fn set_did(&mut self, id: u16, data: &[u8])
        ensures
            old(self).dids().contains_key(id) || old(self).did_count() < MAX_DIDS ==>
                final(self).dids() == old(self).dids().insert(id, clip(data@)),
            !old(self).dids().contains_key(id) && old(self).did_count() >= MAX_DIDS ==>
                final(self).dids() == old(self).dids(),
            final(self).did_count() == if old(self).dids().contains_key(id) || old(self).did_count() >= MAX_DIDS {
                old(self).did_count()
            } else {
                old(self).did_count() + 1
            },
            final(self).bounded(),
    {
        proof { use_type_invariant(&*self); }
        let mut t = did_table_new();
        core::mem::swap(&mut t, &mut self.dids);
        table_store(&mut t, id, data);
        proof { lemma_table_bounded(did_table(t)); }
        self.dids = t;
    }

    /// Copies the bytes of `did` into `buf`, as many as fit, and returns how many it
    /// copied; `RequestOutOfRange` when `did` is not stored.
    pub fn read_did(&self, did: u16, buf: &mut [u8]) -> (r: Result<usize, Nrc>)
        ensures
            match self.dids().get(did) {
                Some(d) => {
                    let n = if d.len() <= old(buf)@.len() { d.len() } else { old(buf)@.len() };
                    &&& r == Ok::<usize, Nrc>(n as usize)
                    &&& final(buf)@ == d.take(n as int) + old(buf)@.skip(n as int)
                },
                None => r == Err::<usize, Nrc>(Nrc::RequestOutOfRange) && final(buf)@ == old(buf)@,
            },
    {
        proof { use_type_invariant(self); }
        match table_find(&self.dids, did) {
            Some(i) => {
                proof { lemma_map_at(self.entries(), i as int); }
                let s = did_table_as_slice(&self.dids);
                let data = did_bytes_as_slice(&s[i].1);
                let len: usize = if data.len() < buf.len() { data.len() } else { buf.len() };
                let mut k: usize = 0;
                while k < len
                    invariant
                        k <= len,
                        len <= data@.len(),
                        len <= buf@.len(),
                        buf@.len() == old(buf)@.len(),
                        forall|j: int| 0 <= j < k ==> buf@[j] == data@[j],
                        forall|j: int| k <= j < buf@.len() ==> buf@[j] == old(buf)@[j],
                    decreases len - k,
                {
                    buf[k] = data[k];
                    k = k + 1;
                }
                assert(buf@ =~= data@.take(len as int) + old(buf)@.skip(len as int));
                Ok(len)
            },
            None => {
                assert(!self.dids().contains_key(did));
                Err(Nrc::RequestOutOfRange)
            },
        }
    }

    /// Replaces the bytes of a stored `did` with `data` (cut to 64 bytes);
    /// `RequestOutOfRange`, with the store unchanged, when `did` is not stored.
    pub fn write_did(&mut self, did: u16, data: &[u8]) -> (r: Result<(), Nrc>)
        ensures
            final(self).did_count() == old(self).did_count(),
            old(self).dids().contains_key(did) ==> r is Ok
                && final(self).dids() == old(self).dids().insert(did, clip(data@)),
            !old(self).dids().contains_key(did) ==> r == Err::<(), Nrc>(Nrc::RequestOutOfRange)
                && final(self).dids() == old(self).dids(),
            final(self).bounded(),
    {
        proof {
            use_type_invariant(&*self);
            lemma_table_bounded(self.entries());
        }
        match table_find(&self.dids, did) {
            Some(i) => {
                proof { lemma_map_at(self.entries(), i as int); }
                let part = clipped(data);
                let mut t = did_table_new();
                core::mem::swap(&mut t, &mut self.dids);
                table_replace(&mut t, i, part);
                proof { lemma_table_bounded(did_table(t)); }
                self.dids = t;
                Ok(())
            },
            None => Err(Nrc::RequestOutOfRange),
        }
    }

    /// Accepts every reset type and changes nothing.
    pub fn ecu_reset(&mut self, reset_type: u8) -> (r: Result<(), Nrc>)
        ensures
            r is Ok,
            *final(self) == *old(self),
    {
        Ok(())
    }
}

/// The VIN the default test ECU reports: "TESTVIN1234567890".
pub open spec fn test_vin() -> Seq<u8> {
    seq![0x54u8, 0x45, 0x53, 0x54, 0x56, 0x49, 0x4E, 0x31, 0x32, 0x33, 0x34, 0x35, 0x36, 0x37, 0x38, 0x39, 0x30]
}

/// The serial number the default test ECU reports: "SN-001".
pub open spec fn test_serial() -> Seq<u8> {
    seq![0x53u8, 0x4E, 0x2D, 0x30, 0x30, 0x31]
}

/// The identifiers of the default test ECU: the VIN at 0xF190 and again at 0xF290
/// (for periodic reads), the serial number at 0xF101 and the application version
/// `[0x01, 0x02]` at 0xF120.
pub open spec fn default_dids() -> Map<u16, Seq<u8>> {
    map![
        0xF190u16 => test_vin(),
        0xF290u16 => test_vin(),
        0xF101u16 => test_serial(),
        0xF120u16 => seq![0x01u8, 0x02],
    ]
}

/// The DID store of the default test ECU.
pub fn default_test_handler() -> (h: TestHandler)
    ensures
        h.dids() == default_dids(),
        h.did_count() == 4,
        h.bounded(),
{
    let vin: [u8; 17] = [0x54, 0x45, 0x53, 0x54, 0x56, 0x49, 0x4E, 0x31, 0x32, 0x33, 0x34, 0x35, 0x36, 0x37, 0x38, 0x39, 0x30];
    let serial: [u8; 6] = [0x53, 0x4E, 0x2D, 0x30, 0x30, 0x31];
    let version: [u8; 2] = [0x01, 0x02];
    assert(vin@ =~= test_vin());
    assert(serial@ =~= test_serial());
    let mut h = TestHandler::new();
    h.set_did(0xF190, &vin);
    h.set_did(0xF290, &vin);
    h.set_did(0xF101, &serial);
    h.set_did(0xF120, &version);
    assert(h.dids() =~= default_dids());
    h
}

/// Reading an identifier right after `write_did` or `set_did` stored `data` under it
/// gives back `data` cut to 64 bytes; every other identifier reads as before.
pub proof fn law_read_after_write(
    before: TestHandler,
    after: TestHandler,
    did: u16,
    data: Seq<u8>,
    other: u16,
)
    requires
        after.dids() == before.dids().insert(did, clip(data)),
        other != did,
    ensures
        after.dids().get(did) == Some(clip(data)),
        after.dids().get(other) == before.dids().get(other),
        clip(data).len() <= MAX_DID_LEN,
        data.len() <= MAX_DID_LEN ==> clip(data) == data,
        clip(data).len() == if data.len() <= 64 { data.len() } else { 64 },
        forall|i: int| 0 <= i < clip(data).len() ==> clip(data)[i] == data[i],
{
}

impl Default for TestHandler {
    fn default() -> (r: Self)
        ensures
            r.dids() == Map::<u16, Seq<u8>>::empty(),
            r.did_count() == 0,
            r.bounded(),
    {
        Self::new()
    }
}

} // verus!
