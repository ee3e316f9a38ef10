//! The byte-level and bookkeeping logic of the production DoIP vehicle driver:
//! driver configuration, the UDP vehicle identification request, the framing of DoIP
//! messages read from a TCP stream, and the table of per-connection writers.

use vstd::prelude::*;
use crate::duration::Duration;

verus! {

/// ISO 13400-2 UDP and TCP port of a DoIP entity.
pub const DOIP_PORT: u16 = 13400;

/// Length of a DoIP generic header.
pub const DOIP_HEADER_LEN: usize = 8;

/// Payload type of a vehicle identification request.
pub const VEHICLE_IDENTIFICATION_REQUEST: u16 = 0x0001;

/// Configuration of the production DoIP vehicle driver.
pub struct VehicleDriverConfig {
    /// Logical address of this tester device.
    pub tester_address: u16,
    /// How often the tester state machine is ticked.
    pub tick_interval: Duration,
    /// Largest DoIP payload accepted from a TCP connection.
    pub read_buf_size: usize,
    /// UDP port for DoIP discovery.
    pub udp_port: u16,
    /// UDP multicast address for vehicle announcements.
    pub udp_multicast_addr: &'static str,
    /// DoIP protocol version byte used by default.
    pub default_protocol_version: u8,
}

impl VehicleDriverConfig {
    /// A configuration listening on the DoIP port.
    pub fn new(
        tester_address: u16,
        tick_interval: Duration,
        read_buf_size: usize,
        udp_multicast_addr: &'static str,
        protocol: u8,
    ) -> (r: Self)
        ensures
            r.tester_address == tester_address,
            r.tick_interval == tick_interval,
            r.read_buf_size == read_buf_size,
            r.udp_port == DOIP_PORT,
            r.udp_multicast_addr == udp_multicast_addr,
            r.default_protocol_version == protocol,
    {
        VehicleDriverConfig {
            tester_address,
            tick_interval,
            read_buf_size,
            udp_port: DOIP_PORT,
            udp_multicast_addr,
            default_protocol_version: protocol,
        }
    }
}

/// Configuration of DoIP UDP gateway discovery.
#[derive(Debug, Clone)]
pub struct DiscoveryConfig {
    /// DoIP UDP port.
    pub udp_port: u16,
    /// Address the vehicle identification request is sent to.
    pub multicast_addr: String,
    /// How long to wait for gateway responses after sending the request.
    pub timeout: Duration,
}

impl Default for DiscoveryConfig {
    /// The DoIP port, address `0.0.0.0` and a two-second timeout.
    fn default() -> (r: Self)
        ensures
            r.udp_port == DOIP_PORT,
            r.multicast_addr@ == "0.0.0.0"@,
            r.timeout@ == 2_000_000_000,
    {
        DiscoveryConfig {
            udp_port: DOIP_PORT,
            multicast_addr: "0.0.0.0".to_string(),
            timeout: Duration::from_secs(2),
        }
    }
}

/// The address a discovery reply came from, as plain values: the IP address as its
/// integer, and for IPv6 also the flow information and scope identifier, which take
/// part in the equality of socket addresses.
#[derive(Debug, Clone, Copy, PartialEq, Eq, Structural)]
pub enum PeerAddr {
    V4 { ip: u32, port: u16 },
    V6 { ip: u128, port: u16, flowinfo: u32, scope_id: u32 },
}

/// No address occurs twice in `s`.
pub open spec fn no_repeats(s: Seq<PeerAddr>) -> bool {
    forall|i: int, j: int| 0 <= i < s.len() && 0 <= j < s.len() && i != j ==> s[i] != s[j]
}

/// One step of listening for discovery replies: a reply from `a` records `a` unless it
/// answered before, and listening goes on; a receive error (`None`) ends listening
/// and records nothing.
pub fn on_discovery_reply(seen: &mut Vec<PeerAddr>, reply: Option<PeerAddr>) -> (keep_listening: bool)
    ensures
        reply is None ==> !keep_listening && final(seen)@ == old(seen)@,
        reply matches Some(a) ==> keep_listening && final(seen)@ == if old(seen)@.contains(a) {
            old(seen)@
        } else {
            old(seen)@.push(a)
        },
        no_repeats(old(seen)@) ==> no_repeats(final(seen)@),
{
    match reply {
        None => false,
        Some(a) => {
            let mut i: usize = 0;
            while i < seen.len()
                invariant
                    i <= seen@.len(),
                    seen@ == old(seen)@,
                    reply == Some(a),
                    forall|j: int| 0 <= j < i ==> seen@[j] != a,
                decreases seen@.len() - i,
            {
                if seen[i] == a {
                    assert(seen@.contains(a)) by {
                        assert(seen@[i as int] == a);
                    }
                    return true;
                }
                i = i + 1;
            }
            assert(!seen@.contains(a));
            seen.push(a);
            assert forall|x: int, y: int|
                no_repeats(old(seen)@) && 0 <= x < seen@.len() && 0 <= y < seen@.len() && x != y
                implies seen@[x] != seen@[y] by {
                if x < old(seen)@.len() && y < old(seen)@.len() {
                    assert(seen@[x] == old(seen)@[x]);
                    assert(seen@[y] == old(seen)@[y]);
                } else if x < old(seen)@.len() {
                    assert(seen@[x] == old(seen)@[x]);
                } else {
                    assert(seen@[y] == old(seen)@[y]);
                }
            }
            true
        },
    }
}

/// The DoIP vehicle identification request for protocol version `version`: the
/// version, its bitwise inverse, payload type 0x0001 and payload length 0.
pub open spec fn spec_identification_request(version: u8) -> Seq<u8> {
    seq![version, (255 - version) as u8, 0x00, 0x01, 0x00, 0x00, 0x00, 0x00]
}

/// Builds the vehicle identification request sent to discover gateways.
pub fn vehicle_identification_request(version: u8) -> (frame: [u8; 8])
    ensures
        frame@ == spec_identification_request(version),
        frame@.len() == 8,
        frame@[0] == version,
        frame@[1] == 255 - version,
        frame@[2] == 0x00 && frame@[3] == 0x01,
        frame@[4] == 0 && frame@[5] == 0 && frame@[6] == 0 && frame@[7] == 0,
{
    let inverse: u8 = !version;
    assert(inverse == 255 - version) by (bit_vector)
        requires
            inverse == !version,
    ;
    let frame: [u8; 8] = [version, inverse, 0x00, 0x01, 0x00, 0x00, 0x00, 0x00];
    assert(frame@ =~= spec_identification_request(version));
    frame
}

/// The payload length a DoIP header declares: header bytes 4 to 7, big-endian.
pub open spec fn spec_declared_length(header: Seq<u8>) -> int {
    header[4] * 0x100_0000 + header[5] * 0x1_0000 + header[6] * 0x100 + header[7]
}

/// Reads the payload length declared by a DoIP header.
pub fn declared_payload_length(header: &[u8; 8]) -> (len: u32)
    ensures
        len == spec_declared_length(header@),
{
    let b4: u32 = header[4] as u32;
    let b5: u32 = header[5] as u32;
    let b6: u32 = header[6] as u32;
    let b7: u32 = header[7] as u32;
    b4 * 0x100_0000 + b5 * 0x1_0000 + b6 * 0x100 + b7
}

/// How many payload bytes follow `header` on the stream: the declared length, or
/// `None` when it exceeds `max_payload` and the connection is to be closed.
pub fn payload_to_read(header: &[u8; 8], max_payload: usize) -> (r: Option<usize>)
    ensures
        spec_declared_length(header@) <= max_payload ==> r == Some(spec_declared_length(header@) as usize),
        spec_declared_length(header@) > max_payload ==> r is None,
{
    let declared: u32 = declared_payload_length(header);
    if declared as u64 > max_payload as u64 {
        None
    } else {
        Some(declared as usize)
    }
}

/// A complete DoIP frame: the header followed by the payload read after it.
pub fn assemble_frame(header: &[u8; 8], payload: &[u8]) -> (frame: Vec<u8>)
    ensures
        frame@ == header@ + payload@,
{
    let mut frame: Vec<u8> = Vec::new();
    let mut i: usize = 0;
    while i < DOIP_HEADER_LEN
        invariant
            i <= DOIP_HEADER_LEN,
            header@.len() == DOIP_HEADER_LEN,
            frame@ == header@.take(i as int),
        decreases DOIP_HEADER_LEN - i,
    {
        frame.push(header[i]);
        assert(header@.take(i + 1) =~= header@.take(i as int).push(header@[i as int]));
        i = i + 1;
    }
    let mut j: usize = 0;
    while j < payload.len()
        invariant
            j <= payload@.len(),
            header@.len() == DOIP_HEADER_LEN,
            frame@ == header@ + payload@.take(j as int),
        decreases payload@.len() - j,
    {
        frame.push(payload[j]);
        assert(payload@.take(j + 1) =~= payload@.take(j as int).push(payload@[j as int]));
        j = j + 1;
    }
    assert(header@.take(DOIP_HEADER_LEN as int) =~= header@);
    assert(payload@.take(payload@.len() as int) =~= payload@);
    frame
}

/// The connection an outbox frame for node `dst` goes to: the low 16 bits of the
/// node address, the gateway's logical address.
pub fn outbox_connection(dst: u32) -> (id: u16)
    ensures
        id == dst % 0x1_0000,
{
    let id: u16 = dst as u16;
    assert(id == dst % 0x1_0000) by (bit_vector)
        requires
            id == dst as u16,
    ;
    id
}

/// The writer registered first for connection `id` in `s`.
pub open spec fn writer_for<W>(s: Seq<(u16, W)>, id: u16) -> Option<W>
    decreases s.len(),
{
    if s.len() == 0 {
        None
    } else if s[0].0 == id {
        Some(s[0].1)
    } else {
        writer_for(s.drop_first(), id)
    }
}

/// Whether an entry keeps its place when connection `id` is removed.
pub open spec fn kept_after_removing<W>(id: u16) -> spec_fn((u16, W)) -> bool {
    |e: (u16, W)| e.0 != id
}

/// Filtering a one-element sequence keeps the element exactly when it passes.
proof fn lemma_filter_single<A>(x: A, p: spec_fn(A) -> bool)
    ensures
        seq![x].filter(p) == if p(x) { seq![x] } else { Seq::<A>::empty() },
{
    reveal(Seq::filter);
    let e = Seq::<A>::empty();
    assert(e.filter(p) == e);
    assert(seq![x].drop_last() =~= e);
    assert(seq![x].last() == x);
    if p(x) {
        assert(e.push(x) =~= seq![x]);
    }
}

/// `writer_for` sees no entry of a connection that `s` holds none of.
proof fn lemma_writer_for_absent<W>(s: Seq<(u16, W)>, id: u16)
    requires
        forall|i: int| 0 <= i < s.len() ==> (#[trigger] s[i]).0 != id,
    ensures
        writer_for(s, id) is None,
    decreases s.len(),
{
    if s.len() > 0 {
        assert forall|i: int| 0 <= i < s.drop_first().len() implies (#[trigger] s.drop_first()[i]).0 != id by {
            assert(s.drop_first()[i] == s[i + 1]);
        }
        lemma_writer_for_absent(s.drop_first(), id);
    }
}

/// Appending an entry changes `writer_for` only for a connection not yet present.
proof fn lemma_writer_for_push<W>(s: Seq<(u16, W)>, e: (u16, W), id: u16)
    ensures
        writer_for(s.push(e), id) == if writer_for(s, id) is Some {
            writer_for(s, id)
        } else if e.0 == id {
            Some(e.1)
        } else {
            None::<W>
        },
    decreases s.len(),
{
    if s.len() == 0 {
        assert(s.push(e).drop_first() =~= Seq::<(u16, W)>::empty());
        assert(s.push(e)[0] == e);
        assert(writer_for(Seq::<(u16, W)>::empty(), id) is None);
        assert(writer_for(s, id) is None);
    } else {
        assert(s.push(e).drop_first() =~= s.drop_first().push(e));
        assert(s.push(e)[0] == s[0]);
        lemma_writer_for_push(s.drop_first(), e, id);
    }
}

/// Removing connection `id` hides it from `writer_for` and leaves every other
/// connection's writer as it was.
proof fn lemma_writer_for_filter<W>(s: Seq<(u16, W)>, id: u16, other: u16)
    ensures
        writer_for(s.filter(kept_after_removing::<W>(id)), id) is None,
        other != id ==> writer_for(s.filter(kept_after_removing::<W>(id)), other) == writer_for(s, other),
    decreases s.len(),
{
    let p = kept_after_removing::<W>(id);
    if s.len() == 0 {
        reveal(Seq::filter);
    } else {
        let rest = s.drop_first();
        assert(s =~= seq![s[0]] + rest);
        Seq::filter_distributes_over_add(seq![s[0]], rest, p);
        lemma_filter_single(s[0], p);
        lemma_writer_for_filter(rest, id, other);
        if p(s[0]) {
            assert((seq![s[0]] + rest.filter(p)).drop_first() =~= rest.filter(p));
        } else {
            assert(seq![s[0]].filter(p) + rest.filter(p) =~= rest.filter(p));
        }
    }
}

/// The writers of the open TCP connections, one entry per connection in the order
/// they were registered.
pub struct ConnectionWriters<W> {
    entries: Vec<(u16, W)>,
}

impl<W> ConnectionWriters<W> {
    /// The registered connections and their writers, in order.
    pub closed spec fn entries(&self) -> Seq<(u16, W)> {
        self.entries@
    }

    /// No connection registered.
    pub fn new() -> (r: Self)
        ensures
            r.entries() == Seq::<(u16, W)>::empty(),
    {
        ConnectionWriters { entries: Vec::new() }
    }

    /// Registers `writer` for connection `id` after the existing entries.
    pub fn register(&mut self, id: u16, writer: W)
        ensures
            final(self).entries() == old(self).entries().push((id, writer)),
    {
        self.entries.push((id, writer));
    }

    /// Removes every entry of connection `id`, keeping the others in order.
    pub fn remove(&mut self, id: u16)
        ensures
            final(self).entries() == old(self).entries().filter(kept_after_removing::<W>(id)),
    {
        let ghost orig = self.entries@;
        let ghost p = kept_after_removing::<W>(id);
        let ghost mut k: int = 0;
        let mut i: usize = 0;
        while i < self.entries.len()
            invariant
                0 <= k <= orig.len(),
                i == orig.take(k).filter(p).len(),
                self.entries@ == orig.take(k).filter(p) + orig.skip(k),
                p == kept_after_removing::<W>(id),
            decreases orig.len() - k,
        {
            let ghost before = self.entries@;
            let ghost filt = orig.take(k).filter(p);
            proof {
                assert(k < orig.len());
                assert(orig.take(k + 1) =~= orig.take(k) + seq![orig[k]]);
                Seq::filter_distributes_over_add(orig.take(k), seq![orig[k]], p);
                lemma_filter_single(orig[k], p);
                assert(orig.skip(k) =~= seq![orig[k]] + orig.skip(k + 1));
                assert(before[i as int] == orig[k]);
                assert(p(orig[k]) == (orig[k].0 != id));
            }
            if self.entries[i].0 == id {
                let _ = self.entries.remove(i);
                proof {
                    assert(orig.take(k + 1).filter(p) == filt);
                    assert(self.entries@ =~= filt + orig.skip(k + 1));
                    k = k + 1;
                }
            } else {
                proof {
                    assert(orig.take(k + 1).filter(p) == filt.push(orig[k]));
                    assert(self.entries@ =~= filt.push(orig[k]) + orig.skip(k + 1));
                    k = k + 1;
                }
                i = i + 1;
            }
        }
        proof {
            if k < orig.len() {
                assert(orig.skip(k).len() > 0);
            }
            assert(orig.take(orig.len() as int) =~= orig);
            assert(orig.skip(orig.len() as int) =~= Seq::<(u16, W)>::empty());
            assert(self.entries@ =~= orig.filter(p));
        }
    }

    /// The writer registered first for connection `id`, if any.
    pub fn get(&self, id: u16) -> (r: Option<&W>)
        ensures
            match r {
                Some(w) => writer_for(self.entries(), id) == Some(*w),
                None => writer_for(self.entries(), id) is None,
            },
    {
        let mut i: usize = 0;
        assert(self.entries@.skip(0) =~= self.entries@);
        while i < self.entries.len()
            invariant
                i <= self.entries@.len(),
                writer_for(self.entries@, id) == writer_for(self.entries@.skip(i as int), id),
            decreases self.entries@.len() - i,
        {
            let ghost rest = self.entries@.skip(i as int);
            assert(rest[0] == self.entries@[i as int]);
            assert(rest.drop_first() =~= self.entries@.skip(i + 1));
            if self.entries[i].0 == id {
                return Some(&self.entries[i].1);
            }
            i = i + 1;
        }
        assert(self.entries@.skip(i as int) =~= Seq::<(u16, W)>::empty());
        None
    }

    /// The connections with a registered writer, in order.
    pub fn connection_ids(&self) -> (ids: Vec<u16>)
        ensures
            ids@.len() == self.entries().len(),
            forall|i: int| 0 <= i < ids@.len() ==> ids@[i] == (#[trigger] self.entries()[i]).0,
    {
        let mut ids: Vec<u16> = Vec::new();
        let mut i: usize = 0;
        while i < self.entries.len()
            invariant
                i <= self.entries@.len(),
                ids@.len() == i,
                forall|j: int| 0 <= j < i ==> ids@[j] == (#[trigger] self.entries@[j]).0,
            decreases self.entries@.len() - i,
        {
            ids.push(self.entries[i].0);
            i = i + 1;
        }
        ids
    }
}

/// After connection `id` is removed no writer is found for it, and every other
/// connection keeps the writer it had; after a writer is registered for a connection
/// that had none, that writer is found for it.
pub proof fn law_writers_remove_register<W>(s: Seq<(u16, W)>, id: u16, other: u16, w: W)
    ensures
        writer_for(s.filter(kept_after_removing::<W>(id)), id) is None,
        other != id ==> writer_for(s.filter(kept_after_removing::<W>(id)), other) == writer_for(s, other),
        writer_for(s, id) is None ==> writer_for(s.push((id, w)), id) == Some(w),
        writer_for(s, id) is Some ==> writer_for(s.push((id, w)), id) == writer_for(s, id),
{
    lemma_writer_for_filter(s, id, other);
    lemma_writer_for_push(s, (id, w), id);
}

/// The discovery request is a bare header: the requested version itself, its bitwise
/// inverse, payload type 0x0001 and a declared payload length of zero. Requests for
/// different versions differ in their first byte.
pub proof fn law_identification_request_is_empty(version: u8, other: u8)
    ensures
        spec_identification_request(version).len() == DOIP_HEADER_LEN,
        spec_identification_request(version)[0] == version,
        spec_identification_request(version)[1] == 255 - version,
        spec_identification_request(version)[1] == (version ^ 0xFF),
        version != other ==> spec_identification_request(version)[0] != spec_identification_request(other)[0],
        spec_identification_request(version)[0] + spec_identification_request(version)[1] == 255,
        spec_identification_request(version)[2] * 0x100 + spec_identification_request(version)[3]
            == VEHICLE_IDENTIFICATION_REQUEST,
        spec_declared_length(spec_identification_request(version)) == 0,
{
    assert((255 - version) as u8 == (version ^ 0xFF)) by (bit_vector);
}

/// A frame assembled from a header and the payload read after it starts with that
/// header, so it declares the length of the payload it carries.
pub proof fn law_assembled_frame_declares_its_payload(header: Seq<u8>, payload: Seq<u8>)
    requires
        header.len() == DOIP_HEADER_LEN,
        spec_declared_length(header) == payload.len(),
    ensures
        (header + payload).len() == DOIP_HEADER_LEN + payload.len(),
        spec_declared_length((header + payload).take(DOIP_HEADER_LEN as int)) == payload.len(),
        (header + payload).skip(DOIP_HEADER_LEN as int) == payload,
{
    assert((header + payload).take(DOIP_HEADER_LEN as int) =~= header);
    assert((header + payload).skip(DOIP_HEADER_LEN as int) =~= payload);
}

} // verus!
