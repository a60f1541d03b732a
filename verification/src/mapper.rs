//! The mapping lifecycle manager.
//!
//! A `PcpMapper` owns the table of the mappings that are active at one
//! gateway, at most one for each key, protocol and local port, and the
//! counter that nonces are made from. Registering and unregistering change
//! the table; the datagrams that go with them are handed to the caller, who
//! owns the socket.
//!
//! A slot of the table is absent or active. A registration is under way
//! while the caller holds a `Registration` or a `SentRegistration`: the
//! first registration of an absent slot, or the renewal of an active one.
//! The table is not touched until `registered` concludes it, so an active
//! mapping stays in the table while it is renewed, and a registration that
//! fails leaves no trace. Unregistering takes the mappings of a key out at
//! once; whether the gateway hears of it does not matter to the table.

use vstd::prelude::*;
use crate::addr::{is_mapped, Ipv4, SocketV4};
use crate::client::{
    accepts, explains, register, release, request, send_outcome, IoFailure, Mapping,
    MappingRequest, Received, Receiving, RecvError, RegisterError, RequestError,
    ValidateOpcodeDataError, RECOMMENDED_LIFETIME_SECONDS,
};
use crate::lease::Lease;
use crate::manager::LifecycleError;
use crate::proto::bytes::zeros;
use crate::proto::opcode_data::OpcodeDataView;
use crate::proto::request::{Request as WireRequest, RequestView};
use crate::proto::response::ResponseView;

verus! {

/// What to forward: traffic of `protocol` that reaches `external_port` of
/// the gateway goes to `local_port` of this host.
#[derive(Debug, Clone, Copy, PartialEq, Eq, Structural)]
pub struct Request {
    pub local_port: u16,
    /// The external port hoped for; zero states no preference.
    pub external_port: u16,
    pub protocol: u8,
}

/// What the gateway granted.
#[derive(Debug, Clone, Copy, PartialEq, Eq)]
pub struct Response {
    pub local: SocketV4,
    pub external: SocketV4,
    pub lifetime_seconds: u32,
}

/// The lifecycle manager for the mappings at one gateway.
pub struct PcpMapper {
    local_ip: Ipv4,
    gateway: SocketV4,
    nonce: u32,
    mappings: Vec<Mapping>,
}

/// What a `PcpMapper` holds.
pub struct MapperView {
    /// This host's address, which the gateway forwards to.
    pub local_ip: Ipv4,
    /// The gateway's address and port.
    pub gateway: SocketV4,
    /// The number the next nonce is made from.
    pub counter: u32,
    /// The mappings that are active, in the order in which they were first registered.
    pub table: Seq<Mapping>,
}

/// What a table holds at most one mapping for: a key, a protocol and a local port.
pub struct Slot {
    pub key: Seq<char>,
    pub protocol: u8,
    pub local_port: u16,
}

/// The slot a mapping takes in the table.
pub open spec fn slot_of(m: Mapping) -> Slot {
    Slot { key: m.key@, protocol: m.protocol, local_port: m.local_port }
}

/// Whether no two mappings of a table take the same slot.
pub open spec fn unique(table: Seq<Mapping>) -> bool {
    forall|i: int, j: int|
        0 <= i < j < table.len() ==> slot_of(#[trigger] table[i]) != slot_of(#[trigger] table[j])
}

/// Whether a table holds a mapping for `slot`.
pub open spec fn holds(table: Seq<Mapping>, slot: Slot) -> bool {
    exists|i: int| 0 <= i < table.len() && slot_of(#[trigger] table[i]) == slot
}

/// Where a table holds the mapping for `slot`; the table's length if it holds none.
pub open spec fn index_of(table: Seq<Mapping>, slot: Slot) -> int {
    if holds(table, slot) {
        choose|i: int| 0 <= i < table.len() && slot_of(#[trigger] table[i]) == slot
    } else {
        table.len() as int
    }
}

/// Whether `after` is `before` with the entry at `at` replaced, or, where
/// `at` is the length of `before`, with one entry added at the end.
pub open spec fn replaced_at(before: Seq<Mapping>, after: Seq<Mapping>, at: int) -> bool {
    &&& after.len() == (if at < before.len() {
        before.len()
    } else {
        before.len() + 1
    })
    &&& forall|i: int| 0 <= i < before.len() && i != at ==> #[trigger] after[i] == before[i]
}

/// What a registration asks of the gateway: the mapper's own address, no
/// preferred external address, the wanted external port as a preference
/// unless it is zero, the recommended lifetime, and a fresh nonce.
pub open spec fn asks(mapper: MapperView, req: Request, asked: MappingRequest) -> bool {
    &&& asked.protocol == req.protocol
    &&& asked.local_ip == mapper.local_ip
    &&& asked.local_port == req.local_port
    &&& asked.requested_address is None
    &&& asked.requested_port == (if req.external_port == 0 {
        None
    } else {
        Some(req.external_port)
    })
    &&& asked.requested_lifetime_seconds == 7200
    &&& asked.nonce@ == nonce_of(mapper.counter)
}

/// The response that grants what `request` asked for, if `received` holds
/// one: a datagram that decodes to a response which answers the request,
/// reports success, and names an IPv4 external address and a real external port.
pub open spec fn grant(request: RequestView, received: Received) -> Option<ResponseView> {
    match received {
        Received::Datagram(datagram) => match ResponseView::parse(datagram@) {
            Ok(response) => if accepts(request, response) && response.result_code == 0 && (
            response.data matches OpcodeDataView::MapData(m) && is_mapped(m.external_address)
                && m.external_port != 0) {
                Some(response)
            } else {
                None
            },
            Err(_) => None,
        },
        _ => None,
    }
}

/// Whether `e` is the error of a registration that `received` does not
/// grant: the failure to receive, the reason why the response was rejected,
/// the gateway's result code, or what is wrong with the external side.
pub open spec fn refusal(request: RequestView, received: Received, e: RegisterError) -> bool {
    match received {
        Received::TimedOut => e == RegisterError::Request(RequestError::Recv(RecvError::Timeout)),
        Received::Failed(failure) => e == RegisterError::Request(
            RequestError::Recv(RecvError::Recv(failure)),
        ),
        Received::Datagram(datagram) => match ResponseView::parse(datagram@) {
            Err(d) => e == RegisterError::Request(RequestError::Recv(RecvError::Protocol(d))),
            Ok(response) => if !accepts(request, response) {
                e matches RegisterError::Request(RequestError::Validate(v)) && explains(
                    v,
                    request.opcode_data,
                    response.data,
                )
            } else {
                match response.data {
                    OpcodeDataView::Announce => e == RegisterError::Request(
                        RequestError::UnexpectedOpcode(ValidateOpcodeDataError::OpcodeMismatch),
                    ),
                    OpcodeDataView::MapData(m) => if response.result_code != 0 {
                        e == RegisterError::ResultCode(response.result_code)
                    } else if !is_mapped(m.external_address) {
                        e matches RegisterError::ExternalIpIsNotV4(a) && a.octets@
                            == m.external_address
                    } else {
                        e == RegisterError::ExternalPortIsZero
                    },
                }
            },
        },
    }
}

/// Whether `m` is the mapping that `response` grants to `key` at `now`,
/// with the lease of a lifetime granted then.
pub open spec fn holds_grant(
    m: Mapping,
    key: Seq<char>,
    local_ip: Ipv4,
    gateway: SocketV4,
    response: ResponseView,
    now: u64,
) -> bool {
    &&& response.data matches OpcodeDataView::MapData(granted)
    &&& m.key@ == key
    &&& m.local_ip == local_ip
    &&& m.local_port == granted.local_port
    &&& m.external_ip.octets@ == granted.external_address.subrange(12, 16)
    &&& m.external_port == granted.external_port
    &&& m.protocol == granted.protocol
    &&& m.lifetime_seconds == response.lifetime_seconds
    &&& m.nonce@ == granted.nonce
    &&& m.gateway == gateway
    &&& m.lease() == Lease::granted_spec(now, response.lifetime_seconds)
}

/// Whether `r` tells the caller what `response` grants.
pub open spec fn reports_grant(r: Response, local_ip: Ipv4, response: ResponseView) -> bool {
    &&& response.data matches OpcodeDataView::MapData(granted)
    &&& r.local.ip == local_ip
    &&& r.local.port == granted.local_port
    &&& r.external.ip.octets@ == granted.external_address.subrange(12, 16)
    &&& r.external.port == granted.external_port
    &&& r.lifetime_seconds == response.lifetime_seconds
}

/// The step that concludes a registration of `asked` for `key` at `now`, from
/// the mapper `before` to the mapper `after`, with the result `r`.
///
/// Where `received` grants the request, the table holds the granted mapping
/// in the slot of `key`, the protocol and the local port: in place of the
/// mapping that was there, or else at the end. Nothing else changes. Where
/// it does not, nothing changes at all.
pub open spec fn registers(
    before: MapperView,
    key: Seq<char>,
    asked: MappingRequest,
    received: Received,
    now: u64,
    after: MapperView,
    r: Result<Response, RegisterError>,
) -> bool {
    match grant(asked.request_view(), received) {
        Some(response) => {
            let slot = Slot { key, protocol: asked.protocol, local_port: asked.local_port };
            let at = index_of(before.table, slot);
            &&& r matches Ok(granted)
            &&& reports_grant(granted, asked.local_ip, response)
            &&& after.local_ip == before.local_ip
            &&& after.gateway == before.gateway
            &&& after.counter == before.counter
            &&& replaced_at(before.table, after.table, at)
            &&& holds_grant(after.table[at], key, asked.local_ip, before.gateway, response, now)
        },
        None => {
            &&& r matches Err(e)
            &&& refusal(asked.request_view(), received, e)
            &&& after == before
        },
    }
}

/// What a renewal asks for: the mapping's protocol and local port again,
/// and the external port it has.
pub open spec fn renewal_of(m: Mapping) -> Request {
    Request { local_port: m.local_port, external_port: m.external_port, protocol: m.protocol }
}

/// The step that takes a failed renewal of the mapping in `slot` at `now`.
///
/// Where the lease allows another try, the mapping stays, with one failure
/// more and the time of the retry. Where it does not, the mapping is
/// dropped. A slot that holds no mapping is left alone.
pub open spec fn fails_renewal(
    before: MapperView,
    slot: Slot,
    now: u64,
    after: MapperView,
    r: Result<(), LifecycleError>,
) -> bool {
    let at = index_of(before.table, slot);
    if !holds(before.table, slot) {
        r is Ok && after == before
    } else {
        match before.table[at].lease().failed_spec(now) {
            Ok(next) => {
                &&& r is Ok
                &&& after == (MapperView {
                    table: before.table.update(
                        at,
                        Mapping {
                            renewal_failures: next.failures,
                            renew_at: next.due_at,
                            ..before.table[at]
                        },
                    ),
                    ..before
                })
            },
            Err(e) => {
                &&& r == Err::<(), LifecycleError>(e)
                &&& after == (MapperView { table: before.table.remove(at), ..before })
            },
        }
    }
}

/// The mappings of a table that do not belong to `key`, in their order.
pub open spec fn kept(table: Seq<Mapping>, key: Seq<char>) -> Seq<Mapping> {
    table.filter(|m: Mapping| m.key@ != key)
}

/// The mappings of a table that belong to `key`, in their order.
pub open spec fn owned(table: Seq<Mapping>, key: Seq<char>) -> Seq<Mapping> {
    table.filter(|m: Mapping| m.key@ == key)
}

/// How `kept` and `owned` go along a table: the last mapping goes to the
/// one or the other, after those before it.
proof fn lemma_kept_owned_step(table: Seq<Mapping>, key: Seq<char>)
    ensures
        table.len() == 0 ==> kept(table, key) == Seq::<Mapping>::empty() && owned(table, key)
            == Seq::<Mapping>::empty(),
        table.len() > 0 && table.last().key@ == key ==> kept(table, key) == kept(
            table.drop_last(),
            key,
        ) && owned(table, key) == owned(table.drop_last(), key).push(table.last()),
        table.len() > 0 && table.last().key@ != key ==> kept(table, key) == kept(
            table.drop_last(),
            key,
        ).push(table.last()) && owned(table, key) == owned(table.drop_last(), key),
{
    reveal_with_fuel(Seq::filter, 2);
}

/// The notification that tells the gateway to delete `m`: a `Map` request
/// with a lifetime of zero for the mapping's protocol, local port and nonce.
pub open spec fn deletion_of(m: Mapping) -> RequestView {
    RequestView::mapping(m.nonce@, m.protocol, m.local_port, m.local_ip.octets@, None, None, 0)
}

/// The nonce made from a counter value: its four octets, least significant
/// first, then eight zero octets.
pub open spec fn nonce_of(counter: u32) -> Seq<u8> {
    seq![
        (counter % 256) as u8,
        ((counter / 256) % 256) as u8,
        ((counter / 65536) % 256) as u8,
        (counter / 16777216) as u8,
    ] + zeros(8)
}

/// The counter value after `counter`; after the largest comes zero.
pub open spec fn next_counter(counter: u32) -> u32 {
    if counter == u32::MAX {
        0
    } else {
        (counter + 1) as u32
    }
}

/// Different counter values make different nonces.
pub proof fn lemma_nonce_of_injective(a: u32, b: u32)
    requires
        nonce_of(a) == nonce_of(b),
    ensures
        a == b,
{
    let x = nonce_of(a);
    let y = nonce_of(b);
    assert(x[0] == y[0] && x[1] == y[1] && x[2] == y[2] && x[3] == y[3]);
    assert(a == (a / 16777216) * 16777216 + ((a / 65536) % 256) * 65536 + ((a / 256) % 256) * 256
        + a % 256);
    assert(b == (b / 16777216) * 16777216 + ((b / 65536) % 256) * 65536 + ((b / 256) % 256) * 256
        + b % 256);
}

/// A nonce is never the one made just before it.
pub proof fn lemma_next_nonce_differs(counter: u32)
    ensures
        nonce_of(next_counter(counter)) != nonce_of(counter),
{
    if nonce_of(next_counter(counter)) == nonce_of(counter) {
        lemma_nonce_of_injective(next_counter(counter), counter);
    }
}

/// A registration whose request has yet to be sent.
#[derive(Debug, PartialEq, Eq)]
pub struct Registration {
    pub key: String,
    pub request: MappingRequest,
}

/// A registration whose request went out and whose response is awaited.
#[derive(Debug, PartialEq, Eq)]
pub struct SentRegistration {
    pub key: String,
    pub request: MappingRequest,
}

impl Registration {
    /// Takes the socket's report of the send. If the whole datagram went
    /// out, the registration goes on to wait for the response; if not, it
    /// has failed, and the table stays as it is.
    pub fn sent(self, sent: Result<usize, IoFailure>) -> (r: Result<
        SentRegistration,
        RegisterError,
    >)
        ensures
            match send_outcome(self.request.request_view().wire().len() as usize, sent) {
                Ok(_) => r matches Ok(next) && next.key == self.key && next.request
                    == self.request,
                Err(e) => r == Err::<SentRegistration, RegisterError>(
                    RegisterError::Request(RequestError::Send(e)),
                ),
            },
    {
        let (exchange, _) = request(self.request.request());
        match exchange.sent(sent) {
            Ok(_) => Ok(SentRegistration { key: self.key, request: self.request }),
            Err(e) => Err(RegisterError::Request(e)),
        }
    }
}

impl View for PcpMapper {
    type V = MapperView;

    closed spec fn view(&self) -> MapperView {
        MapperView {
            local_ip: self.local_ip,
            gateway: self.gateway,
            counter: self.nonce,
            table: self.mappings@,
        }
    }
}

/// Whether a table is one of a mapper for `gateway`: no slot is taken twice,
/// and every mapping has a real external port and names the gateway.
pub open spec fn well_formed(table: Seq<Mapping>, gateway: SocketV4) -> bool {
    &&& unique(table)
    &&& forall|i: int|
        0 <= i < table.len() ==> {
            &&& (#[trigger] table[i]).wf()
            &&& table[i].gateway == gateway
        }
}

impl MapperView {
    /// What holds of every mapper: its table is well-formed for its gateway.
    pub open spec fn wf(self) -> bool {
        well_formed(self.table, self.gateway)
    }
}

/// Where `table` holds the mapping for the slot; its length if it holds none.
fn find_in(table: &Vec<Mapping>, key: &String, protocol: u8, local_port: u16) -> (at: usize)
    requires
        unique(table@),
    ensures
        at == index_of(table@, Slot { key: key@, protocol, local_port }),
        at < table@.len() <==> holds(table@, Slot { key: key@, protocol, local_port }),
{
    let ghost slot = Slot { key: key@, protocol, local_port };
    let mut i: usize = 0;
    while i < table.len()
        invariant
            unique(table@),
            i <= table@.len(),
            slot == (Slot { key: key@, protocol, local_port }),
            forall|j: int| 0 <= j < i ==> slot_of(#[trigger] table@[j]) != slot,
        decreases table@.len() - i,
    {
        let m = &table[i];
        if m.protocol == protocol && m.local_port == local_port && m.key == *key {
            proof {
                assert(slot_of(table@[i as int]) == slot);
                assert(holds(table@, slot));
                let c = index_of(table@, slot);
                if c != i {
                    if c < i {
                        assert(slot_of(table@[c]) != slot);
                    } else {
                        assert(slot_of(table@[i as int]) != slot_of(table@[c]));
                    }
                }
            }
            return i;
        }
        i += 1;
    }
    i
}

/// Puts `m` into its slot of `table`: in place of the mapping at `at`, or at
/// the end where `at` is the table's length.
fn put(table: &mut Vec<Mapping>, at: usize, m: Mapping, Ghost(gateway): Ghost<SocketV4>)
    requires
        well_formed(old(table)@, gateway),
        at == index_of(old(table)@, slot_of(m)),
        m.wf(),
        m.gateway == gateway,
    ensures
        well_formed(final(table)@, gateway),
        replaced_at(old(table)@, final(table)@, at as int),
        final(table)@[at as int] == m,
{
    if at < table.len() {
        table.set(at, m);
    } else {
        table.push(m);
    }
    proof {
        let after = table@;
        let before = old(table)@;
        assert forall|i: int, j: int| 0 <= i < j < after.len() implies slot_of(
            #[trigger] after[i],
        ) != slot_of(#[trigger] after[j]) by {
            if i != at && j != at {
                assert(after[i] == before[i] && after[j] == before[j]);
            } else if at < before.len() {
                assert(slot_of(after[at as int]) == slot_of(before[at as int]));
                if i == at {
                    assert(after[j] == before[j]);
                } else {
                    assert(after[i] == before[i]);
                }
            } else {
                assert(after[i] == before[i]);
                assert(!holds(before, slot_of(after[at as int])));
            }
        }
        assert forall|i: int| 0 <= i < after.len() implies (#[trigger] after[i]).wf()
            && after[i].gateway == gateway by {
            if i != at {
                assert(after[i] == before[i]);
            }
        }
    }
}

/// Takes the mapping at `at` out of `table`.
fn take_out(table: &mut Vec<Mapping>, at: usize, Ghost(gateway): Ghost<SocketV4>) -> (m: Mapping)
    requires
        well_formed(old(table)@, gateway),
        at < old(table)@.len(),
    ensures
        well_formed(final(table)@, gateway),
        m == old(table)@[at as int],
        final(table)@ == old(table)@.remove(at as int),
        !holds(final(table)@, slot_of(m)),
{
    let m = table.remove(at);
    proof {
        let before = old(table)@;
        let after = table@;
        assert forall|a: int, b: int| 0 <= a < b < after.len() implies slot_of(
            #[trigger] after[a],
        ) != slot_of(#[trigger] after[b]) by {
            let a0 = if a < at { a } else { a + 1 };
            let b0 = if b < at { b } else { b + 1 };
            assert(after[a] == before[a0] && after[b] == before[b0]);
        }
        assert forall|a: int| 0 <= a < after.len() implies (#[trigger] after[a]).wf()
            && after[a].gateway == gateway by {
            let a0 = if a < at { a } else { a + 1 };
            assert(after[a] == before[a0]);
        }
        let slot = slot_of(m);
        assert(!holds(after, slot)) by {
            if holds(after, slot) {
                let a = choose|a: int| 0 <= a < after.len() && slot_of(#[trigger] after[a]) == slot;
                let a0 = if a < at { a } else { a + 1 };
                assert(after[a] == before[a0]);
                if a0 < at {
                    assert(slot_of(before[a0]) != slot_of(before[at as int]));
                } else {
                    assert(slot_of(before[at as int]) != slot_of(before[a0]));
                }
            }
        }
    }
    m
}

/// Takes the mappings of `key` out of `table` and returns the notification
/// that deletes each, in the order of the table.
fn take_out_key(table: &mut Vec<Mapping>, key: &String, Ghost(gateway): Ghost<SocketV4>) -> (deletions:
    Vec<WireRequest>)
    requires
        well_formed(old(table)@, gateway),
    ensures
        well_formed(final(table)@, gateway),
        final(table)@ == kept(old(table)@, key@),
        deletions@.len() == owned(old(table)@, key@).len(),
        forall|j: int|
            0 <= j < deletions@.len() ==> (#[trigger] deletions@[j])@ == deletion_of(
                owned(old(table)@, key@)[j],
            ),
{
    let mut deletions: Vec<WireRequest> = Vec::new();
    let ghost before = table@;
    let ghost mut n: int = 0;
    let mut i: usize = 0;
    proof {
        assert(before.take(0) =~= Seq::<Mapping>::empty());
        assert(before.skip(0) =~= before);
        lemma_kept_owned_step(before.take(0), key@);
        assert(table@ =~= kept(before.take(0), key@) + before.skip(0));
    }
    while i < table.len()
        invariant
            well_formed(table@, gateway),
            0 <= n <= before.len(),
            i == kept(before.take(n), key@).len(),
            table@ == kept(before.take(n), key@) + before.skip(n),
            deletions@.len() == owned(before.take(n), key@).len(),
            forall|j: int|
                0 <= j < deletions@.len() ==> (#[trigger] deletions@[j])@ == deletion_of(
                    owned(before.take(n), key@)[j],
                ),
        decreases before.len() - n,
    {
        proof {
            assert(table@[i as int] == before[n]);
            assert(before.take(n + 1).drop_last() =~= before.take(n));
            assert(before.take(n + 1).last() == before[n]);
            lemma_kept_owned_step(before.take(n + 1), key@);
        }
        if table[i].key == *key {
            let m = take_out(table, i, Ghost(gateway));
            deletions.push(release(m.protocol, m.local_ip, m.local_port, m.nonce));
            proof {
                assert(table@ =~= kept(before.take(n + 1), key@) + before.skip(n + 1));
            }
        } else {
            i += 1;
            proof {
                assert(table@ =~= kept(before.take(n + 1), key@) + before.skip(n + 1));
            }
        }
        proof {
            n = n + 1;
        }
    }
    proof {
        assert(kept(before.take(n), key@).len() + before.skip(n).len() == i);
        assert(n == before.len());
        assert(before.take(n) =~= before);
        assert(table@ =~= kept(before, key@));
    }
    deletions
}

impl PcpMapper {
    #[verifier::type_invariant]
    spec fn inv(self) -> bool {
        self@.wf()
    }

    /// A mapper with no mappings, for the host `local_ip` and the gateway
    /// `gateway`, whose first nonce is made from `nonce`.
    pub fn new(local_ip: Ipv4, gateway: SocketV4, nonce: u32) -> (mapper: PcpMapper)
        ensures
            mapper@.wf(),
            mapper@ == (MapperView { local_ip, gateway, counter: nonce, table: Seq::empty() }),
    {
        PcpMapper { local_ip, gateway, nonce, mappings: Vec::new() }
    }

    /// This host's address.
    pub fn local_ip(&self) -> (ip: Ipv4)
        ensures
            ip == self@.local_ip,
    {
        self.local_ip
    }

    /// The gateway's address and port.
    pub fn gateway(&self) -> (gateway: SocketV4)
        ensures
            gateway == self@.gateway,
    {
        self.gateway
    }

    /// Makes a nonce from the counter and advances the counter.
    pub fn next_nonce(&mut self) -> (nonce: [u8; 12])
        ensures
            nonce@ == nonce_of(old(self)@.counter),
            final(self)@ == (MapperView { counter: next_counter(old(self)@.counter), ..old(self)@ }),
    {
        proof {
            use_type_invariant(&*self);
        }
        let n = self.nonce;
        self.nonce = n.wrapping_add(1);
        let nonce: [u8; 12] = [
            (n % 256) as u8,
            ((n / 256) % 256) as u8,
            ((n / 65536) % 256) as u8,
            (n / 16777216) as u8,
            0, 0, 0, 0, 0, 0, 0, 0,
        ];
        assert(nonce@ =~= nonce_of(n));
        nonce
    }

    /// The mappings that are active, in the order in which they were first registered.
    pub fn mappings(&self) -> (table: &Vec<Mapping>)
        ensures
            self@.wf(),
            table@ == self@.table,
    {
        proof {
            use_type_invariant(self);
        }
        &self.mappings
    }

    /// How many mappings are active.
    pub fn len(&self) -> (n: usize)
        ensures
            n == self@.table.len(),
    {
        self.mappings.len()
    }

    /// Where the table holds the mapping of `key` for `protocol` and
    /// `local_port`; the table's length if it holds none.
    pub fn find(&self, key: &String, protocol: u8, local_port: u16) -> (at: usize)
        ensures
            at == index_of(self@.table, Slot { key: key@, protocol, local_port }),
            at < self@.table.len() <==> holds(self@.table, Slot { key: key@, protocol, local_port }),
    {
        proof {
            use_type_invariant(self);
        }
        find_in(&self.mappings, key, protocol, local_port)
    }

    /// Starts a registration of `req` under `key`: makes a fresh nonce and
    /// returns the registration with the datagram to send to the gateway.
    /// The table is left as it is until the registration is concluded.
    pub fn register(&mut self, key: String, req: &Request) -> (r: (Registration, Vec<u8>))
        ensures
            final(self)@ == (MapperView { counter: next_counter(old(self)@.counter), ..old(self)@ }),
            r.0.key == key,
            asks(old(self)@, *req, r.0.request),
            r.1@ == r.0.request.request_view().wire(),
    {
        let nonce = self.next_nonce();
        let requested_port = if req.external_port == 0 {
            None
        } else {
            Some(req.external_port)
        };
        let asked = MappingRequest {
            protocol: req.protocol,
            local_ip: self.local_ip,
            local_port: req.local_port,
            requested_address: None,
            requested_port,
            requested_lifetime_seconds: RECOMMENDED_LIFETIME_SECONDS,
            nonce,
        };
        let (_, datagram) = request(asked.request());
        (Registration { key, request: asked }, datagram)
    }

    /// Concludes a registration at `now` with what the wait for the
    /// gateway's response ended with. The table changes only if the
    /// response answers the request and grants a mapping.
    pub fn registered(
        &mut self,
        pending: SentRegistration,
        received: Received,
        now: u64,
    ) -> (r: Result<Response, RegisterError>)
        ensures
            final(self)@.wf(),
            registers(old(self)@, pending.key@, pending.request, received, now, final(self)@, r),
    {
        proof {
            use_type_invariant(&*self);
        }
        let asked = pending.request;
        let exchanged = (Receiving { request: asked.request() }).received(received);
        let granted = match register(&asked, exchanged) {
            Ok(granted) => granted,
            Err(e) => {
                return Err(e);
            },
        };
        let at = find_in(&self.mappings, &pending.key, granted.protocol, granted.local_port);
        let lease = Lease::granted(now, granted.lifetime_seconds);
        let m = Mapping {
            key: pending.key,
            local_ip: granted.local_ip,
            local_port: granted.local_port,
            external_ip: granted.external_address,
            external_port: granted.external_port,
            protocol: granted.protocol,
            lifetime_seconds: granted.lifetime_seconds,
            nonce: granted.nonce,
            gateway: self.gateway,
            granted_at: lease.granted_at,
            renewal_failures: lease.failures,
            renew_at: lease.due_at,
        };
        let mut table: Vec<Mapping> = Vec::new();
        std::mem::swap(&mut self.mappings, &mut table);
        put(&mut table, at, m, Ghost(self.gateway));
        std::mem::swap(&mut self.mappings, &mut table);
        Ok(
            Response {
                local: SocketV4 { ip: granted.local_ip, port: granted.local_port },
                external: SocketV4 { ip: granted.external_address, port: granted.external_port },
                lifetime_seconds: granted.lifetime_seconds,
            },
        )
    }

    /// Removes every mapping of `key` from the table and returns, for each,
    /// the notification that tells the gateway to delete it, in the order of
    /// the table. The mappings are gone whether or not the notifications
    /// reach the gateway; with no mapping of `key` there is nothing to send.
    pub fn unregister(&mut self, key: &String) -> (deletions: Vec<WireRequest>)
        ensures
            final(self)@.wf(),
            final(self)@ == (MapperView { table: kept(old(self)@.table, key@), ..old(self)@ }),
            deletions@.len() == owned(old(self)@.table, key@).len(),
            forall|j: int|
                0 <= j < deletions@.len() ==> (#[trigger] deletions@[j])@ == deletion_of(
                    owned(old(self)@.table, key@)[j],
                ),
    {
        proof {
            use_type_invariant(&*self);
        }
        let mut table: Vec<Mapping> = Vec::new();
        std::mem::swap(&mut self.mappings, &mut table);
        let deletions = take_out_key(&mut table, key, Ghost(self.gateway));
        std::mem::swap(&mut self.mappings, &mut table);
        deletions
    }

    /// Drops the mapping of `key` for `protocol` and `local_port` from the
    /// table without telling the gateway, as when its lifetime has run out.
    /// Returns the mapping, if there was one.
    pub fn forget(&mut self, key: &String, protocol: u8, local_port: u16) -> (dropped: Option<
        Mapping,
    >)
        ensures
            final(self)@.wf(),
            ({
                let slot = Slot { key: key@, protocol, local_port };
                let at = index_of(old(self)@.table, slot);
                if holds(old(self)@.table, slot) {
                    &&& dropped == Some(old(self)@.table[at])
                    &&& final(self)@ == (MapperView {
                        table: old(self)@.table.remove(at),
                        ..old(self)@
                    })
                    &&& !holds(final(self)@.table, slot)
                } else {
                    dropped is None && final(self)@ == old(self)@
                }
            }),
    {
        proof {
            use_type_invariant(&*self);
        }
        let at = find_in(&self.mappings, key, protocol, local_port);
        if at >= self.mappings.len() {
            return None;
        }
        let mut table: Vec<Mapping> = Vec::new();
        std::mem::swap(&mut self.mappings, &mut table);
        let m = take_out(&mut table, at, Ghost(self.gateway));
        std::mem::swap(&mut self.mappings, &mut table);
        Some(m)
    }

    /// Where the table holds the first mapping that is to be renewed at
    /// `now`; the table's length if none is.
    pub fn due(&self, now: u64) -> (at: usize)
        ensures
            at <= self@.table.len(),
            at < self@.table.len() ==> self@.table[at as int].renew_at <= now,
            forall|i: int| 0 <= i < at ==> (#[trigger] self@.table[i]).renew_at > now,
    {
        let mut i: usize = 0;
        while i < self.mappings.len()
            invariant
                i <= self.mappings@.len(),
                forall|j: int| 0 <= j < i ==> (#[trigger] self.mappings@[j]).renew_at > now,
            decreases self.mappings@.len() - i,
        {
            if self.mappings[i].renew_at <= now {
                return i;
            }
            i += 1;
        }
        i
    }

    /// Starts the renewal of the mapping at `at`: a registration under the
    /// mapping's key, for its protocol and local port, that asks for the
    /// external port it has. `None` where the table holds no mapping there.
    pub fn renew(&mut self, at: usize) -> (r: Option<(Registration, Vec<u8>)>)
        ensures
            at >= old(self)@.table.len() ==> r is None && final(self)@ == old(self)@,
            at < old(self)@.table.len() ==> {
                &&& r matches Some(started)
                &&& final(self)@ == (MapperView {
                    counter: next_counter(old(self)@.counter),
                    ..old(self)@
                })
                &&& started.0.key == old(self)@.table[at as int].key
                &&& asks(old(self)@, renewal_of(old(self)@.table[at as int]), started.0.request)
                &&& started.1@ == started.0.request.request_view().wire()
            },
    {
        if at >= self.mappings.len() {
            return None;
        }
        let m = &self.mappings[at];
        let key = m.key.clone();
        let req = Request {
            local_port: m.local_port,
            external_port: m.external_port,
            protocol: m.protocol,
        };
        Some(self.register(key, &req))
    }

    /// Takes a failed renewal, at `now`, of the mapping of `key` for
    /// `protocol` and `local_port`. The mapping stays for another try while
    /// its lease allows one; after that it is dropped, and the caller is
    /// told that the renewal is given up.
    pub fn renewal_failed(&mut self, key: &String, protocol: u8, local_port: u16, now: u64) -> (r:
        Result<(), LifecycleError>)
        ensures
            final(self)@.wf(),
            fails_renewal(
                old(self)@,
                Slot { key: key@, protocol, local_port },
                now,
                final(self)@,
                r,
            ),
    {
        proof {
            use_type_invariant(&*self);
        }
        let at = find_in(&self.mappings, key, protocol, local_port);
        if at >= self.mappings.len() {
            return Ok(());
        }
        let mut table: Vec<Mapping> = Vec::new();
        std::mem::swap(&mut self.mappings, &mut table);
        let m = take_out(&mut table, at, Ghost(self.gateway));
        let lease = Lease {
            granted_at: m.granted_at,
            lifetime_seconds: m.lifetime_seconds,
            failures: m.renewal_failures,
            due_at: m.renew_at,
        };
        let r = match lease.failed(now) {
            Ok(next) => {
                let updated = Mapping {
                    renewal_failures: next.failures,
                    renew_at: next.due_at,
                    ..m
                };
                table.insert(at, updated);
                proof {
                    let before = old(self)@.table;
                    let after = table@;
                    assert(after =~= before.update(at as int, updated));
                    assert forall|i: int, j: int| 0 <= i < j < after.len() implies slot_of(
                        #[trigger] after[i],
                    ) != slot_of(#[trigger] after[j]) by {
                        assert(slot_of(after[i]) == slot_of(before[i]));
                        assert(slot_of(after[j]) == slot_of(before[j]));
                    }
                    assert forall|i: int| 0 <= i < after.len() implies (#[trigger] after[i]).wf()
                        && after[i].gateway == self.gateway by {
                        if i != at {
                            assert(after[i] == before[i]);
                        }
                    }
                }
                Ok(())
            },
            Err(e) => Err(e),
        };
        std::mem::swap(&mut self.mappings, &mut table);
        r
    }
}

/// Concluding a registration keeps the table well-formed: no slot is ever
/// taken twice, and every mapping has a real external port.
pub proof fn lemma_registers_preserves_wf(
    before: MapperView,
    key: Seq<char>,
    asked: MappingRequest,
    received: Received,
    now: u64,
    after: MapperView,
    r: Result<Response, RegisterError>,
)
    requires
        before.wf(),
        registers(before, key, asked, received, now, after, r),
    ensures
        after.wf(),
{
    if let Some(response) = grant(asked.request_view(), received) {
        let slot = Slot { key, protocol: asked.protocol, local_port: asked.local_port };
        let at = index_of(before.table, slot);
        assert(slot_of(after.table[at]) == slot);
        assert forall|i: int, j: int| 0 <= i < j < after.table.len() implies slot_of(
            #[trigger] after.table[i],
        ) != slot_of(#[trigger] after.table[j]) by {
            if i != at && j != at {
                assert(after.table[i] == before.table[i] && after.table[j] == before.table[j]);
            } else if at < before.table.len() {
                assert(slot_of(before.table[at]) == slot);
                if i == at {
                    assert(after.table[j] == before.table[j]);
                } else {
                    assert(after.table[i] == before.table[i]);
                }
            } else {
                assert(after.table[i] == before.table[i]);
                assert(!holds(before.table, slot));
            }
        }
        assert forall|i: int| 0 <= i < after.table.len() implies (#[trigger] after.table[i]).wf()
            && after.table[i].gateway == after.gateway by {
            if i != at {
                assert(after.table[i] == before.table[i]);
            }
        }
    }
}

/// The table changes only on a response that answers the request: where a
/// concluded registration leaves another mapper than it found, a datagram
/// was received that decodes to a response which passes validation against
/// the request, and the registration has succeeded.
pub proof fn lemma_table_changes_only_when_validated(
    before: MapperView,
    key: Seq<char>,
    asked: MappingRequest,
    received: Received,
    now: u64,
    after: MapperView,
    r: Result<Response, RegisterError>,
)
    requires
        registers(before, key, asked, received, now, after, r),
        after != before,
    ensures
        r is Ok,
        received matches Received::Datagram(datagram) && ResponseView::parse(datagram@) matches Ok(
            response,
        ) && accepts(asked.request_view(), response),
{
}

/// Registering again under the same key, protocol and local port renews the
/// mapping in place. After the second registration the table is as long as
/// after the first, it holds one mapping for the slot and no other, and that
/// mapping is what the gateway granted the second time: where the gateway
/// grants the same external port again, the external port stays the same.
pub proof fn lemma_register_again_renews(
    start: MapperView,
    once: MapperView,
    twice: MapperView,
    key: Seq<char>,
    first: MappingRequest,
    second: MappingRequest,
    received_first: Received,
    received_second: Received,
    at_first: u64,
    at_second: u64,
    r_first: Result<Response, RegisterError>,
    r_second: Result<Response, RegisterError>,
)
    requires
        start.wf(),
        first.protocol == second.protocol,
        first.local_port == second.local_port,
        first.local_ip == second.local_ip,
        registers(start, key, first, received_first, at_first, once, r_first),
        registers(once, key, second, received_second, at_second, twice, r_second),
        r_first is Ok,
        r_second is Ok,
    ensures
        ({
            let slot = Slot { key, protocol: first.protocol, local_port: first.local_port };
            let at = index_of(once.table, slot);
            let granted_first = grant(first.request_view(), received_first)->Some_0;
            let granted_second = grant(second.request_view(), received_second)->Some_0;
            &&& twice.wf()
            &&& twice.table.len() == once.table.len()
            &&& 0 <= at < twice.table.len()
            &&& at == index_of(start.table, slot)
            &&& forall|i: int|
                0 <= i < twice.table.len() && slot_of(#[trigger] twice.table[i]) == slot ==> i
                    == at
            &&& forall|i: int|
                0 <= i < twice.table.len() && i != at ==> #[trigger] twice.table[i]
                    == once.table[i]
            &&& holds_grant(
                twice.table[at],
                key,
                second.local_ip,
                start.gateway,
                granted_second,
                at_second,
            )
            &&& granted_first.data->MapData_0.external_port
                == granted_second.data->MapData_0.external_port ==> twice.table[at].external_port
                == once.table[at].external_port && r_first->Ok_0.external.port
                == r_second->Ok_0.external.port
        }),
{
    let slot = Slot { key, protocol: first.protocol, local_port: first.local_port };
    lemma_registers_preserves_wf(start, key, first, received_first, at_first, once, r_first);
    lemma_registers_preserves_wf(once, key, second, received_second, at_second, twice, r_second);
    let at0 = index_of(start.table, slot);
    assert(slot_of(once.table[at0]) == slot);
    assert(holds(once.table, slot));
    let at = index_of(once.table, slot);
    assert(at == at0) by {
        if at != at0 {
            if at < at0 {
                assert(slot_of(once.table[at]) != slot_of(once.table[at0]));
            } else {
                assert(slot_of(once.table[at0]) != slot_of(once.table[at]));
            }
        }
    }
    assert(slot_of(twice.table[at]) == slot);
    assert forall|i: int|
        0 <= i < twice.table.len() && slot_of(#[trigger] twice.table[i]) == slot implies i
        == at by {
        if i != at {
            if i < at {
                assert(slot_of(twice.table[i]) != slot_of(twice.table[at]));
            } else {
                assert(slot_of(twice.table[at]) != slot_of(twice.table[i]));
            }
        }
    }
}

/// Unregistering a key that has no mapping changes nothing and calls for no
/// notification.
pub proof fn lemma_unregister_absent(table: Seq<Mapping>, key: Seq<char>)
    requires
        forall|i: int| 0 <= i < table.len() ==> (#[trigger] table[i]).key@ != key,
    ensures
        kept(table, key) == table,
        owned(table, key) == Seq::<Mapping>::empty(),
    decreases table.len(),
{
    lemma_kept_owned_step(table, key);
    if table.len() > 0 {
        assert(table.last() == table[table.len() - 1]);
        assert forall|i: int| 0 <= i < table.drop_last().len() implies (
        #[trigger] table.drop_last()[i]).key@ != key by {
            assert(table.drop_last()[i] == table[i]);
        }
        lemma_unregister_absent(table.drop_last(), key);
        assert(table.drop_last().push(table.last()) =~= table);
    }
}

/// What unregistering leaves holds no mapping of the key, and every mapping
/// it leaves or removes was in the table.
pub proof fn lemma_kept_and_owned(table: Seq<Mapping>, key: Seq<char>)
    ensures
        forall|i: int|
            0 <= i < kept(table, key).len() ==> (#[trigger] kept(table, key)[i]).key@ != key
                && table.contains(kept(table, key)[i]),
        forall|i: int|
            0 <= i < owned(table, key).len() ==> (#[trigger] owned(table, key)[i]).key@ == key
                && table.contains(owned(table, key)[i]),
        kept(table, key).len() + owned(table, key).len() == table.len(),
    decreases table.len(),
{
    lemma_kept_owned_step(table, key);
    if table.len() > 0 {
        let rest = table.drop_last();
        lemma_kept_and_owned(rest, key);
        assert(table[table.len() - 1] == table.last());
        assert forall|i: int| 0 <= i < kept(table, key).len() implies (#[trigger] kept(
            table,
            key,
        )[i]).key@ != key && table.contains(kept(table, key)[i]) by {
            if i < kept(rest, key).len() {
                let m = kept(rest, key)[i];
                assert(rest.contains(m));
                let j = choose|j: int| 0 <= j < rest.len() && rest[j] == m;
                assert(table[j] == m);
            }
        }
        assert forall|i: int| 0 <= i < owned(table, key).len() implies (#[trigger] owned(
            table,
            key,
        )[i]).key@ == key && table.contains(owned(table, key)[i]) by {
            if i < owned(rest, key).len() {
                let m = owned(rest, key)[i];
                assert(rest.contains(m));
                let j = choose|j: int| 0 <= j < rest.len() && rest[j] == m;
                assert(table[j] == m);
            }
        }
    }
}

/// Every mapping of a key is among those that unregistering the key
/// removes, and every other mapping is among those it leaves.
pub proof fn lemma_every_mapping_kept_or_owned(table: Seq<Mapping>, key: Seq<char>, i: int)
    requires
        0 <= i < table.len(),
    ensures
        table[i].key@ == key ==> owned(table, key).contains(table[i]),
        table[i].key@ != key ==> kept(table, key).contains(table[i]),
    decreases table.len(),
{
    lemma_kept_owned_step(table, key);
    let rest = table.drop_last();
    if i == table.len() - 1 {
        assert(table.last() == table[i]);
        if table[i].key@ == key {
            assert(owned(table, key).last() == table[i]);
        } else {
            assert(kept(table, key).last() == table[i]);
        }
    } else {
        lemma_every_mapping_kept_or_owned(rest, key, i);
        assert(rest[i] == table[i]);
        if table[i].key@ == key {
            let j = choose|j: int| 0 <= j < owned(rest, key).len() && owned(rest, key)[j] == table[i];
            assert(owned(table, key)[j] == table[i]);
        } else {
            let j = choose|j: int| 0 <= j < kept(rest, key).len() && kept(rest, key)[j] == table[i];
            assert(kept(table, key)[j] == table[i]);
        }
    }
}

/// Unregistering a key after a registration under it has succeeded removes
/// the granted mapping and calls for its deletion at the gateway: a `Map`
/// request with a lifetime of zero that names the protocol, the local port
/// and the nonce of the registration.
pub proof fn lemma_unregister_deletes_what_was_registered(
    before: MapperView,
    key: Seq<char>,
    asked: MappingRequest,
    received: Received,
    now: u64,
    after: MapperView,
    r: Result<Response, RegisterError>,
)
    requires
        before.wf(),
        registers(before, key, asked, received, now, after, r),
        r is Ok,
    ensures
        ({
            let slot = Slot { key, protocol: asked.protocol, local_port: asked.local_port };
            let m = after.table[index_of(before.table, slot)];
            &&& owned(after.table, key).contains(m)
            &&& !holds(kept(after.table, key), slot)
            &&& deletion_of(m) == RequestView::mapping(
                asked.nonce@,
                asked.protocol,
                asked.local_port,
                asked.local_ip.octets@,
                None,
                None,
                0,
            )
        }),
{
    let slot = Slot { key, protocol: asked.protocol, local_port: asked.local_port };
    let at = index_of(before.table, slot);
    lemma_every_mapping_kept_or_owned(after.table, key, at);
    lemma_kept_and_owned(after.table, key);
    if holds(kept(after.table, key), slot) {
        let j = choose|j: int|
            0 <= j < kept(after.table, key).len() && slot_of(#[trigger] kept(after.table, key)[j])
                == slot;
        assert(kept(after.table, key)[j].key@ == key);
    }
}

/// Unregistering a key a second time changes nothing and calls for no
/// notification.
pub proof fn lemma_unregister_twice(table: Seq<Mapping>, key: Seq<char>)
    ensures
        kept(kept(table, key), key) == kept(table, key),
        owned(kept(table, key), key) == Seq::<Mapping>::empty(),
{
    lemma_kept_and_owned(table, key);
    lemma_unregister_absent(kept(table, key), key);
}

} // verus!
