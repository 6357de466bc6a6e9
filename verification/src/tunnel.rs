//! Local tunnel listeners: which loopback address a remote backend gets, which listeners there
//! are, and the search for an address that can be bound.
use std::collections::hash_map::DefaultHasher;
use std::hash::Hasher;

use vstd::prelude::*;
use vstd::string::StringExecFns;

use crate::addr::{Ipv4Address, SocketAddressV4};
use crate::text::{decimal_string, str_eq};

verus! {

/// How many loopback addresses are tried for one backend.
pub const MAX_BIND_ATTEMPTS: u8 = 64;

/// A remote backend: the node that owns it, its address there, and its port.
#[derive(Debug, PartialEq, Eq, Hash)]
pub struct TunnelKey {
    pub remote_node: String,
    pub dst_ip: String,
    pub dst_port: u16,
}

/// A remote backend, with text as character sequences.
pub struct KeyModel {
    pub remote_node: Seq<char>,
    pub dst_ip: Seq<char>,
    pub dst_port: u16,
}

impl View for TunnelKey {
    type V = KeyModel;

    open spec fn view(&self) -> KeyModel {
        KeyModel {
            remote_node: self.remote_node@,
            dst_ip: self.dst_ip@,
            dst_port: self.dst_port,
        }
    }
}

impl Clone for TunnelKey {
    fn clone(&self) -> (key: TunnelKey)
        ensures
            key@ == self@,
    {
        TunnelKey {
            remote_node: self.remote_node.clone(),
            dst_ip: self.dst_ip.clone(),
            dst_port: self.dst_port,
        }
    }
}

impl TunnelKey {
    /// Whether two keys name the same backend.
    pub fn same_as(&self, other: &TunnelKey) -> (same: bool)
        ensures
            same == (self@ == other@),
    {
        self.dst_port == other.dst_port && str_eq(self.dst_ip.as_str(), other.dst_ip.as_str())
            && str_eq(self.remote_node.as_str(), other.remote_node.as_str())
    }
}

/// The two bytes of `x` in the order in which this machine keeps them in memory.
pub open spec fn native_bytes(x: u16) -> Seq<u8> {
    let (low, high) = ((x % 256) as u8, (x / 256) as u8);
    match vstd::endian::endianness() {
        vstd::endian::Endian::Little => seq![low, high],
        vstd::endian::Endian::Big => seq![high, low],
    }
}

/// Calls `u16::to_ne_bytes`, which returns the memory representation of its argument: the two
/// bytes in the byte order of the machine.
#[verifier::external_body]
fn to_native_bytes(x: u16) -> (bytes: [u8; 2])
    ensures
        bytes@ == native_bytes(x),
{
    x.to_ne_bytes()
}

/// What is written to the hasher for a key and an attempt: each text followed by a byte that
/// occurs in no UTF-8 text, then the port, then the attempt.
pub open spec fn hash_input(key: KeyModel, attempt: u8) -> Seq<Seq<u8>> {
    seq![
        vstd::utf8::encode_utf8(key.remote_node),
        seq![0xffu8],
        vstd::utf8::encode_utf8(key.dst_ip),
        seq![0xffu8],
        native_bytes(key.dst_port),
        seq![attempt],
    ]
}

/// The hash of a key and an attempt.
pub open spec fn tunnel_hash(key: KeyModel, attempt: u8) -> u64 {
    <DefaultHasher as vstd::std_specs::hash::DefaultHasherAdditionalSpecFns>::spec_finish(
        hash_input(key, attempt),
    )
}

/// Hashes a key and an attempt.
fn hash_key(key: &TunnelKey, attempt: u8) -> (hash: u64)
    ensures
        hash == tunnel_hash(key@, attempt),
{
    let end: [u8; 1] = [0xff];
    let last: [u8; 1] = [attempt];
    let mut hasher = DefaultHasher::new();
    hasher.write(key.remote_node.as_str().as_bytes());
    hasher.write(end.as_slice());
    hasher.write(key.dst_ip.as_str().as_bytes());
    hasher.write(end.as_slice());
    hasher.write(to_native_bytes(key.dst_port).as_slice());
    hasher.write(last.as_slice());
    assert(end@ =~= seq![0xffu8]);
    assert(last@ =~= seq![attempt]);
    assert(hasher@ =~= hash_input(key@, attempt));
    hasher.finish()
}

/// The octet nearest to `x` that is neither 0 nor 255.
pub open spec fn host_octet(x: u64) -> u8 {
    if x < 1 {
        1
    } else if x > 254 {
        254
    } else {
        x as u8
    }
}

/// The loopback address for a hash: the first two octets of the prefix, then the lowest two
/// bytes of the hash, lowest first, kept away from 0 and 255.
pub open spec fn ip_of_hash(prefix: Ipv4Address, hash: u64) -> Ipv4Address {
    Ipv4Address {
        a: prefix.a,
        b: prefix.b,
        c: host_octet(hash % 256),
        d: host_octet(hash / 256 % 256),
    }
}

/// The loopback address for a hash: the first two octets of the prefix, then the lowest two
/// bytes of the hash, lowest first, kept away from 0 and 255.
pub fn loopback_ip_for_hash(prefix: Ipv4Address, hash: u64) -> (ip: Ipv4Address)
    ensures
        ip == ip_of_hash(prefix, hash),
{
    let low: u8 = (hash % 256) as u8;
    let high: u8 = (hash / 256 % 256) as u8;
    Ipv4Address { a: prefix.a, b: prefix.b, c: clamp_octet(low), d: clamp_octet(high) }
}

/// The octet nearest to `x` that is neither 0 nor 255.
fn clamp_octet(x: u8) -> (octet: u8)
    ensures
        octet == host_octet(x as u64),
{
    if x < 1 {
        1
    } else if x > 254 {
        254
    } else {
        x
    }
}

/// The loopback address that the given attempt at a backend uses.
pub open spec fn loopback_ip(prefix: Ipv4Address, key: KeyModel, attempt: u8) -> Ipv4Address {
    ip_of_hash(prefix, tunnel_hash(key, attempt))
}

/// The loopback address that the given attempt at a backend uses.
pub(crate) fn deterministic_ip(prefix: Ipv4Address, key: &TunnelKey, attempt: u8) -> (ip:
    Ipv4Address)
    ensures
        ip == loopback_ip(prefix, key@, attempt),
{
    loopback_ip_for_hash(prefix, hash_key(key, attempt))
}

/// A listener: the backend it stands for, and the local address it is bound to.
struct ListenerEntry {
    key: TunnelKey,
    local: SocketAddressV4,
}

/// The local listeners, one for each backend at most.
pub struct ListenerTable {
    entries: Vec<ListenerEntry>,
}

/// The addresses of the listed backends.
spec fn entries_map(entries: Seq<ListenerEntry>) -> Map<KeyModel, SocketAddressV4>
    decreases entries.len(),
{
    if entries.len() == 0 {
        Map::empty()
    } else {
        entries_map(entries.drop_last()).insert(entries.last().key@, entries.last().local)
    }
}

/// Each listed backend has an address, and only those do.
proof fn lemma_entries_map(entries: Seq<ListenerEntry>)
    requires
        distinct_keys(entries),
    ensures
        forall|i: int|
            0 <= i < entries.len() ==> entries_map(entries).contains_key(
                (#[trigger] entries[i]).key@,
            ) && entries_map(entries)[entries[i].key@] == entries[i].local,
        forall|k: KeyModel| #[trigger]
            entries_map(entries).contains_key(k) ==> exists|i: int|
                0 <= i < entries.len() && (#[trigger] entries[i]).key@ == k,
    decreases entries.len(),
{
    if entries.len() > 0 {
        let init = entries.drop_last();
        assert forall|i: int, j: int| 0 <= i < j < init.len() implies (#[trigger] init[i]).key@ != (
        #[trigger] init[j]).key@ by {
            assert(init[i] == entries[i] && init[j] == entries[j]);
        }
        lemma_entries_map(init);
        assert forall|i: int| 0 <= i < entries.len() implies entries_map(entries).contains_key(
            (#[trigger] entries[i]).key@,
        ) && entries_map(entries)[entries[i].key@] == entries[i].local by {
            if i < init.len() {
                assert(init[i] == entries[i]);
            }
        }
        assert forall|k: KeyModel| #[trigger] entries_map(entries).contains_key(k) implies exists|
            i: int,
        |
            0 <= i < entries.len() && (#[trigger] entries[i]).key@ == k by {
            if k == entries.last().key@ {
                assert(entries[entries.len() - 1].key@ == k);
            } else {
                assert(entries_map(init).contains_key(k));
                let i = choose|i: int| 0 <= i < init.len() && (#[trigger] init[i]).key@ == k;
                assert(entries[i].key@ == k);
            }
        }
    }
}

/// Whether no backend is listed twice.
spec fn distinct_keys(entries: Seq<ListenerEntry>) -> bool {
    forall|i: int, j: int|
        0 <= i < j < entries.len() ==> (#[trigger] entries[i]).key@ != (#[trigger] entries[j]).key@
}

impl View for ListenerTable {
    type V = Map<KeyModel, SocketAddressV4>;

    closed spec fn view(&self) -> Map<KeyModel, SocketAddressV4> {
        entries_map(self.entries@)
    }
}

impl ListenerTable {
    #[verifier::type_invariant]
    spec fn wf(self) -> bool {
        distinct_keys(self.entries@)
    }

    /// A table without listeners.
    pub fn new() -> (table: Self)
        ensures
            table@ == Map::<KeyModel, SocketAddressV4>::empty(),
    {
        ListenerTable { entries: Vec::new() }
    }

    /// The address of the listener for a backend, if there is one.
    pub fn get(&self, key: &TunnelKey) -> (local: Option<SocketAddressV4>)
        ensures
            local == table_get(self@, key@),
    {
        proof {
            use_type_invariant(self);
            lemma_entries_map(self.entries@);
        }
        let mut i: usize = 0;
        while i < self.entries.len()
            invariant
                i <= self.entries@.len(),
                forall|j: int| 0 <= j < i ==> (#[trigger] self.entries@[j]).key@ != key@,
                forall|j: int|
                    0 <= j < self.entries@.len() ==> self@.contains_key(
                        (#[trigger] self.entries@[j]).key@,
                    ) && self@[self.entries@[j].key@] == self.entries@[j].local,
            decreases self.entries@.len() - i,
        {
            if self.entries[i].key.same_as(key) {
                return Some(self.entries[i].local);
            }
            i = i + 1;
        }
        None
    }

    /// Enters a listener for a backend that has none. Where the backend has one already, its
    /// address is returned and the table stays as it is.
    pub fn claim(&mut self, key: TunnelKey, local: SocketAddressV4) -> (existing: Option<
        SocketAddressV4,
    >)
        ensures
            existing == table_get(old(self)@, key@),
            final(self)@ == (if existing is Some {
                old(self)@
            } else {
                old(self)@.insert(key@, local)
            }),
    {
        let existing = self.get(&key);
        if existing.is_some() {
            return existing;
        }
        proof {
            use_type_invariant(&*self);
            lemma_entries_map(self.entries@);
        }
        let mut entries: Vec<ListenerEntry> = Vec::new();
        std::mem::swap(&mut entries, &mut self.entries);
        let ghost before = entries@;
        entries.push(ListenerEntry { key, local });
        assert(entries@.drop_last() =~= before);
        self.entries = entries;
        None
    }
}

/// What a table holds for a backend.
pub open spec fn table_get(
    table: Map<KeyModel, SocketAddressV4>,
    key: KeyModel,
) -> Option<SocketAddressV4> {
    if table.contains_key(key) {
        Some(table[key])
    } else {
        None
    }
}

/// Why a backend gets no tunnel.
#[derive(Debug)]
pub enum TunnelError {
    /// The port of the backend is not known.
    UnknownPort,
    /// None of the loopback addresses for the backend could be bound.
    NoFreeAddress { remote_node: String, dst_ip: String, dst_port: u16 },
}

/// A tunnel error, with text as character sequences.
pub enum TunnelErrorModel {
    UnknownPort,
    NoFreeAddress(KeyModel),
}

impl View for TunnelError {
    type V = TunnelErrorModel;

    open spec fn view(&self) -> TunnelErrorModel {
        match self {
            TunnelError::UnknownPort => TunnelErrorModel::UnknownPort,
            TunnelError::NoFreeAddress { remote_node, dst_ip, dst_port } =>
                TunnelErrorModel::NoFreeAddress(
                KeyModel { remote_node: remote_node@, dst_ip: dst_ip@, dst_port: *dst_port },
            ),
        }
    }
}

impl TunnelErrorModel {
    /// The sentence that tells an operator about the error.
    pub open spec fn message(self) -> Seq<char> {
        match self {
            TunnelErrorModel::UnknownPort => "cannot tunnel endpoint with unknown port 0"@,
            TunnelErrorModel::NoFreeAddress(key) =>
                "unable to bind deterministic loopback listener for "@ + key.remote_node + " "@
                + key.dst_ip + ":"@ + crate::text::decimal(key.dst_port as nat),
        }
    }
}

impl TunnelError {
    /// The sentence that tells an operator about the error.
    pub fn message(&self) -> (s: String)
        ensures
            s@ == self@.message(),
    {
        match self {
            TunnelError::UnknownPort => "cannot tunnel endpoint with unknown port 0".to_owned(),
            TunnelError::NoFreeAddress { remote_node, dst_ip, dst_port } => {
                let mut s = "unable to bind deterministic loopback listener for ".to_owned();
                s.append(remote_node.as_str());
                s.append(" ");
                s.append(dst_ip.as_str());
                s.append(":");
                s.append(decimal_string(*dst_port as u64).as_str());
                s
            },
        }
    }
}

/// An attempt at a listener for a backend.
#[derive(Debug)]
pub struct TunnelAttempt {
    key: TunnelKey,
    attempt: u8,
}

/// An attempt at a listener: the backend, and how many addresses were tried before.
pub struct AttemptModel {
    pub key: KeyModel,
    pub attempt: u8,
}

impl View for TunnelAttempt {
    type V = AttemptModel;

    closed spec fn view(&self) -> AttemptModel {
        AttemptModel { key: self.key@, attempt: self.attempt }
    }
}

impl AttemptModel {
    /// The address to bind: the loopback address of the attempt, with the port of the backend.
    pub open spec fn local(self, prefix: Ipv4Address) -> SocketAddressV4 {
        SocketAddressV4 {
            ip: loopback_ip(prefix, self.key, self.attempt),
            port: self.key.dst_port,
        }
    }

    /// The attempt that follows this one.
    pub open spec fn following(self) -> AttemptModel {
        AttemptModel { key: self.key, attempt: (self.attempt + 1) as u8 }
    }

    /// Whether a search makes this attempt: the port is known, and the limit is kept.
    pub open spec fn in_range(self) -> bool {
        self.key.dst_port != 0 && self.attempt < MAX_BIND_ATTEMPTS
    }
}

/// What came of binding a local address.
#[derive(Debug, Clone, Copy, PartialEq, Eq, Structural)]
pub enum BindOutcome {
    /// The address is bound now.
    Bound,
    /// The address could not be bound.
    Failed,
}

/// What to do next for a backend.
#[derive(Debug)]
pub enum TunnelStep {
    /// Bind the address of this attempt and report what came of it.
    TryBind(TunnelAttempt),
    /// The backend has a listener at this address; one that was bound just now is to be closed.
    Existing(SocketAddressV4),
    /// The listener that was bound just now, at this address, is the backend's: serve it.
    Created(SocketAddressV4),
    /// There is no tunnel.
    Failed(TunnelError),
}

/// What to do next, with text as character sequences.
pub enum StepModel {
    TryBind(AttemptModel),
    Existing(SocketAddressV4),
    Created(SocketAddressV4),
    Failed(TunnelErrorModel),
}

impl View for TunnelStep {
    type V = StepModel;

    open spec fn view(&self) -> StepModel {
        match self {
            TunnelStep::TryBind(attempt) => StepModel::TryBind(attempt@),
            TunnelStep::Existing(local) => StepModel::Existing(*local),
            TunnelStep::Created(local) => StepModel::Created(*local),
            TunnelStep::Failed(err) => StepModel::Failed(err@),
        }
    }
}

/// How the search for a listener begins: an unknown port is refused, a listener that is there
/// is used, and else the first address is tried.
pub open spec fn first_step(
    key: KeyModel,
    table: Map<KeyModel, SocketAddressV4>,
) -> StepModel {
    if key.dst_port == 0 {
        StepModel::Failed(TunnelErrorModel::UnknownPort)
    } else if table.contains_key(key) {
        StepModel::Existing(table[key])
    } else {
        StepModel::TryBind(AttemptModel { key, attempt: 0 })
    }
}

/// How the search goes on, where `table` holds the listeners at that time: a bound address is
/// the backend's unless the backend got a listener meanwhile; after a failure the next address
/// is tried, up to the last one.
pub open spec fn next_step(
    prefix: Ipv4Address,
    attempt: AttemptModel,
    outcome: BindOutcome,
    table: Map<KeyModel, SocketAddressV4>,
) -> StepModel {
    match outcome {
        BindOutcome::Bound => if table.contains_key(attempt.key) {
            StepModel::Existing(table[attempt.key])
        } else {
            StepModel::Created(attempt.local(prefix))
        },
        BindOutcome::Failed => if attempt.attempt + 1 < MAX_BIND_ATTEMPTS {
            StepModel::TryBind(attempt.following())
        } else {
            StepModel::Failed(TunnelErrorModel::NoFreeAddress(attempt.key))
        },
    }
}

/// The listeners after that: a bound address of a backend without listener is entered.
pub open spec fn next_table(
    prefix: Ipv4Address,
    attempt: AttemptModel,
    outcome: BindOutcome,
    table: Map<KeyModel, SocketAddressV4>,
) -> Map<KeyModel, SocketAddressV4> {
    if outcome == BindOutcome::Bound && !table.contains_key(attempt.key) {
        table.insert(attempt.key, attempt.local(prefix))
    } else {
        table
    }
}

/// Whether a local address is one of those that are tried for a backend.
pub open spec fn is_candidate(prefix: Ipv4Address, key: KeyModel, local: SocketAddressV4) -> bool {
    exists|n: u8|
        n < MAX_BIND_ATTEMPTS && local == #[trigger] (AttemptModel { key, attempt: n }).local(
            prefix,
        )
}

/// Whether each listener has an address that is tried for its backend.
pub open spec fn table_sound(
    prefix: Ipv4Address,
    table: Map<KeyModel, SocketAddressV4>,
) -> bool {
    forall|key: KeyModel| #[trigger]
        table.contains_key(key) ==> key.dst_port != 0 && is_candidate(prefix, key, table[key])
}

/// Whether a local address has the real port of the backend and an IP that takes its first two
/// octets from the prefix and whose last two octets are neither 0 nor 255.
pub open spec fn has_listener_shape(
    prefix: Ipv4Address,
    key: KeyModel,
    local: SocketAddressV4,
) -> bool {
    &&& local.port == key.dst_port
    &&& local.ip.a == prefix.a
    &&& local.ip.b == prefix.b
    &&& 1 <= local.ip.c <= 254
    &&& 1 <= local.ip.d <= 254
}

/// A step of a search keeps the listeners sound.
pub proof fn lemma_table_stays_sound(
    prefix: Ipv4Address,
    attempt: AttemptModel,
    outcome: BindOutcome,
    table: Map<KeyModel, SocketAddressV4>,
)
    requires
        attempt.in_range(),
        table_sound(prefix, table),
    ensures
        table_sound(prefix, next_table(prefix, attempt, outcome, table)),
{
    let after = next_table(prefix, attempt, outcome, table);
    assert forall|k: KeyModel| #[trigger] after.contains_key(k) implies k.dst_port != 0
        && is_candidate(prefix, k, after[k]) by {
        if table.contains_key(k) {
            assert(after[k] == table[k]);
        } else {
            assert(after[k] == AttemptModel { key: k, attempt: attempt.attempt }.local(prefix));
        }
    }
}

impl TunnelAttempt {
    #[verifier::type_invariant]
    spec fn wf(self) -> bool {
        self.key.dst_port != 0 && self.attempt < MAX_BIND_ATTEMPTS
    }

    /// The backend.
    pub fn key(&self) -> (key: &TunnelKey)
        ensures
            key@ == self@.key,
            self@.in_range(),
    {
        proof {
            use_type_invariant(self);
        }
        &self.key
    }

    /// The address to bind under the given loopback prefix.
    pub(crate) fn local_under(&self, prefix: Ipv4Address) -> (local: SocketAddressV4)
        ensures
            local == self@.local(prefix),
            self@.in_range(),
    {
        proof {
            use_type_invariant(self);
        }
        SocketAddressV4 {
            ip: deterministic_ip(prefix, &self.key, self.attempt),
            port: self.key.dst_port,
        }
    }

    /// Begins a search, where `listeners` is the table at that time.
    pub(crate) fn begin(key: TunnelKey, listeners: &ListenerTable) -> (step: TunnelStep)
        ensures
            step@ == first_step(key@, listeners@),
    {
        if key.dst_port == 0 {
            return TunnelStep::Failed(TunnelError::UnknownPort);
        }
        match listeners.get(&key) {
            Some(existing) => TunnelStep::Existing(existing),
            None => TunnelStep::TryBind(TunnelAttempt { key, attempt: 0 }),
        }
    }

    /// Goes on with a search after the address of this attempt was tried, where `listeners` is
    /// the table at that time.
    pub(crate) fn advance(
        self,
        prefix: Ipv4Address,
        outcome: BindOutcome,
        listeners: &mut ListenerTable,
    ) -> (step: TunnelStep)
        ensures
            self@.in_range(),
            step@ == next_step(prefix, self@, outcome, old(listeners)@),
            final(listeners)@ == next_table(prefix, self@, outcome, old(listeners)@),
    {
        proof {
            use_type_invariant(&self);
        }
        match outcome {
            BindOutcome::Bound => {
                let local = self.local_under(prefix);
                match listeners.claim(self.key, local) {
                    Some(existing) => TunnelStep::Existing(existing),
                    None => TunnelStep::Created(local),
                }
            },
            BindOutcome::Failed => {
                if self.attempt < MAX_BIND_ATTEMPTS - 1 {
                    TunnelStep::TryBind(
                        TunnelAttempt { key: self.key, attempt: self.attempt + 1 },
                    )
                } else {
                    TunnelStep::Failed(
                        TunnelError::NoFreeAddress {
                            remote_node: self.key.remote_node,
                            dst_ip: self.key.dst_ip,
                            dst_port: self.key.dst_port,
                        },
                    )
                }
            },
        }
    }
}

}
