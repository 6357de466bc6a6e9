//! What holds of a whole search for a tunnel listener, and of the listeners over time.
use std::collections::hash_map::DefaultHasher;

use vstd::prelude::*;

use crate::addr::{Ipv4Address, SocketAddressV4};
use crate::tunnel::{AttemptModel, BindOutcome, KeyModel, StepModel, TunnelErrorModel};
use crate::tunnel::{TunnelError, TunnelKey, TunnelStep, MAX_BIND_ATTEMPTS};

verus! {

/// Where a search stands after some attempts. Each event is what came of one attempt, with the
/// listeners that there were at that time.
pub open spec fn search(
    prefix: Ipv4Address,
    step: StepModel,
    events: Seq<(BindOutcome, Map<KeyModel, SocketAddressV4>)>,
) -> StepModel
    decreases events.len(),
{
    match step {
        StepModel::TryBind(attempt) => if events.len() > 0 {
            search(
                prefix,
                crate::tunnel::next_step(prefix, attempt, events[0].0, events[0].1),
                events.drop_first(),
            )
        } else {
            step
        },
        _ => step,
    }
}

/// From a given attempt on, a search ends when all addresses were tried.
proof fn lemma_search_ends(
    prefix: Ipv4Address,
    attempt: AttemptModel,
    events: Seq<(BindOutcome, Map<KeyModel, SocketAddressV4>)>,
)
    requires
        attempt.attempt < MAX_BIND_ATTEMPTS,
        attempt.attempt + events.len() >= MAX_BIND_ATTEMPTS,
    ensures
        !(search(prefix, StepModel::TryBind(attempt), events) is TryBind),
    decreases events.len(),
{
    reveal_with_fuel(search, 2);
    match crate::tunnel::next_step(prefix, attempt, events[0].0, events[0].1) {
        StepModel::TryBind(next) => {
            lemma_search_ends(prefix, next, events.drop_first());
        },
        _ => {},
    }
}

/// A search binds as many addresses as are tried for one backend at most, whatever becomes of
/// them and whatever other searches do meanwhile.
pub proof fn law_search_ends(
    prefix: Ipv4Address,
    key: KeyModel,
    table: Map<KeyModel, SocketAddressV4>,
    events: Seq<(BindOutcome, Map<KeyModel, SocketAddressV4>)>,
)
    requires
        events.len() >= MAX_BIND_ATTEMPTS,
    ensures
        !(search(prefix, crate::tunnel::first_step(key, table), events) is TryBind),
{
    match crate::tunnel::first_step(key, table) {
        StepModel::TryBind(attempt) => {
            lemma_search_ends(prefix, attempt, events);
        },
        _ => {},
    }
}

/// After `n` failures a search stands at the attempt that follows them.
proof fn lemma_search_after_failures(
    prefix: Ipv4Address,
    attempt: AttemptModel,
    events: Seq<(BindOutcome, Map<KeyModel, SocketAddressV4>)>,
    n: nat,
)
    requires
        n <= events.len(),
        attempt.attempt + n < MAX_BIND_ATTEMPTS,
        forall|j: int| 0 <= j < n ==> (#[trigger] events[j]).0 == BindOutcome::Failed,
    ensures
        search(prefix, StepModel::TryBind(attempt), events) == search(
            prefix,
            StepModel::TryBind(AttemptModel { attempt: (attempt.attempt + n) as u8, ..attempt }),
            events.skip(n as int),
        ),
    decreases n,
{
    if n == 0 {
        assert(events.skip(0) =~= events);
        assert(AttemptModel { attempt: (attempt.attempt + n) as u8, ..attempt } == attempt);
    } else {
        let rest = events.drop_first();
        assert forall|j: int| 0 <= j < n - 1 implies (#[trigger] rest[j]).0
            == BindOutcome::Failed by {
            assert(rest[j] == events[j + 1]);
        }
        assert(events[0].0 == BindOutcome::Failed);
        lemma_search_after_failures(prefix, attempt.following(), rest, (n - 1) as nat);
        assert(rest.skip(n - 1) =~= events.skip(n as int));
    }
}

/// The first address that can be bound is the one that a backend gets, unless the backend has
/// got a listener by then: then it keeps that one.
pub proof fn law_first_bound_address_wins(
    prefix: Ipv4Address,
    key: KeyModel,
    table: Map<KeyModel, SocketAddressV4>,
    events: Seq<(BindOutcome, Map<KeyModel, SocketAddressV4>)>,
    n: u8,
)
    requires
        key.dst_port != 0,
        !table.contains_key(key),
        n < MAX_BIND_ATTEMPTS,
        n < events.len(),
        forall|j: int| 0 <= j < n ==> (#[trigger] events[j]).0 == BindOutcome::Failed,
        events[n as int].0 == BindOutcome::Bound,
    ensures
        search(prefix, crate::tunnel::first_step(key, table), events) == (
        if events[n as int].1.contains_key(key) {
            StepModel::Existing(events[n as int].1[key])
        } else {
            StepModel::Created(AttemptModel { key, attempt: n }.local(prefix))
        }),
{
    let first = AttemptModel { key, attempt: 0 };
    lemma_search_after_failures(prefix, first, events, n as nat);
    let rest = events.skip(n as int);
    assert(rest[0] == events[n as int]);
    reveal_with_fuel(search, 2);
}

/// A backend gets no tunnel where none of the addresses can be bound, and the error names it.
pub proof fn law_no_free_address(
    prefix: Ipv4Address,
    key: KeyModel,
    table: Map<KeyModel, SocketAddressV4>,
    events: Seq<(BindOutcome, Map<KeyModel, SocketAddressV4>)>,
)
    requires
        key.dst_port != 0,
        !table.contains_key(key),
        events.len() >= MAX_BIND_ATTEMPTS,
        forall|j: int|
            0 <= j < MAX_BIND_ATTEMPTS ==> (#[trigger] events[j]).0 == BindOutcome::Failed,
    ensures
        search(prefix, crate::tunnel::first_step(key, table), events) == StepModel::Failed(
            TunnelErrorModel::NoFreeAddress(key),
        ),
{
    let first = AttemptModel { key, attempt: 0 };
    let last = (MAX_BIND_ATTEMPTS - 1) as nat;
    lemma_search_after_failures(prefix, first, events, last);
    let rest = events.skip(last as int);
    assert(rest[0] == events[last as int]);
    reveal_with_fuel(search, 2);
}

/// From an empty table on, every listener has an address that is tried for its backend: each
/// step keeps that, and each attempt that a search makes is one of those.
pub proof fn law_tables_stay_sound(
    prefix: Ipv4Address,
    key: KeyModel,
    attempt: AttemptModel,
    outcome: BindOutcome,
    table: Map<KeyModel, SocketAddressV4>,
)
    ensures
        crate::tunnel::table_sound(prefix, Map::empty()),
        crate::tunnel::first_step(key, table) matches StepModel::TryBind(first)
            ==> first.in_range(),
        attempt.in_range() ==> (crate::tunnel::next_step(
            prefix,
            attempt,
            outcome,
            table,
        ) matches StepModel::TryBind(next) ==> next.in_range()),
        attempt.in_range() && crate::tunnel::table_sound(prefix, table)
            ==> crate::tunnel::table_sound(
            prefix,
            crate::tunnel::next_table(prefix, attempt, outcome, table),
        ),
{
    if attempt.in_range() && crate::tunnel::table_sound(prefix, table) {
        crate::tunnel::lemma_table_stays_sound(prefix, attempt, outcome, table);
    }
}

/// Every address that a backend gets has the real backend port, and lies under the loopback
/// prefix, away from octets 0 and 255; where the prefix is a loopback address, so is that one.
pub proof fn law_tunnel_addresses(
    prefix: Ipv4Address,
    key: KeyModel,
    table: Map<KeyModel, SocketAddressV4>,
    attempt: u8,
)
    requires
        crate::tunnel::table_sound(prefix, table),
    ensures
        crate::tunnel::has_listener_shape(prefix, key, AttemptModel { key, attempt }.local(prefix)),
        table.contains_key(key) ==> crate::tunnel::has_listener_shape(prefix, key, table[key]),
        prefix.is_loopback_spec() && table.contains_key(key)
            ==> table[key].ip.is_loopback_spec(),
{
    if table.contains_key(key) {
        assert(crate::tunnel::is_candidate(prefix, key, table[key]));
    }
}

/// A tunnel that was set up is found again: whoever asks for the backend next gets the same
/// address, and no step takes away or moves a listener that is there.
pub proof fn law_tunnels_are_kept(
    prefix: Ipv4Address,
    attempt: AttemptModel,
    outcome: BindOutcome,
    table: Map<KeyModel, SocketAddressV4>,
)
    requires
        attempt.key.dst_port != 0,
    ensures
        ({
            let after = crate::tunnel::next_table(prefix, attempt, outcome, table);
            let step = crate::tunnel::next_step(prefix, attempt, outcome, table);
            &&& step matches StepModel::Created(local) ==> crate::tunnel::first_step(
                attempt.key,
                after,
            ) == StepModel::Existing(local)
            &&& step matches StepModel::Existing(local) ==> crate::tunnel::first_step(
                attempt.key,
                after,
            ) == StepModel::Existing(local)
            &&& forall|k: KeyModel| #[trigger]
                table.contains_key(k) ==> after.contains_key(k) && after[k] == table[k]
        }),
{
}

/// Whether no two backends share an address.
pub open spec fn addresses_distinct(table: Map<KeyModel, SocketAddressV4>) -> bool {
    forall|j: KeyModel, k: KeyModel|
        #![trigger table.contains_key(j), table.contains_key(k)]
        table.contains_key(j) && table.contains_key(k) && j != k ==> table[j] != table[k]
}

/// Where an address can be bound only while no listener holds it, no two backends ever share
/// one.
pub proof fn law_addresses_stay_distinct(
    prefix: Ipv4Address,
    attempt: AttemptModel,
    outcome: BindOutcome,
    table: Map<KeyModel, SocketAddressV4>,
)
    requires
        addresses_distinct(table),
        outcome == BindOutcome::Bound ==> forall|k: KeyModel| #[trigger]
            table.contains_key(k) ==> table[k] != attempt.local(prefix),
    ensures
        addresses_distinct(Map::empty()),
        addresses_distinct(crate::tunnel::next_table(prefix, attempt, outcome, table)),
{
    let after = crate::tunnel::next_table(prefix, attempt, outcome, table);
    assert forall|j: KeyModel, k: KeyModel|
        #![trigger after.contains_key(j), after.contains_key(k)]
        after.contains_key(j) && after.contains_key(k) && j != k implies after[j] != after[k] by {
        if j != attempt.key {
            assert(table.contains_key(j));
        }
        if k != attempt.key {
            assert(table.contains_key(k));
        }
    }
}

/// What is hashed tells backends and attempts apart: two of them that differ write different
/// bytes to the hasher.
pub proof fn law_hash_input_tells_attempts_apart(x: AttemptModel, y: AttemptModel)
    requires
        crate::tunnel::hash_input(x.key, x.attempt) == crate::tunnel::hash_input(
            y.key,
            y.attempt,
        ),
    ensures
        x == y,
{
    let (p, q) = (
        crate::tunnel::hash_input(x.key, x.attempt),
        crate::tunnel::hash_input(y.key, y.attempt),
    );
    assert(p[0] == q[0] && p[2] == q[2] && p[4] == q[4] && p[5] == q[5]);
    vstd::utf8::encode_utf8_decode_utf8(x.key.remote_node);
    vstd::utf8::encode_utf8_decode_utf8(y.key.remote_node);
    vstd::utf8::encode_utf8_decode_utf8(x.key.dst_ip);
    vstd::utf8::encode_utf8_decode_utf8(y.key.dst_ip);
    assert(p[4][0] == q[4][0] && p[4][1] == q[4][1]);
    assert(p[5][0] == q[5][0]);
}

/// Whether an octet is the nearest one to a byte that is neither 0 nor 255.
pub open spec fn nearest_host_octet(octet: u8, byte: int) -> bool {
    &&& 1 <= octet <= 254
    &&& 1 <= byte <= 254 ==> octet == byte
    &&& byte < 1 ==> octet == 1
    &&& byte > 254 ==> octet == 254
}

/// The address of an attempt comes from the standard hash of all that tells it apart. What is
/// written to the hasher is the name of the node and the address of the backend there, each in
/// UTF-8 and followed by the byte 255, the two bytes of the port in the order of the machine, and
/// the number of the attempt. The lowest byte of the hash gives the third octet and the next one
/// the fourth; the first two are those of the prefix, and the port is that of the backend.
pub proof fn law_address_comes_from_the_hash(
    prefix: Ipv4Address,
    key: TunnelKey,
    attempt: u8,
    port_bytes: Seq<u8>,
)
    requires
        port_bytes.len() == 2,
        vstd::endian::endianness() is Little ==> port_bytes[0] + 256 * port_bytes[1]
            == key.dst_port,
        vstd::endian::endianness() is Big ==> 256 * port_bytes[0] + port_bytes[1] == key.dst_port,
    ensures
        ({
            let writes = seq![
                vstd::utf8::encode_utf8(key.remote_node@),
                seq![255u8],
                vstd::utf8::encode_utf8(key.dst_ip@),
                seq![255u8],
                port_bytes,
                seq![attempt],
            ];
            let hash =
                <DefaultHasher as vstd::std_specs::hash::DefaultHasherAdditionalSpecFns>::spec_finish(
                writes,
            );
            let ip = crate::tunnel::loopback_ip(prefix, key@, attempt);
            &&& ip.a == prefix.a
            &&& ip.b == prefix.b
            &&& nearest_host_octet(ip.c, hash as int % 256)
            &&& nearest_host_octet(ip.d, hash as int / 256 % 256)
            &&& AttemptModel { key: key@, attempt }.local(prefix) == SocketAddressV4 {
                ip,
                port: key.dst_port,
            }
        }),
{
    assert(port_bytes =~= crate::tunnel::native_bytes(key.dst_port));
    assert(crate::tunnel::hash_input(key@, attempt) =~= seq![
        vstd::utf8::encode_utf8(key.remote_node@),
        seq![255u8],
        vstd::utf8::encode_utf8(key.dst_ip@),
        seq![255u8],
        port_bytes,
        seq![attempt],
    ]);
}

/// The address for a hash has the first two octets of the prefix and the lowest two bytes of the
/// hash, lowest first, moved away from 0 and 255.
pub proof fn law_octets_of_a_hash(prefix: Ipv4Address, hash: u64)
    ensures
        crate::tunnel::ip_of_hash(prefix, hash).a == prefix.a,
        crate::tunnel::ip_of_hash(prefix, hash).b == prefix.b,
        nearest_host_octet(crate::tunnel::ip_of_hash(prefix, hash).c, hash as int % 256),
        nearest_host_octet(crate::tunnel::ip_of_hash(prefix, hash).d, hash as int / 256 % 256),
{
}

/// A search is refused exactly where the port is 0; else it gives back the listener that the
/// backend has, and where there is none, the first address is tried for just that backend.
pub proof fn law_search_begins(
    step: TunnelStep,
    key: TunnelKey,
    table: Map<KeyModel, SocketAddressV4>,
)
    requires
        step@ == crate::tunnel::first_step(key@, table),
    ensures
        key.dst_port == 0 <==> step is Failed,
        step matches TunnelStep::Failed(err) ==> err is UnknownPort,
        key.dst_port != 0 && table.contains_key(key@) <==> step is Existing,
        step matches TunnelStep::Existing(local) ==> local == table[key@],
        !(step is Created),
        step matches TunnelStep::TryBind(attempt) ==> attempt@ == (AttemptModel {
            key: key@,
            attempt: 0,
        }),
{
}

/// A bound address becomes the backend's, unless the backend has got another one meanwhile. After
/// an address that could not be bound the next one is tried, up to the 64th, and after that the
/// search fails and names the backend.
pub proof fn law_search_goes_on(
    step: TunnelStep,
    prefix: Ipv4Address,
    attempt: AttemptModel,
    table: Map<KeyModel, SocketAddressV4>,
    outcome: BindOutcome,
)
    requires
        attempt.attempt < 64,
        step@ == crate::tunnel::next_step(prefix, attempt, outcome, table),
    ensures
        attempt.in_range() <==> attempt.key.dst_port != 0,
        outcome == BindOutcome::Bound && table.contains_key(attempt.key) ==> step
            == TunnelStep::Existing(table[attempt.key]),
        outcome == BindOutcome::Bound && !table.contains_key(attempt.key) ==> step
            == TunnelStep::Created(
            SocketAddressV4 {
                ip: crate::tunnel::loopback_ip(prefix, attempt.key, attempt.attempt),
                port: attempt.key.dst_port,
            },
        ),
        outcome == BindOutcome::Failed && attempt.attempt < 63 ==> (
        step matches TunnelStep::TryBind(next) && next@.key == attempt.key && next@.attempt
            == attempt.attempt + 1),
        outcome == BindOutcome::Failed && attempt.attempt == 63 ==> (
        step matches TunnelStep::Failed(err) && (err matches TunnelError::NoFreeAddress {
            remote_node,
            dst_ip,
            dst_port,
        } && remote_node@ == attempt.key.remote_node && dst_ip@ == attempt.key.dst_ip && dst_port
            == attempt.key.dst_port)),
{
}

/// A search for a backend with a known port tries all 64 addresses before it fails: after any
/// `n` addresses that could not be bound it stands at the one that follows them.
pub proof fn law_search_tries_every_address(
    prefix: Ipv4Address,
    key: KeyModel,
    table: Map<KeyModel, SocketAddressV4>,
    events: Seq<(BindOutcome, Map<KeyModel, SocketAddressV4>)>,
)
    requires
        key.dst_port != 0,
        !table.contains_key(key),
        events.len() < 64,
        forall|j: int| 0 <= j < events.len() ==> (#[trigger] events[j]).0 == BindOutcome::Failed,
    ensures
        search(prefix, crate::tunnel::first_step(key, table), events) == StepModel::TryBind(
            AttemptModel { key, attempt: events.len() as u8 },
        ),
{
    lemma_search_after_failures(
        prefix,
        AttemptModel { key, attempt: 0 },
        events,
        events.len(),
    );
}

/// Only a bound address of a backend without listener changes the listeners: it is entered for
/// that backend, and nothing else changes.
pub proof fn law_one_listener_is_entered(
    prefix: Ipv4Address,
    attempt: AttemptModel,
    outcome: BindOutcome,
    table: Map<KeyModel, SocketAddressV4>,
    key: KeyModel,
)
    ensures
        ({
            let after = crate::tunnel::next_table(prefix, attempt, outcome, table);
            &&& outcome == BindOutcome::Failed ==> after == table
            &&& table.contains_key(attempt.key) ==> after == table
            &&& key != attempt.key ==> (after.contains_key(key) <==> table.contains_key(key))
            &&& table.contains_key(key) ==> after.contains_key(key) && after[key] == table[key]
            &&& outcome == BindOutcome::Bound && !table.contains_key(attempt.key)
                ==> after.contains_key(attempt.key) && after[attempt.key] == SocketAddressV4 {
                ip: crate::tunnel::loopback_ip(prefix, attempt.key, attempt.attempt),
                port: attempt.key.dst_port,
            }
        }),
{
}

/// A table gives the address that it holds for a backend, and none for a backend that it does
/// not hold.
pub proof fn law_table_gives_what_it_holds(
    table: Map<KeyModel, SocketAddressV4>,
    key: KeyModel,
    local: SocketAddressV4,
)
    ensures
        crate::tunnel::table_get(table.insert(key, local), key) == Some(local),
        crate::tunnel::table_get(table.remove(key), key) is None,
        table.contains_key(key) ==> crate::tunnel::table_get(table, key) == Some(table[key]),
        !table.contains_key(key) ==> crate::tunnel::table_get(table, key) is None,
{
}

/// The address of a listener has the port of its backend, the first two octets of the prefix,
/// and last octets from 1 to 254.
pub proof fn law_listener_shape(prefix: Ipv4Address, key: KeyModel, local: SocketAddressV4)
    ensures
        crate::tunnel::has_listener_shape(prefix, key, local) <==> local.port == key.dst_port
            && local.ip.a == prefix.a && local.ip.b == prefix.b && local.ip.c != 0 && local.ip.c
            != 255 && local.ip.d != 0 && local.ip.d != 255,
{
}

/// The sentence of a tunnel error says that the port is not known, or names the backend that got
/// no address.
pub proof fn law_tunnel_error_sentences(err: TunnelError)
    ensures
        err is UnknownPort ==> err@.message() == "cannot tunnel endpoint with unknown port 0"@,
        err matches TunnelError::NoFreeAddress { remote_node, dst_ip, dst_port } ==> err@.message()
            == "unable to bind deterministic loopback listener for "@ + remote_node@ + " "@ + dst_ip@
            + ":"@ + crate::text::decimal(dst_port as nat),
{
}

}
