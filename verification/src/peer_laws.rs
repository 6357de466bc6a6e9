//! What holds of the advertisement catalog as a whole.
use iroh::EndpointAddr;
use vstd::prelude::*;

use crate::config::ConfigModel;
use crate::peers::{AdvertisementModel, IrohNodeAdvertisement};
use crate::publish::PublishStep;
use crate::refresh::{Reading, RefreshEvent, RefreshStep};

verus! {

/// The advertisement of a node is stored under the prefix, under the node's name, and apart
/// from that of every other node. A node does not take its own for that of a peer, and takes
/// that of every other node for one.
pub proof fn law_advertisement_keys(
    prefix: Seq<char>,
    own: Seq<char>,
    node: Seq<char>,
    other: Seq<char>,
)
    ensures
        crate::text::has_prefix(crate::peers::key_of_node(prefix, node), prefix),
        crate::peers::key_of_node(prefix, node).skip(prefix.len() as int) == node,
        crate::peers::key_of_node(prefix, node) == crate::peers::key_of_node(prefix, other)
            <==> node == other,
        crate::peers::is_peer_key(prefix, own, crate::peers::key_of_node(prefix, node)) <==> node
            != own,
{
    let key = crate::peers::key_of_node(prefix, node);
    assert(key.take(prefix.len() as int) =~= prefix);
    assert(key.skip(prefix.len() as int) =~= node);
    assert(crate::peers::key_of_node(prefix, other).skip(prefix.len() as int) =~= other);
}

/// A node has an address exactly where some advertisement names it, and the address is from
/// one of those.
proof fn lemma_last_advertised(ads: Seq<Option<AdvertisementModel>>, node: Seq<char>)
    ensures
        crate::peers::last_advertised(ads, node) matches Some(addr) ==> exists|i: int|
            0 <= i < ads.len() && (#[trigger] ads[i]) is Some && ads[i]->0.node_name == node
                && ads[i]->0.endpoint_addr == addr,
        crate::peers::last_advertised(ads, node) is None ==> forall|i: int|
            0 <= i < ads.len() && (#[trigger] ads[i]) is Some ==> ads[i]->0.node_name != node,
    decreases ads.len(),
{
    if ads.len() > 0 {
        let init = ads.drop_last();
        lemma_last_advertised(init, node);
        if ads.last() is Some && ads.last()->0.node_name == node {
            assert(ads[ads.len() - 1] == ads.last());
        } else {
            assert(crate::peers::last_advertised(ads, node) == crate::peers::last_advertised(
                init,
                node,
            ));
            match crate::peers::last_advertised(init, node) {
                Some(addr) => {
                    let i = choose|i: int|
                        0 <= i < init.len() && (#[trigger] init[i]) is Some
                            && init[i]->0.node_name == node && init[i]->0.endpoint_addr == addr;
                    assert(ads[i] == init[i]);
                },
                None => {
                    assert forall|i: int|
                        0 <= i < ads.len() && (#[trigger] ads[i]) is Some implies ads[i]->0.node_name
                        != node by {
                        if i < init.len() {
                            assert(init[i] == ads[i]);
                        }
                    }
                },
            }
        }
    }
}

/// Of several advertisements that name a node, the one that was read last counts.
pub proof fn law_last_advertisement_counts(
    ads: Seq<Option<AdvertisementModel>>,
    later: Seq<Option<AdvertisementModel>>,
    ad: AdvertisementModel,
)
    requires
        forall|j: int|
            0 <= j < later.len() && (#[trigger] later[j]) is Some ==> later[j]->0.node_name
                != ad.node_name,
    ensures
        crate::peers::last_advertised(ads.push(Some(ad)) + later, ad.node_name) == Some(
            ad.endpoint_addr,
        ),
    decreases later.len(),
{
    let all = ads.push(Some(ad)) + later;
    if later.len() == 0 {
        assert(all.last() == Some(ad));
    } else {
        let fewer = later.drop_last();
        assert forall|j: int|
            0 <= j < fewer.len() && (#[trigger] fewer[j]) is Some implies fewer[j]->0.node_name
            != ad.node_name by {
            assert(fewer[j] == later[j]);
        }
        law_last_advertisement_counts(ads, fewer, ad);
        assert(all.drop_last() =~= ads.push(Some(ad)) + fewer);
        assert(all.last() == later[later.len() - 1]);
    }
}

/// What storage gives back for each of a list of keys.
pub open spec fn read_all(
    storage: Map<Seq<char>, AdvertisementModel>,
    keys: Seq<Seq<char>>,
) -> Seq<Option<AdvertisementModel>> {
    keys.map_values(
        |key: Seq<char>|
            if storage.contains_key(key) {
                Some(storage[key])
            } else {
                None
            },
    )
}

/// What a filter lets through was there before.
proof fn lemma_filter_keeps<A>(s: Seq<A>, pred: spec_fn(A) -> bool, i: int)
    requires
        0 <= i < s.filter(pred).len(),
    ensures
        s.contains(s.filter(pred)[i]),
        pred(s.filter(pred)[i]),
    decreases s.len(),
{
    reveal(Seq::filter);
    if s.len() > 0 {
        let init = s.drop_last();
        if i < init.filter(pred).len() {
            lemma_filter_keeps(init, pred, i);
            let j = choose|j: int| 0 <= j < init.len() && init[j] == init.filter(pred)[i];
            assert(s[j] == s.filter(pred)[i]);
        } else {
            assert(s[s.len() - 1] == s.filter(pred)[i]);
        }
    }
}

/// A refresh finds another node that published itself under its key, where that key is listed,
/// with the address that it published. It finds neither the node itself nor one that did not
/// publish. For this, no other listed advertisement may carry the name of the node asked about.
pub proof fn law_refresh_finds_the_published_peers(
    prefix: Seq<char>,
    own: Seq<char>,
    storage: Map<Seq<char>, AdvertisementModel>,
    listing: Seq<Seq<char>>,
    node: Seq<char>,
)
    requires
        forall|key: Seq<char>| #[trigger]
            storage.contains_key(key) && listing.contains(key) && crate::peers::is_peer_key(
                prefix,
                own,
                key,
            ) && storage[key].node_name == node ==> key == crate::peers::key_of_node(prefix, node),
    ensures
        ({
            let key = crate::peers::key_of_node(prefix, node);
            let ads = read_all(storage, crate::peers::peer_keys_of(prefix, own, listing));
            crate::peers::last_advertised(ads, node) == (if node != own && listing.contains(key)
                && storage.contains_key(key) && storage[key].node_name == node {
                Some(storage[key].endpoint_addr)
            } else {
                None::<EndpointAddr>
            })
        }),
{
    let key = crate::peers::key_of_node(prefix, node);
    let pred = |k: Seq<char>| crate::peers::is_peer_key(prefix, own, k);
    let peers = crate::peers::peer_keys_of(prefix, own, listing);
    let ads = read_all(storage, peers);
    assert(peers == listing.filter(pred));
    law_advertisement_keys(prefix, own, node, own);
    lemma_last_advertised(ads, node);
    match crate::peers::last_advertised(ads, node) {
        Some(addr) => {
            let i = choose|i: int|
                0 <= i < ads.len() && (#[trigger] ads[i]) is Some && ads[i]->0.node_name == node
                    && ads[i]->0.endpoint_addr == addr;
            lemma_filter_keeps(listing, pred, i);
            assert(storage.contains_key(peers[i]));
            assert(peers[i] == key);
        },
        None => {
            if node != own && listing.contains(key) && storage.contains_key(key)
                && storage[key].node_name == node {
                let j = choose|j: int| 0 <= j < listing.len() && listing[j] == key;
                listing.lemma_filter_contains(pred, j);
                assert(peers.contains(key));
                let i = choose|i: int| 0 <= i < peers.len() && peers[i] == key;
                assert(ads[i] == Some(storage[key]));
            }
        },
    }
}

/// Of listed keys, those are taken in their order that have the prefix and then something else
/// than the name of the node itself: one key more in the list is taken, behind the others, exactly
/// where it is such a key.
pub proof fn law_each_listed_peer_is_taken(
    prefix: Seq<char>,
    own: Seq<char>,
    keys: Seq<Seq<char>>,
    key: Seq<char>,
)
    ensures
        crate::peers::peer_keys_of(prefix, own, Seq::empty()) == Seq::<Seq<char>>::empty(),
        crate::peers::peer_keys_of(prefix, own, keys.push(key)) == (if prefix.len() <= key.len()
            && key.take(prefix.len() as int) == prefix && key != prefix + own {
            crate::peers::peer_keys_of(prefix, own, keys).push(key)
        } else {
            crate::peers::peer_keys_of(prefix, own, keys)
        }),
{
    reveal(Seq::filter);
    let all = keys.push(key);
    assert(all.drop_last() =~= keys);
    assert(all.last() == key);
    if crate::text::has_prefix(key, prefix) {
        crate::text::law_prefix_is_what_text_begins_with(prefix, own, key);
        assert((prefix + own).skip(prefix.len() as int) =~= own);
    }
}

/// A listed key is taken exactly where it has the prefix and is not the key of the node itself.
proof fn lemma_taken_keys(
    prefix: Seq<char>,
    own: Seq<char>,
    keys: Seq<Seq<char>>,
    key: Seq<char>,
)
    ensures
        crate::peers::peer_keys_of(prefix, own, keys).contains(key) <==> keys.contains(key)
            && prefix.len() <= key.len() && key.take(prefix.len() as int) == prefix && key != prefix
            + own,
    decreases keys.len(),
{
    let taken = crate::peers::peer_keys_of(prefix, own, keys);
    if keys.len() == 0 {
        law_each_listed_peer_is_taken(prefix, own, keys, key);
        assert(keys =~= Seq::empty());
    } else {
        let init = keys.drop_last();
        let before = crate::peers::peer_keys_of(prefix, own, init);
        lemma_taken_keys(prefix, own, init, key);
        law_each_listed_peer_is_taken(prefix, own, init, keys.last());
        assert(init.push(keys.last()) =~= keys);
        assert(keys.contains(key) <==> init.contains(key) || key == keys.last()) by {
            if keys.contains(key) {
                let i = keys.index_of(key);
                if i < init.len() {
                    assert(init[i] == key);
                }
            }
            if init.contains(key) {
                assert(keys[init.index_of(key)] == key);
            }
            assert(keys[keys.len() - 1] == keys.last());
        }
        if taken == before.push(keys.last()) {
            if taken.contains(key) {
                let i = taken.index_of(key);
                if i < before.len() {
                    assert(before[i] == key);
                }
            }
            if before.contains(key) {
                assert(taken[before.index_of(key)] == key);
            }
            assert(taken[before.len() as int] == keys.last());
        }
    }
}

/// One reading more changes the address of just the node that it names, to the address in it; a
/// reading without advertisement changes nothing, and without readings no node has an address.
pub proof fn law_each_reading_counts(
    ads: Seq<Option<AdvertisementModel>>,
    ad: AdvertisementModel,
    node: Seq<char>,
)
    ensures
        crate::peers::last_advertised(Seq::empty(), node) is None,
        crate::peers::last_advertised(ads.push(None), node) == crate::peers::last_advertised(
            ads,
            node,
        ),
        crate::peers::last_advertised(ads.push(Some(ad)), ad.node_name) == Some(ad.endpoint_addr),
        node != ad.node_name ==> crate::peers::last_advertised(ads.push(Some(ad)), node)
            == crate::peers::last_advertised(ads, node),
{
    assert(ads.push(None).drop_last() =~= ads);
    assert(ads.push(Some(ad)).drop_last() =~= ads);
}

/// The texts of strings, and the advertisements that were fetched, are those of each, in order.
pub proof fn law_lists_are_read_one_by_one(
    strings: Seq<String>,
    fetched: Seq<Option<IrohNodeAdvertisement>>,
    i: int,
)
    ensures
        crate::peers::texts(strings).len() == strings.len(),
        0 <= i < strings.len() ==> crate::peers::texts(strings)[i] == strings[i]@,
        crate::peers::advertisements(fetched).len() == fetched.len(),
        0 <= i < fetched.len() ==> (fetched[i] is None <==> crate::peers::advertisements(
            fetched,
        )[i] is None),
        0 <= i < fetched.len() ==> (fetched[i] matches Some(ad) ==> (crate::peers::advertisements(
            fetched,
        )[i] matches Some(model) && model.node_name == ad.node_name@ && model.endpoint_addr
            == ad.endpoint_addr && model.updated_at_unix == ad.updated_at_unix)),
{
}

/// A table of peers gives the address that it holds for a node, and none for a node that it does
/// not hold. The key of a node is the prefix followed by its name.
pub proof fn law_known_peers(
    peers: Map<Seq<char>, EndpointAddr>,
    prefix: Seq<char>,
    node: Seq<char>,
)
    ensures
        peers.contains_key(node) ==> crate::peers::peer_of(peers, node) == Some(peers[node]),
        !peers.contains_key(node) ==> crate::peers::peer_of(peers, node) is None,
        crate::peers::key_of_node(prefix, node) == prefix + node,
{
}

/// A refresh begins by listing the keys under the storage prefix. Where that fails, so does the
/// refresh, and when the advertisements are read it is done.
pub proof fn law_refresh_lists_the_prefix(
    step: RefreshStep,
    config: ConfigModel,
    event: RefreshEvent,
)
    requires
        step@ == crate::refresh::refresh_next(config, event),
    ensures
        event is Started ==> (step matches RefreshStep::List(prefix) && prefix@
            == config.storage_prefix),
        step is Fail <==> event is ListFailed,
        step is Done <==> event is Read,
        step is Read <==> event is Listed,
{
}

/// After the keys are listed, a refresh reads just those that lie under the storage prefix and
/// are not the key of the node itself: every one of them, and no other.
pub proof fn law_refresh_reads_every_other_node(
    step: RefreshStep,
    config: ConfigModel,
    listed: Vec<String>,
    key: Seq<char>,
)
    requires
        step@ == crate::refresh::refresh_next(config, RefreshEvent::Listed(listed)),
    ensures
        step matches RefreshStep::Read(keys) && ((exists|i: int|
            0 <= i < keys@.len() && #[trigger] keys@[i]@ == key) <==> (exists|i: int|
            0 <= i < listed@.len() && #[trigger] listed@[i]@ == key) && config.storage_prefix.len()
            <= key.len() && key.take(config.storage_prefix.len() as int) == config.storage_prefix
            && key != config.storage_prefix + config.node_name),
{
    if let RefreshStep::Read(keys) = step {
        let (all, taken) = (crate::peers::texts(listed@), crate::peers::texts(keys@));
        lemma_taken_keys(config.storage_prefix, config.node_name, all, key);
        if taken.contains(key) {
            assert(keys@[taken.index_of(key)]@ == key);
        }
        if all.contains(key) {
            assert(listed@[all.index_of(key)]@ == key);
        }
        if exists|i: int| 0 <= i < keys@.len() && #[trigger] keys@[i]@ == key {
            let i = choose|i: int| 0 <= i < keys@.len() && #[trigger] keys@[i]@ == key;
            assert(taken[i] == key);
        }
        if exists|i: int| 0 <= i < listed@.len() && #[trigger] listed@[i]@ == key {
            let i = choose|i: int| 0 <= i < listed@.len() && #[trigger] listed@[i]@ == key;
            assert(all[i] == key);
        }
    }
}

/// A refresh reads in the order of the list: where one key more is listed at the end, it is read
/// behind the others, if it is read at all.
pub proof fn law_refresh_reads_in_the_listed_order(
    config: ConfigModel,
    fewer: Vec<String>,
    more: Vec<String>,
    read_of_fewer: RefreshStep,
    read_of_more: RefreshStep,
)
    requires
        more@.len() == fewer@.len() + 1,
        forall|i: int| 0 <= i < fewer@.len() ==> (#[trigger] more@[i])@ == fewer@[i]@,
        read_of_fewer@ == crate::refresh::refresh_next(config, RefreshEvent::Listed(fewer)),
        read_of_more@ == crate::refresh::refresh_next(config, RefreshEvent::Listed(more)),
    ensures
        ({
            let last = more@[more@.len() - 1]@;
            let (before, after) = (read_of_fewer->Read_0@, read_of_more->Read_0@);
            let taken = config.storage_prefix.len() <= last.len() && last.take(
                config.storage_prefix.len() as int,
            ) == config.storage_prefix && last != config.storage_prefix + config.node_name;
            &&& after.len() == before.len() + (if taken {
                1int
            } else {
                0int
            })
            &&& forall|i: int| 0 <= i < before.len() ==> (#[trigger] after[i])@ == before[i]@
            &&& taken ==> after[before.len() as int]@ == last
        }),
{
    let last = more@[more@.len() - 1]@;
    let all = crate::peers::texts(fewer@);
    assert(crate::peers::texts(more@) =~= all.push(last));
    law_each_listed_peer_is_taken(config.storage_prefix, config.node_name, all, last);
    let before = read_of_fewer->Read_0@;
    let after = read_of_more->Read_0@;
    assert(read_of_fewer is Read && read_of_more is Read);
    let (b, a) = (crate::peers::texts(before), crate::peers::texts(after));
    assert(b.len() == before.len() && a.len() == after.len());
    assert forall|i: int| 0 <= i < before.len() implies (#[trigger] after[i])@ == before[i]@ by {
        assert(a[i] == after[i]@ && b[i] == before[i]@);
    }
    if a.len() > b.len() {
        assert(a[b.len() as int] == after[before.len() as int]@);
    }
}

/// What one node puts, another one with the same storage prefix reads: the key of a publication
/// is among those that a refresh of a node with another name reads, where it is listed, and never
/// among those that a node with the same name reads.
pub proof fn law_published_key_is_read_by_others(
    put: PublishStep,
    publisher: ConfigModel,
    ad: AdvertisementModel,
    read: RefreshStep,
    reader: ConfigModel,
    listed: Vec<String>,
    j: int,
)
    requires
        put@ == crate::publish::publish_start(publisher, ad),
        read@ == crate::refresh::refresh_next(reader, RefreshEvent::Listed(listed)),
        reader.storage_prefix == publisher.storage_prefix,
        0 <= j < listed@.len(),
        listed@[j]@ == put->Put_0@,
    ensures
        (exists|i: int|
            0 <= i < read->Read_0@.len() && (#[trigger] read->Read_0@[i])@ == put->Put_0@)
            <==> reader.node_name != publisher.node_name,
{
    let key = publisher.storage_prefix + publisher.node_name;
    let prefix = publisher.storage_prefix;
    crate::publish::law_node_is_put_under_its_name(put, publisher, ad);
    law_refresh_reads_every_other_node(read, reader, listed, key);
    assert(key.take(prefix.len() as int) =~= prefix);
    assert(key.skip(prefix.len() as int) =~= publisher.node_name);
    assert((prefix + reader.node_name).skip(prefix.len() as int) =~= reader.node_name);
    assert(listed@[j]@ == key);
}

/// What is read is an advertisement where there is one, and none where nothing is stored or what
/// is stored cannot be read.
pub proof fn law_readings_without_advertisement_count_as_none(readings: Seq<Reading>, i: int)
    requires
        0 <= i < readings.len(),
    ensures
        crate::refresh::read_ads(readings).len() == readings.len(),
        readings[i] matches Reading::Advertised(ad) ==> (crate::refresh::read_ads(
            readings,
        )[i] matches Some(model) && model.node_name == ad.node_name@ && model.endpoint_addr
            == ad.endpoint_addr),
        !(readings[i] is Advertised) ==> crate::refresh::read_ads(readings)[i] is None,
{
}

/// A whole refresh finds the nodes that published themselves. The keys that it reads are those of
/// its step after the listing, and what it reads under each is what storage holds there. Then the
/// peers that it knows hold another node exactly where the key of that node is listed and stored
/// and the advertisement there names it, with the address in that advertisement; and they never
/// hold the node itself. For this, no other listed advertisement may carry the name of the node
/// asked about.
pub proof fn law_refresh_knows_the_published_peers(
    config: ConfigModel,
    storage: Map<Seq<char>, AdvertisementModel>,
    listed: Vec<String>,
    step: RefreshStep,
    readings: Seq<Reading>,
    peers: Map<Seq<char>, EndpointAddr>,
    node: Seq<char>,
)
    requires
        step@ == crate::refresh::refresh_next(config, RefreshEvent::Listed(listed)),
        readings.len() == step->Read_0@.len(),
        forall|i: int|
            0 <= i < readings.len() ==> (match #[trigger] readings[i] {
                Reading::Advertised(ad) => storage.contains_key(step->Read_0@[i]@) && ad@
                    == storage[step->Read_0@[i]@],
                _ => !storage.contains_key(step->Read_0@[i]@),
            }),
        forall|other: Seq<char>| #[trigger]
            crate::peers::peer_of(peers, other) == crate::peers::last_advertised(
                crate::refresh::read_ads(readings),
                other,
            ),
        forall|key: Seq<char>| #[trigger]
            storage.contains_key(key) && crate::peers::texts(listed@).contains(key)
                && config.storage_prefix.len() <= key.len() && key.take(
                config.storage_prefix.len() as int,
            ) == config.storage_prefix && key != config.storage_prefix + config.node_name
                && storage[key].node_name == node ==> key == config.storage_prefix + node,
    ensures
        ({
            let key = config.storage_prefix + node;
            &&& peers.contains_key(node) <==> node != config.node_name && crate::peers::texts(
                listed@,
            ).contains(key) && storage.contains_key(key) && storage[key].node_name == node
            &&& peers.contains_key(node) ==> peers[node] == storage[key].endpoint_addr
        }),
{
    let listing = crate::peers::texts(listed@);
    let keys = crate::peers::texts(step->Read_0@);
    let ads = crate::refresh::read_ads(readings);
    assert(step is Read);
    assert(ads =~= read_all(storage, keys)) by {
        assert forall|i: int| 0 <= i < ads.len() implies ads[i] == read_all(storage, keys)[i] by {
            assert(ads[i] == readings[i].advertised());
            assert(keys[i] == step->Read_0@[i]@);
        }
    }
    assert forall|key: Seq<char>| #[trigger]
        storage.contains_key(key) && listing.contains(key) && crate::peers::is_peer_key(
            config.storage_prefix,
            config.node_name,
            key,
        ) && storage[key].node_name == node implies key == crate::peers::key_of_node(
        config.storage_prefix,
        node,
    ) by {
        let own = config.storage_prefix + config.node_name;
        assert(own.skip(config.storage_prefix.len() as int) =~= config.node_name);
    }
    law_refresh_finds_the_published_peers(
        config.storage_prefix,
        config.node_name,
        storage,
        listing,
        node,
    );
    assert(crate::peers::peer_of(peers, node) == crate::peers::last_advertised(ads, node));
}

}
