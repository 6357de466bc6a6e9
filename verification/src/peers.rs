//! The catalog of node advertisements: where a node publishes its own, which of those in
//! storage are of other nodes, and the addresses of those nodes.
use iroh::EndpointAddr;
use vstd::hash_map::StringHashMap;
use vstd::prelude::*;
use vstd::string::StringExecFns;

use crate::text::{starts_with, str_eq};

verus! {

/// The dialing information of an iroh endpoint, which is carried through unread.
#[verifier::external_type_specification]
#[verifier::external_body]
pub struct ExEndpointAddr(EndpointAddr);

/// `EndpointAddr::clone`, which iroh derives: each field is cloned, so the clone is equal to
/// what it was made from.
pub assume_specification[ <EndpointAddr as Clone>::clone ](addr: &EndpointAddr) -> (res:
    EndpointAddr)
    ensures
        res == *addr,
;

/// A node's advertised iroh dialing information.
#[derive(Debug)]
pub struct IrohNodeAdvertisement {
    pub node_name: String,
    pub endpoint_addr: EndpointAddr,
    pub updated_at_unix: i64,
}

/// An advertisement, with text as a character sequence.
pub struct AdvertisementModel {
    pub node_name: Seq<char>,
    pub endpoint_addr: EndpointAddr,
    pub updated_at_unix: i64,
}

impl View for IrohNodeAdvertisement {
    type V = AdvertisementModel;

    open spec fn view(&self) -> AdvertisementModel {
        AdvertisementModel {
            node_name: self.node_name@,
            endpoint_addr: self.endpoint_addr,
            updated_at_unix: self.updated_at_unix,
        }
    }
}

impl Clone for IrohNodeAdvertisement {
    fn clone(&self) -> (ad: IrohNodeAdvertisement)
        ensures
            ad@ == self@,
    {
        IrohNodeAdvertisement {
            node_name: self.node_name.clone(),
            endpoint_addr: self.endpoint_addr.clone(),
            updated_at_unix: self.updated_at_unix,
        }
    }
}

/// The texts of a list of strings.
pub open spec fn texts(strings: Seq<String>) -> Seq<Seq<char>> {
    strings.map_values(|s: String| s@)
}

/// Where the advertisement of a node is stored.
pub open spec fn key_of_node(prefix: Seq<char>, node: Seq<char>) -> Seq<char> {
    prefix + node
}

/// Whether a storage key is that of another node's advertisement: it lies under the prefix,
/// and what follows the prefix is not the node's own name.
pub open spec fn is_peer_key(prefix: Seq<char>, own: Seq<char>, key: Seq<char>) -> bool {
    crate::text::has_prefix(key, prefix) && key.skip(prefix.len() as int) != own
}

/// Those of the given storage keys that are of other nodes, in their order.
pub open spec fn peer_keys_of(
    prefix: Seq<char>,
    own: Seq<char>,
    keys: Seq<Seq<char>>,
) -> Seq<Seq<char>> {
    keys.filter(|key: Seq<char>| is_peer_key(prefix, own, key))
}

/// Where the advertisement of a node is stored.
pub(crate) fn storage_key(prefix: &str, node: &str) -> (key: String)
    ensures
        key@ == key_of_node(prefix@, node@),
{
    prefix.to_owned().concat(node)
}

/// Whether a storage key is that of another node's advertisement.
fn is_key_of_peer(prefix: &str, own: &str, key: &str) -> (yes: bool)
    ensures
        yes == is_peer_key(prefix@, own@, key@),
{
    if !starts_with(key, prefix) {
        return false;
    }
    let own_key = storage_key(prefix, own);
    proof {
        assert(key@ =~= prefix@ + key@.skip(prefix@.len() as int));
        assert((prefix@ + own@).skip(prefix@.len() as int) =~= own@);
    }
    !str_eq(key, own_key.as_str())
}

/// Those of the given storage keys that are of other nodes, in their order.
pub(crate) fn select_peer_keys(prefix: &str, own: &str, keys: &Vec<String>) -> (peers: Vec<String>)
    ensures
        texts(peers@) == peer_keys_of(prefix@, own@, texts(keys@)),
{
    let mut peers: Vec<String> = Vec::new();
    let ghost all = texts(keys@);
    let mut i: usize = 0;
    proof {
        reveal(Seq::filter);
        assert(all.take(0) =~= Seq::<Seq<char>>::empty());
        assert(texts(peers@) =~= peer_keys_of(prefix@, own@, all.take(0)));
    }
    while i < keys.len()
        invariant
            i <= keys@.len(),
            all == texts(keys@),
            texts(peers@) == peer_keys_of(prefix@, own@, all.take(i as int)),
        decreases keys@.len() - i,
    {
        let ghost before = texts(peers@);
        let ghost next = all.take(i + 1);
        proof {
            reveal(Seq::filter);
            assert(next.drop_last() =~= all.take(i as int));
            assert(next.last() == keys@[i as int]@);
        }
        if is_key_of_peer(prefix, own, keys[i].as_str()) {
            peers.push(keys[i].clone());
            assert(texts(peers@) =~= before.push(keys@[i as int]@));
        }
        i = i + 1;
    }
    assert(all.take(all.len() as int) =~= all);
    peers
}

/// What was read under each of a list of storage keys, with text as character sequences.
/// Where nothing is stored, or what is stored is no advertisement, there is none.
pub open spec fn advertisements(
    fetched: Seq<Option<IrohNodeAdvertisement>>,
) -> Seq<Option<AdvertisementModel>> {
    fetched.map_values(
        |ad: Option<IrohNodeAdvertisement>|
            match ad {
                Some(ad) => Some(ad@),
                None => None::<AdvertisementModel>,
            },
    )
}

/// The address in the last of the advertisements that name a node.
pub open spec fn last_advertised(
    ads: Seq<Option<AdvertisementModel>>,
    node: Seq<char>,
) -> Option<EndpointAddr>
    decreases ads.len(),
{
    if ads.len() == 0 {
        None
    } else {
        match ads.last() {
            Some(ad) if ad.node_name == node => Some(ad.endpoint_addr),
            _ => last_advertised(ads.drop_last(), node),
        }
    }
}

/// What a table of peers holds for a node.
pub open spec fn peer_of(peers: Map<Seq<char>, EndpointAddr>, node: Seq<char>) -> Option<
    EndpointAddr,
> {
    if peers.contains_key(node) {
        Some(peers[node])
    } else {
        None
    }
}

/// The addresses of the other nodes.
pub struct PeerTable {
    addrs: StringHashMap<EndpointAddr>,
}

impl View for PeerTable {
    type V = Map<Seq<char>, EndpointAddr>;

    closed spec fn view(&self) -> Map<Seq<char>, EndpointAddr> {
        self.addrs@
    }
}

impl PeerTable {
    /// A table without peers.
    pub fn new() -> (peers: PeerTable)
        ensures
            peers@ == Map::<Seq<char>, EndpointAddr>::empty(),
    {
        PeerTable { addrs: StringHashMap::new() }
    }

    /// The table for what was read under the keys of the other nodes, in the order of the keys:
    /// each advertisement gives an address to the node that it names.
    pub fn from_advertisements(fetched: Vec<Option<IrohNodeAdvertisement>>) -> (peers: PeerTable)
        ensures
            forall|node: Seq<char>| #[trigger]
                peer_of(peers@, node) == last_advertised(advertisements(fetched@), node),
    {
        let mut peers = PeerTable::new();
        let ghost ads = advertisements(fetched@);
        let ghost entries = fetched@;
        assert(ads.take(0) =~= Seq::<Option<AdvertisementModel>>::empty());
        for entry in it: fetched
            invariant
                it.seq() == entries,
                ads == advertisements(entries),
                forall|node: Seq<char>| #[trigger]
                    peer_of(peers@, node) == last_advertised(
                        ads.take(it.index() as int),
                        node,
                    ),
        {
            let ghost i = it.index() as int;
            let ghost before = peers@;
            assert(ads.take(i + 1).drop_last() =~= ads.take(i));
            if let Some(ad) = entry {
                assert(ads.take(i + 1).last() == Some(ad@));
                peers.addrs.insert(ad.node_name, ad.endpoint_addr);
            } else {
                assert(ads.take(i + 1).last() is None);
            }
            assert forall|node: Seq<char>| #[trigger]
                peer_of(peers@, node) == last_advertised(ads.take(i + 1), node) by {
                assert(peer_of(before, node) == last_advertised(ads.take(i), node));
            }
        }
        assert(ads.take(ads.len() as int) =~= ads);
        peers
    }

    /// The address of a node, if it is known.
    pub fn get_peer_addr(&self, node: &str) -> (addr: Option<EndpointAddr>)
        ensures
            addr == peer_of(self@, node@),
    {
        match self.addrs.get(node) {
            Some(addr) => Some(addr.clone()),
            None => None,
        }
    }
}

}
