//! The state of the overlay on one node.
use iroh::EndpointAddr;
use vstd::prelude::*;
use vstd::slice::slice_to_vec;

use crate::addr::{Ipv4Address, SocketAddress, SocketAddressV4};
use crate::config::{ConfigModel, IrohOverlayConfig};
use crate::forward::ForwardStep;
use crate::pace::{continue_loop, LoopEvent, LoopStep};
use crate::peers::{select_peer_keys, storage_key};
use crate::peers::{AdvertisementModel, IrohNodeAdvertisement, PeerTable};
use crate::publish::{PublishError, PublishEvent, PublishStep};
use crate::refresh::{take_ads, RefreshEvent, RefreshStep};
use crate::tunnel::{deterministic_ip, BindOutcome, KeyModel, ListenerTable};
use crate::tunnel::{StepModel, TunnelAttempt, TunnelKey, TunnelStep};
use crate::wire::RUSTERNETES_IROH_ALPN;

verus! {

/// Shared overlay state: the configuration, the known peers, and the local listeners.
pub struct IrohOverlayRuntime {
    config: IrohOverlayConfig,
    peers: PeerTable,
    listeners: ListenerTable,
}

/// The overlay state, with text as character sequences and tables as maps.
pub struct RuntimeModel {
    pub config: ConfigModel,
    pub peers: Map<Seq<char>, EndpointAddr>,
    pub listeners: Map<KeyModel, SocketAddressV4>,
}

impl View for IrohOverlayRuntime {
    type V = RuntimeModel;

    closed spec fn view(&self) -> RuntimeModel {
        RuntimeModel {
            config: self.config@,
            peers: self.peers@,
            listeners: self.listeners@,
        }
    }
}

/// What the iroh endpoint of a node is set up with.
#[derive(Debug)]
pub struct EndpointSettings {
    /// The protocols that connections of other nodes are accepted for.
    pub alpns: Vec<Vec<u8>>,
    /// The UDP address to bind, where one is asked for.
    pub bind_addr: Option<SocketAddress>,
}

impl IrohOverlayRuntime {
    /// Each listener has an address that is tried for its backend.
    #[verifier::type_invariant]
    spec fn wf(self) -> bool {
        crate::tunnel::table_sound(self.config.local_loopback_prefix, self.listeners@)
    }

    /// The state at the start, and the endpoint to start with it: no peers are known yet, there
    /// are no listeners, and the overlay protocol is the only one that is accepted.
    pub fn start(config: IrohOverlayConfig) -> (started: (Self, EndpointSettings))
        ensures
            started.0@ == (RuntimeModel {
                config: config@,
                peers: Map::empty(),
                listeners: Map::empty(),
            }),
            started.1.alpns@.len() == 1,
            started.1.alpns@[0]@ == RUSTERNETES_IROH_ALPN@,
            started.1.bind_addr == config@.bind_addr,
    {
        let mut alpns: Vec<Vec<u8>> = Vec::new();
        alpns.push(slice_to_vec(RUSTERNETES_IROH_ALPN.as_slice()));
        let settings = EndpointSettings { alpns, bind_addr: config.bind_addr };
        let runtime = IrohOverlayRuntime {
            config,
            peers: PeerTable::new(),
            listeners: ListenerTable::new(),
        };
        (runtime, settings)
    }

    /// The configuration.
    pub fn config(&self) -> (config: &IrohOverlayConfig)
        ensures
            config@ == self@.config,
    {
        &self.config
    }

    /// The loopback address that the given attempt at a backend uses.
    pub fn deterministic_loopback_ip(&self, key: &TunnelKey, attempt: u8) -> (ip: Ipv4Address)
        ensures
            ip == crate::tunnel::loopback_ip(self@.config.local_loopback_prefix, key@, attempt),
    {
        deterministic_ip(self.config.local_loopback_prefix, key, attempt)
    }

    /// Begins the search for a local loopback listener for a remote TCP backend. The port of
    /// the listener is the real backend port, so that EndpointSlice port matching in
    /// kube-proxy remains unchanged.
    pub fn ensure_tcp_tunnel(&self, remote_node: &str, dst_ip: &str, dst_port: u16) -> (step:
        TunnelStep)
        ensures
            ({
                let key = KeyModel { remote_node: remote_node@, dst_ip: dst_ip@, dst_port };
                &&& step@ == crate::tunnel::first_step(key, self@.listeners)
                &&& step@ matches StepModel::Existing(local) ==> crate::tunnel::has_listener_shape(
                    self@.config.local_loopback_prefix,
                    key,
                    local,
                )
            }),
    {
        proof {
            use_type_invariant(self);
        }
        let key = TunnelKey {
            remote_node: remote_node.to_owned(),
            dst_ip: dst_ip.to_owned(),
            dst_port,
        };
        assert(crate::tunnel::table_sound(self.config.local_loopback_prefix, self.listeners@));
        TunnelAttempt::begin(key, &self.listeners)
    }

    /// The address that an attempt is to bind.
    pub fn local_addr(&self, attempt: &TunnelAttempt) -> (local: SocketAddressV4)
        ensures
            attempt@.in_range(),
            local == attempt@.local(self@.config.local_loopback_prefix),
            crate::tunnel::has_listener_shape(
                self@.config.local_loopback_prefix,
                attempt@.key,
                local,
            ),
    {
        attempt.local_under(self.config.local_loopback_prefix)
    }

    /// Goes on with the search for a listener after the address of an attempt was tried. Other
    /// searches may have entered listeners meanwhile.
    pub fn bind_finished(&mut self, attempt: TunnelAttempt, outcome: BindOutcome) -> (step:
        TunnelStep)
        ensures
            attempt@.in_range(),
            step@ == crate::tunnel::next_step(
                old(self)@.config.local_loopback_prefix,
                attempt@,
                outcome,
                old(self)@.listeners,
            ),
            final(self)@ == (RuntimeModel {
                listeners: crate::tunnel::next_table(
                    old(self)@.config.local_loopback_prefix,
                    attempt@,
                    outcome,
                    old(self)@.listeners,
                ),
                ..old(self)@
            }),
            step@ matches StepModel::Existing(local) ==> crate::tunnel::has_listener_shape(
                old(self)@.config.local_loopback_prefix,
                attempt@.key,
                local,
            ),
            step@ matches StepModel::Created(local) ==> crate::tunnel::has_listener_shape(
                old(self)@.config.local_loopback_prefix,
                attempt@.key,
                local,
            ),
    {
        proof {
            use_type_invariant(&*self);
        }
        let prefix = self.config.local_loopback_prefix;
        let mut listeners = ListenerTable::new();
        std::mem::swap(&mut listeners, &mut self.listeners);
        let ghost before = listeners@;
        let step = attempt.advance(prefix, outcome, &mut listeners);
        proof {
            crate::tunnel::lemma_table_stays_sound(prefix, attempt@, outcome, before);
        }
        self.listeners = listeners;
        step
    }

    /// Where the advertisement of a node is stored.
    pub fn advertisement_key(&self, node: &str) -> (key: String)
        ensures
            key@ == crate::peers::key_of_node(self@.config.storage_prefix, node@),
    {
        storage_key(self.config.storage_prefix.as_str(), node)
    }

    /// Begins to publish this node's advertisement: it is to be put under the node's own key.
    pub fn publish_advertisement(&self, endpoint_addr: EndpointAddr, now_unix: i64) -> (step:
        PublishStep)
        ensures
            step@ == crate::publish::publish_start(
                self@.config,
                AdvertisementModel {
                    node_name: self@.config.node_name,
                    endpoint_addr,
                    updated_at_unix: now_unix,
                },
            ),
    {
        let key = self.advertisement_key(self.config.node_name.as_str());
        let ad = IrohNodeAdvertisement {
            node_name: self.config.node_name.clone(),
            endpoint_addr,
            updated_at_unix: now_unix,
        };
        PublishStep::Put(key, ad)
    }

    /// Goes on with the publication of an advertisement after what was to be done last.
    pub fn continue_publish(&self, ad: &IrohNodeAdvertisement, event: PublishEvent) -> (step:
        PublishStep)
        ensures
            step@ == crate::publish::publish_next(self@.config, ad@, event),
    {
        match event {
            PublishEvent::Stored => match &self.config.local_addr_file {
                Some(path) => PublishStep::CreateDirectory(path.clone()),
                None => PublishStep::Done,
            },
            PublishEvent::PutFailed => PublishStep::Fail(PublishError::PutFailed),
            PublishEvent::DirectoryTried => PublishStep::EncodeFile(ad.clone()),
            PublishEvent::FileEncoded(text) => match &self.config.local_addr_file {
                Some(path) => PublishStep::WriteFile(path.clone(), text),
                None => PublishStep::Done,
            },
            PublishEvent::EncodingFailed => PublishStep::Fail(PublishError::Unencodable),
            PublishEvent::FileTried => PublishStep::Done,
        }
    }

    /// Decides how the loop that publishes this node's advertisement goes on: once at the
    /// start, and again the publish interval after each try.
    pub fn publish_loop_next(&self, event: LoopEvent) -> (step: LoopStep)
        ensures
            step == crate::pace::loop_next(self@.config.publish_interval, event),
    {
        continue_loop(self.config.publish_interval, event)
    }

    /// Those of the listed storage keys whose advertisements a refresh of the peers reads: the
    /// keys of other nodes, in their order.
    pub fn peer_keys(&self, listed: &Vec<String>) -> (peers: Vec<String>)
        ensures
            crate::peers::texts(peers@) == crate::peers::peer_keys_of(
                self@.config.storage_prefix,
                self@.config.node_name,
                crate::peers::texts(listed@),
            ),
    {
        select_peer_keys(
            self.config.storage_prefix.as_str(),
            self.config.node_name.as_str(),
            listed,
        )
    }

    /// Replaces the known peers by those whose advertisements were read, in the order of their
    /// keys. Where nothing is stored under a key, or what is stored there is no advertisement,
    /// there is none. Of several advertisements that name a node the last one counts.
    pub fn refresh_peers(&mut self, fetched: Vec<Option<IrohNodeAdvertisement>>)
        ensures
            forall|node: Seq<char>| #[trigger]
                crate::peers::peer_of(final(self)@.peers, node) == crate::peers::last_advertised(
                    crate::peers::advertisements(fetched@),
                    node,
                ),
            final(self)@ == (RuntimeModel { peers: final(self)@.peers, ..old(self)@ }),
    {
        proof {
            use_type_invariant(&*self);
        }
        let peers = PeerTable::from_advertisements(fetched);
        self.peers = peers;
    }

    /// Goes on with a refresh of the peers after what was to be done last. The known peers are
    /// replaced when the advertisements are read, and else stay as they are: so they do where
    /// the listing fails.
    pub fn continue_refresh(&mut self, event: RefreshEvent) -> (step: RefreshStep)
        ensures
            step@ == crate::refresh::refresh_next(old(self)@.config, event),
            event matches RefreshEvent::Read(readings) ==> forall|node: Seq<char>| #[trigger]
                crate::peers::peer_of(final(self)@.peers, node) == crate::peers::last_advertised(
                    crate::refresh::read_ads(readings@),
                    node,
                ),
            !(event is Read) ==> final(self)@ == old(self)@,
            final(self)@ == (RuntimeModel { peers: final(self)@.peers, ..old(self)@ }),
    {
        match event {
            RefreshEvent::Started => RefreshStep::List(self.config.storage_prefix.clone()),
            RefreshEvent::Listed(keys) => RefreshStep::Read(self.peer_keys(&keys)),
            RefreshEvent::ListFailed => RefreshStep::Fail,
            RefreshEvent::Read(readings) => {
                self.refresh_peers(take_ads(readings));
                RefreshStep::Done
            },
        }
    }

    /// The address of a node, if it is known.
    pub fn get_peer_addr(&self, node: &str) -> (addr: Option<EndpointAddr>)
        ensures
            addr == crate::peers::peer_of(self@.peers, node@),
    {
        self.peers.get_peer_addr(node)
    }

    /// Begins to forward a stream to a backend.
    pub fn forward_tcp_over_iroh(&self, key: &TunnelKey) -> (step: ForwardStep)
        ensures
            step@ == crate::forward::forward_start(self@.peers, key@),
    {
        key.begin_forward(&self.peers)
    }
}

}
