use vstd::prelude::*;
use std::collections::HashMap;
use vstd::std_specs::hash::spec_hash_map_iter;
use vstd::std_specs::iter::IteratorSpec;

verus! {

broadcast use vstd::std_specs::hash::group_hash_axioms;

/// Whether a node or a channel is meant to run.
#[derive(Debug, Clone, Copy, PartialEq, Eq, Structural)]
pub enum Status {
    Started,
    Stopped,
}

impl Default for Status {
    fn default() -> (r: Status)
        ensures
            r == Status::Stopped,
    {
        Status::Stopped
    }
}

/// Verbosity of the log output, as written in the configuration.
#[derive(Debug, Clone, Copy, PartialEq, Eq, Structural)]
pub enum LogLevel {
    Debug,
    Info,
    Warn,
    Error,
}

impl Default for LogLevel {
    fn default() -> (r: LogLevel)
        ensures
            r == LogLevel::Info,
    {
        LogLevel::Info
    }
}

/// Default maximum PDU length of a node, in bytes.
pub const DEFAULT_MAX_PDU: u32 = 16384;

/// A DICOM network endpoint.
#[derive(Debug)]
pub struct Node {
    /// Application Entity title, the node's identity.
    pub aet: String,
    /// IPv4 or IPv6 address, as text.
    pub ip: String,
    pub port: u16,
    /// Accept only the native (uncompressed) transfer syntaxes.
    pub uncompressed_only: bool,
    /// Maximum PDU length, in bytes.
    pub max_pdu: u32,
    /// Enforce the maximum PDU length.
    pub strict: bool,
    /// Directory where received instances are written.
    pub out_dir: Option<String>,
    pub status: Status,
    /// Request to stop the node; not part of the node's identity.
    pub shutdown_signal: bool,
}

/// What identifies a node: every field but the shutdown request.
pub struct NodeView {
    pub aet: Seq<char>,
    pub ip: Seq<char>,
    pub port: u16,
    pub uncompressed_only: bool,
    pub max_pdu: u32,
    pub strict: bool,
    pub out_dir: Option<Seq<char>>,
    pub status: Status,
}

pub open spec fn opt_string_view(o: Option<String>) -> Option<Seq<char>> {
    match o {
        Some(s) => Some(s@),
        None => None,
    }
}

impl View for Node {
    type V = NodeView;

    open spec fn view(&self) -> NodeView {
        NodeView {
            aet: self.aet@,
            ip: self.ip@,
            port: self.port,
            uncompressed_only: self.uncompressed_only,
            max_pdu: self.max_pdu,
            strict: self.strict,
            out_dir: opt_string_view(self.out_dir),
            status: self.status,
        }
    }
}

fn opt_string_eq(a: &Option<String>, b: &Option<String>) -> (r: bool)
    ensures
        r == (opt_string_view(*a) == opt_string_view(*b)),
{
    match (a, b) {
        (Some(x), Some(y)) => *x == *y,
        (None, None) => true,
        _ => false,
    }
}

impl PartialEq for Node {
    fn eq(&self, other: &Node) -> (r: bool) {
        self.aet == other.aet && self.ip == other.ip && self.port == other.port
            && self.uncompressed_only == other.uncompressed_only && self.max_pdu
            == other.max_pdu && self.strict == other.strict && opt_string_eq(
            &self.out_dir,
            &other.out_dir,
        ) && self.status == other.status
    }
}

impl vstd::std_specs::cmp::PartialEqSpecImpl for Node {
    open spec fn obeys_eq_spec() -> bool {
        true
    }

    open spec fn eq_spec(&self, other: &Node) -> bool {
        self@ == other@
    }
}

impl Clone for Node {
    /// A node with the same fields, the shutdown request included; the copy
    /// shares nothing with the original.
    fn clone(&self) -> (r: Node)
        ensures
            r@ == self@,
            r.shutdown_signal == self.shutdown_signal,
    {
        let out_dir = match &self.out_dir {
            Some(d) => Some(d.clone()),
            None => None,
        };
        Node {
            aet: self.aet.clone(),
            ip: self.ip.clone(),
            port: self.port,
            uncompressed_only: self.uncompressed_only,
            max_pdu: self.max_pdu,
            strict: self.strict,
            out_dir,
            status: self.status,
            shutdown_signal: self.shutdown_signal,
        }
    }
}

impl Node {
    /// A node with the given identity and the default settings: no
    /// restriction of transfer syntaxes, the default maximum PDU length,
    /// no strict mode, no output directory, stopped.
    pub fn new(aet: String, ip: String, port: u16) -> (r: Node)
        ensures
            r.aet@ == aet@,
            r.ip@ == ip@,
            r.port == port,
            !r.uncompressed_only,
            r.max_pdu == DEFAULT_MAX_PDU,
            !r.strict,
            r.out_dir is None,
            r.status == Status::Stopped,
            !r.shutdown_signal,
    {
        Node {
            aet,
            ip,
            port,
            uncompressed_only: false,
            max_pdu: DEFAULT_MAX_PDU,
            strict: false,
            out_dir: None,
            status: Status::Stopped,
            shutdown_signal: false,
        }
    }

    /// Marks the node as running and withdraws any stop request.
    /// The listener itself is run by the caller.
    pub fn start_node(&mut self)
        ensures
            final(self)@ == (NodeView { status: Status::Started, ..old(self)@ }),
            !final(self).shutdown_signal,
    {
        self.shutdown_signal = false;
        self.status = Status::Started;
    }

    /// Asks the node to stop and marks it as stopped.
    pub fn stop_node(&mut self)
        ensures
            final(self)@ == (NodeView { status: Status::Stopped, ..old(self)@ }),
            final(self).shutdown_signal,
    {
        self.shutdown_signal = true;
        self.status = Status::Stopped;
    }

    pub fn aet(&self) -> (r: &String)
        ensures
            r@ == self.aet@,
    {
        &self.aet
    }
}

/// A unit of reconciliation: a listening node and its forwarding targets.
#[derive(Debug, Clone)]
pub struct Channel {
    pub name: String,
    /// The local listener.
    pub source: Node,
    /// Forwarding targets, kept for later use.
    pub destinations: Vec<Node>,
    pub status: Status,
}

pub struct ChannelView {
    pub name: Seq<char>,
    pub source: NodeView,
    pub destinations: Seq<NodeView>,
    pub status: Status,
}

impl View for Channel {
    type V = ChannelView;

    open spec fn view(&self) -> ChannelView {
        ChannelView {
            name: self.name@,
            source: self.source@,
            destinations: self.destinations@.map_values(|n: Node| n@),
            status: self.status,
        }
    }
}

fn nodes_eq(a: &Vec<Node>, b: &Vec<Node>) -> (r: bool)
    ensures
        r == (a@.map_values(|n: Node| n@) == b@.map_values(|n: Node| n@)),
{
    if a.len() != b.len() {
        proof {
            assert(a@.map_values(|n: Node| n@).len() != b@.map_values(|n: Node| n@).len());
        }
        return false;
    }
    let mut i: usize = 0;
    while i < a.len()
        invariant
            a.len() == b.len(),
            0 <= i <= a.len(),
            forall|j: int| 0 <= j < i ==> a@[j]@ == b@[j]@,
        decreases a.len() - i,
    {
        if !(a[i] == b[i]) {
            proof {
                assert(a@.map_values(|n: Node| n@)[i as int] != b@.map_values(|n: Node| n@)[i as int]);
            }
            return false;
        }
        i = i + 1;
    }
    proof {
        assert(a@.map_values(|n: Node| n@) =~= b@.map_values(|n: Node| n@));
    }
    true
}

impl PartialEq for Channel {
    fn eq(&self, other: &Channel) -> (r: bool) {
        self.name == other.name && self.source == other.source && nodes_eq(
            &self.destinations,
            &other.destinations,
        ) && self.status == other.status
    }
}

impl vstd::std_specs::cmp::PartialEqSpecImpl for Channel {
    open spec fn obeys_eq_spec() -> bool {
        true
    }

    open spec fn eq_spec(&self, other: &Channel) -> bool {
        self@ == other@
    }
}

/// The declarative configuration: channels keyed by a stable id.
#[derive(Debug, Clone)]
pub struct Config {
    pub channels: HashMap<u64, Channel>,
    pub log_level: LogLevel,
}

/// The running state has the same shape as the configuration.
pub type State = Config;

pub struct ConfigView {
    pub channels: Map<u64, ChannelView>,
    pub log_level: LogLevel,
}

impl View for Config {
    type V = ConfigView;

    open spec fn view(&self) -> ConfigView {
        ConfigView {
            channels: self.channels@.map_values(|c: Channel| c@),
            log_level: self.log_level,
        }
    }
}

impl Config {
    /// An empty configuration with the default log level.
    pub fn new() -> (r: Config)
        ensures
            r@.channels.is_empty(),
            r@.log_level == LogLevel::Info,
    {
        let r = Config { channels: HashMap::new(), log_level: LogLevel::Info };
        proof {
            assert(r@.channels =~= Map::empty());
        }
        r
    }
}

impl PartialEq for Config {
    fn eq(&self, other: &Config) -> (r: bool) {
        if self.log_level != other.log_level {
            return false;
        }
        if self.channels.len() != other.channels.len() {
            proof {
                assert(self@.channels.dom() =~= self.channels@.dom());
                assert(other@.channels.dom() =~= other.channels@.dom());
            }
            return false;
        }
        let ghost a = self.channels@;
        let ghost b = other.channels@;
        for (id, channel) in it: self.channels.iter()
            invariant
                a == self.channels@,
                b == other.channels@,
                a.len() == b.len(),
                it.seq() == spec_hash_map_iter(&self.channels).remaining(),
                forall|j: int| 0 <= j < it.index() ==> b.contains_key(#[trigger] *it.seq()[j].0),
                forall|j: int|
                    0 <= j < it.index() ==> b[#[trigger] *it.seq()[j].0]@ == a[*it.seq()[j].0]@,
        {
            match other.channels.get(id) {
                Some(c) => {
                    proof {
                        assert(a.contains_key(*id) && a[*id] == *channel);
                        assert(b.contains_key(*id) && b[*id] == *c);
                    }
                    if !(*channel == *c) {
                        proof {
                            assert(self@.channels[*id] != other@.channels[*id]);
                        }
                        return false;
                    }
                    proof {
                        let k = *it.seq()[it.index()].0;
                        assert(k == *id);
                        assert(b.contains_key(k) && b[k]@ == a[k]@);
                    }
                },
                None => {
                    proof {
                        assert(!other@.channels.contains_key(*id));
                    }
                    return false;
                },
            }
        }
        proof {
            let s = spec_hash_map_iter(&self.channels).remaining();
            assert forall|k: u64| a.contains_key(k) implies b.contains_key(k) && b[k]@ == a[k]@ by {
                assert(s.contains((&k, &a[k])));
                let j = choose|j: int| 0 <= j < s.len() && s[j] == (&k, &a[k]);
                assert(*s[j].0 == k);
            }
            assert(a.dom().subset_of(b.dom()));
            vstd::set_lib::lemma_subset_equality(a.dom(), b.dom());
            assert(self@.channels =~= other@.channels);
        }
        true
    }
}

impl vstd::std_specs::cmp::PartialEqSpecImpl for Config {
    open spec fn obeys_eq_spec() -> bool {
        true
    }

    open spec fn eq_spec(&self, other: &Config) -> bool {
        self@ == other@
    }
}

} // verus!
