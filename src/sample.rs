//! Sample channels and configurations for trying a provider out locally.
use vstd::prelude::*;
use std::collections::HashMap;

use crate::config::{
    Channel, ChannelView, Config, LogLevel, Node, NodeView, Status, DEFAULT_MAX_PDU,
};

verus! {

broadcast use vstd::std_specs::hash::group_hash_axioms;

pub const ANY_ADDRESS: &'static str = "0.0.0.0";

pub const SAMPLE_DESTINATION_ADDRESS: &'static str = "192.168.10.140";

/// A node with the given identity and the default settings.
pub open spec fn default_node_view(aet: Seq<char>, ip: Seq<char>, port: u16) -> NodeView {
    NodeView {
        aet,
        ip,
        port,
        uncompressed_only: false,
        max_pdu: DEFAULT_MAX_PDU,
        strict: false,
        out_dir: None,
        status: Status::Stopped,
    }
}

/// A stopped channel named after its source, listening on every interface,
/// with one destination on the sample address.
pub open spec fn sample_channel_spec(in_aet: Seq<char>, in_port: u16, out_aet: Seq<char>, out_port: u16) -> ChannelView {
    ChannelView {
        name: in_aet,
        source: default_node_view(in_aet, ANY_ADDRESS@, in_port),
        destinations: seq![default_node_view(out_aet, SAMPLE_DESTINATION_ADDRESS@, out_port)],
        status: Status::Stopped,
    }
}

fn sample_channel(in_aet: &str, in_port: u16, out_aet: &str, out_port: u16) -> (r: Channel)
    ensures
        r@ == sample_channel_spec(in_aet@, in_port, out_aet@, out_port),
{
    let source = Node::new(in_aet.to_owned(), ANY_ADDRESS.to_owned(), in_port);
    let destination = Node::new(out_aet.to_owned(), SAMPLE_DESTINATION_ADDRESS.to_owned(), out_port);
    let mut destinations: Vec<Node> = Vec::new();
    destinations.push(destination);
    let r = Channel { name: in_aet.to_owned(), source, destinations, status: Status::Stopped };
    proof {
        assert(r@.destinations =~= seq![default_node_view(out_aet@, SAMPLE_DESTINATION_ADDRESS@, out_port)]);
    }
    r
}

pub fn bogus_channel() -> (r: Channel)
    ensures
        r@ == sample_channel_spec("NOEUD1in"@, 11112, "NOEUD1out"@, 11114),
{
    sample_channel("NOEUD1in", 11112, "NOEUD1out", 11114)
}

pub fn bogus_channel2() -> (r: Channel)
    ensures
        r@ == sample_channel_spec("NOEUD2in"@, 11113, "NOEUD2out"@, 11115),
{
    sample_channel("NOEUD2in", 11113, "NOEUD2out", 11115)
}

pub fn bogus_channel3() -> (r: Channel)
    ensures
        r@ == sample_channel_spec("NOEUD3in"@, 11113, "NOEUD2out"@, 11115),
{
    sample_channel("NOEUD3in", 11113, "NOEUD2out", 11115)
}

pub fn bogus_channel4() -> (r: Channel)
    ensures
        r@ == sample_channel_spec("NOEUD3in"@, 11116, "NOEUD2out"@, 11115),
{
    sample_channel("NOEUD3in", 11116, "NOEUD2out", 11115)
}

/// Three sample channels under ids 1, 2 and 3; the last two share a port.
pub fn bogus_config() -> (r: Config)
    ensures
        r@.log_level == LogLevel::Info,
        r@.channels == map![
            1u64 => sample_channel_spec("NOEUD1in"@, 11112, "NOEUD1out"@, 11114),
            2u64 => sample_channel_spec("NOEUD2in"@, 11113, "NOEUD2out"@, 11115),
            3u64 => sample_channel_spec("NOEUD3in"@, 11113, "NOEUD2out"@, 11115),
        ],
{
    let mut channels: HashMap<u64, Channel> = HashMap::new();
    channels.insert(1, bogus_channel());
    channels.insert(2, bogus_channel2());
    channels.insert(3, bogus_channel3());
    let r = Config { channels, log_level: LogLevel::Info };
    proof {
        assert(r@.channels =~= map![
            1u64 => sample_channel_spec("NOEUD1in"@, 11112, "NOEUD1out"@, 11114),
            2u64 => sample_channel_spec("NOEUD2in"@, 11113, "NOEUD2out"@, 11115),
            3u64 => sample_channel_spec("NOEUD3in"@, 11113, "NOEUD2out"@, 11115),
        ]);
    }
    r
}

/// Adds a fourth sample channel under id 4.
pub fn update_bogus_config(config: &mut Config)
    ensures
        final(config)@.log_level == old(config)@.log_level,
        final(config)@.channels == old(config)@.channels.insert(
            4,
            sample_channel_spec("NOEUD3in"@, 11116, "NOEUD2out"@, 11115),
        ),
{
    config.channels.insert(4, bogus_channel4());
    proof {
        assert(config@.channels =~= old(config)@.channels.insert(
            4,
            sample_channel_spec("NOEUD3in"@, 11116, "NOEUD2out"@, 11115),
        ));
    }
}

} // verus!
