//! One endpoint: what its listener negotiates, and the life cycle of the
//! worker that runs it.
use vstd::prelude::*;
use dicom::transfer_syntax::TransferSyntaxRegistry;

use crate::config::Node;

verus! {

pub const IMPLICIT_VR_LITTLE_ENDIAN_UID: &'static str = "1.2.840.10008.1.2";

pub const EXPLICIT_VR_LITTLE_ENDIAN_UID: &'static str = "1.2.840.10008.1.2.1";

/// The SOP classes offered on every association: storage of the common
/// image, document and report classes, and verification.
pub open spec fn abstract_syntaxes_spec() -> Seq<Seq<char>> {
    seq![
        "1.2.840.10008.5.1.4.1.1.2"@,
        "1.2.840.10008.5.1.4.1.1.2.1"@,
        "1.2.840.10008.5.1.4.1.1.9"@,
        "1.2.840.10008.5.1.4.1.1.8"@,
        "1.2.840.10008.5.1.4.1.1.7"@,
        "1.2.840.10008.5.1.4.1.1.6"@,
        "1.2.840.10008.5.1.4.1.1.5"@,
        "1.2.840.10008.5.1.4.1.1.4"@,
        "1.2.840.10008.5.1.4.1.1.4.1"@,
        "1.2.840.10008.5.1.4.1.1.4.2"@,
        "1.2.840.10008.5.1.4.1.1.4.3"@,
        "1.2.840.10008.5.1.4.1.1.3"@,
        "1.2.840.10008.5.1.4.1.1.1"@,
        "1.2.840.10008.5.1.4.1.1.1.1"@,
        "1.2.840.10008.5.1.4.1.1.1.1.1"@,
        "1.2.840.10008.5.1.4.1.1.104.1"@,
        "1.2.840.10008.5.1.4.1.1.104.2"@,
        "1.2.840.10008.5.1.4.1.1.104.3"@,
        "1.2.840.10008.5.1.4.1.1.11.1"@,
        "1.2.840.10008.5.1.4.1.1.128"@,
        "1.2.840.10008.5.1.4.1.1.13.1.3"@,
        "1.2.840.10008.5.1.4.1.1.13.1.4"@,
        "1.2.840.10008.5.1.4.1.1.13.1.5"@,
        "1.2.840.10008.5.1.4.1.1.130"@,
        "1.2.840.10008.5.1.4.1.1.481.1"@,
        "1.2.840.10008.5.1.4.1.1.20"@,
        "1.2.840.10008.5.1.4.1.1.3.1"@,
        "1.2.840.10008.5.1.4.1.1.7.1"@,
        "1.2.840.10008.5.1.4.1.1.7.2"@,
        "1.2.840.10008.5.1.4.1.1.7.3"@,
        "1.2.840.10008.5.1.4.1.1.7.4"@,
        "1.2.840.10008.5.1.4.1.1.88.11"@,
        "1.2.840.10008.5.1.4.1.1.88.22"@,
        "1.2.840.10008.5.1.4.1.1.88.33"@,
        "1.2.840.10008.1.1"@,
    ]
}

pub open spec fn strs_view(v: Seq<&'static str>) -> Seq<Seq<char>> {
    v.map_values(|s: &'static str| s@)
}

pub open spec fn strings_view(v: Seq<String>) -> Seq<Seq<char>> {
    v.map_values(|s: String| s@)
}

/// The abstract syntaxes offered on every association.
pub fn abstract_syntaxes() -> (r: Vec<&'static str>)
    ensures
        strs_view(r@) == abstract_syntaxes_spec(),
{
    let r: Vec<&'static str> = vec![
        "1.2.840.10008.5.1.4.1.1.2",
        "1.2.840.10008.5.1.4.1.1.2.1",
        "1.2.840.10008.5.1.4.1.1.9",
        "1.2.840.10008.5.1.4.1.1.8",
        "1.2.840.10008.5.1.4.1.1.7",
        "1.2.840.10008.5.1.4.1.1.6",
        "1.2.840.10008.5.1.4.1.1.5",
        "1.2.840.10008.5.1.4.1.1.4",
        "1.2.840.10008.5.1.4.1.1.4.1",
        "1.2.840.10008.5.1.4.1.1.4.2",
        "1.2.840.10008.5.1.4.1.1.4.3",
        "1.2.840.10008.5.1.4.1.1.3",
        "1.2.840.10008.5.1.4.1.1.1",
        "1.2.840.10008.5.1.4.1.1.1.1",
        "1.2.840.10008.5.1.4.1.1.1.1.1",
        "1.2.840.10008.5.1.4.1.1.104.1",
        "1.2.840.10008.5.1.4.1.1.104.2",
        "1.2.840.10008.5.1.4.1.1.104.3",
        "1.2.840.10008.5.1.4.1.1.11.1",
        "1.2.840.10008.5.1.4.1.1.128",
        "1.2.840.10008.5.1.4.1.1.13.1.3",
        "1.2.840.10008.5.1.4.1.1.13.1.4",
        "1.2.840.10008.5.1.4.1.1.13.1.5",
        "1.2.840.10008.5.1.4.1.1.130",
        "1.2.840.10008.5.1.4.1.1.481.1",
        "1.2.840.10008.5.1.4.1.1.20",
        "1.2.840.10008.5.1.4.1.1.3.1",
        "1.2.840.10008.5.1.4.1.1.7.1",
        "1.2.840.10008.5.1.4.1.1.7.2",
        "1.2.840.10008.5.1.4.1.1.7.3",
        "1.2.840.10008.5.1.4.1.1.7.4",
        "1.2.840.10008.5.1.4.1.1.88.11",
        "1.2.840.10008.5.1.4.1.1.88.22",
        "1.2.840.10008.5.1.4.1.1.88.33",
        "1.2.840.10008.1.1",
    ];
    proof {
        assert(strs_view(r@) =~= abstract_syntaxes_spec());
    }
    r
}

/// A transfer syntax of the codec's registry: its UID, and whether the
/// codec cannot handle it.
#[derive(Debug, Clone)]
pub struct RegisteredSyntax {
    pub uid: String,
    pub unsupported: bool,
}

/// Relies on `TransferSyntaxRegistry::iter`: every registered transfer
/// syntax, in no particular order, each read with `TransferSyntax::uid`
/// and `TransferSyntax::is_unsupported`.
#[verifier::external_body]
fn registered_transfer_syntaxes() -> Vec<RegisteredSyntax> {
    TransferSyntaxRegistry.iter().map(|ts| RegisteredSyntax { uid: ts.uid().to_string(), unsupported: ts.is_unsupported() }).collect()
}

/// The UIDs of the supported entries, in their order.
pub open spec fn supported_spec(entries: Seq<RegisteredSyntax>) -> Seq<Seq<char>>
    decreases entries.len(),
{
    if entries.len() == 0 {
        Seq::empty()
    } else {
        let rest = supported_spec(entries.drop_last());
        if entries.last().unsupported {
            rest
        } else {
            rest.push(entries.last().uid@)
        }
    }
}

/// The UIDs of the registry entries that the codec supports, in their order.
pub fn supported_transfer_syntaxes(entries: &Vec<RegisteredSyntax>) -> (r: Vec<String>)
    ensures
        strings_view(r@) == supported_spec(entries@),
{
    let mut r: Vec<String> = Vec::new();
    let mut i: usize = 0;
    while i < entries.len()
        invariant
            i <= entries@.len(),
            strings_view(r@) == supported_spec(entries@.subrange(0, i as int)),
        decreases entries.len() - i,
    {
        proof {
            assert(entries@.subrange(0, i + 1).drop_last() =~= entries@.subrange(0, i as int));
        }
        if !entries[i].unsupported {
            r.push(entries[i].uid.clone());
            proof {
                assert(strings_view(r@) =~= supported_spec(entries@.subrange(0, i as int)).push(
                    entries@[i as int].uid@,
                ));
            }
        }
        i = i + 1;
    }
    proof {
        assert(entries@.subrange(0, entries@.len() as int) =~= entries@);
    }
    r
}

/// What a node's listener negotiates.
#[derive(Debug, Clone)]
pub struct AssociationPolicy {
    /// The AE title the listener answers to; any calling AE title is
    /// accepted.
    pub ae_title: String,
    pub strict: bool,
    pub max_pdu_length: u32,
    pub transfer_syntaxes: Vec<String>,
    pub abstract_syntaxes: Vec<&'static str>,
}

pub open spec fn native_syntaxes_spec() -> Seq<Seq<char>> {
    seq![IMPLICIT_VR_LITTLE_ENDIAN_UID@, EXPLICIT_VR_LITTLE_ENDIAN_UID@]
}

/// The transfer syntaxes a node accepts: the two native little endian
/// ones where it takes uncompressed data only, else every supported one of
/// `registry`.
pub fn transfer_syntax_policy(uncompressed_only: bool, registry: &Vec<RegisteredSyntax>) -> (r: Vec<
    String,
>)
    ensures
        uncompressed_only ==> strings_view(r@) == native_syntaxes_spec(),
        !uncompressed_only ==> strings_view(r@) == supported_spec(registry@),
{
    if uncompressed_only {
        let mut r: Vec<String> = Vec::new();
        r.push(IMPLICIT_VR_LITTLE_ENDIAN_UID.to_owned());
        r.push(EXPLICIT_VR_LITTLE_ENDIAN_UID.to_owned());
        proof {
            assert(strings_view(r@) =~= native_syntaxes_spec());
        }
        r
    } else {
        supported_transfer_syntaxes(registry)
    }
}

/// The options of the node's listener: its AE title, strict mode and
/// maximum PDU length, its transfer syntaxes, and the abstract syntaxes
/// offered everywhere. Where the node takes every supported syntax, which
/// ones the registry holds, and in which order it walks them, depends on the
/// codec: `transfer_syntax_policy` states what is kept of a given walk.
pub fn association_policy(node: &Node) -> (r: AssociationPolicy)
    ensures
        r.ae_title@ == node.aet@,
        r.strict == node.strict,
        r.max_pdu_length == node.max_pdu,
        strs_view(r.abstract_syntaxes@) == abstract_syntaxes_spec(),
        node.uncompressed_only ==> strings_view(r.transfer_syntaxes@) == native_syntaxes_spec(),
{
    let registry = if node.uncompressed_only {
        Vec::new()
    } else {
        registered_transfer_syntaxes()
    };
    let transfer_syntaxes = transfer_syntax_policy(node.uncompressed_only, &registry);
    AssociationPolicy {
        ae_title: node.aet.clone(),
        strict: node.strict,
        max_pdu_length: node.max_pdu,
        transfer_syntaxes,
        abstract_syntaxes: abstract_syntaxes(),
    }
}

/// The life cycle of an endpoint worker.
#[derive(Debug, Clone, Copy, PartialEq, Eq, Structural)]
pub enum WorkerState {
    /// About to bind the listener.
    Starting,
    /// Waiting for the next connection.
    Listening,
    /// Inside an association.
    Serving,
    Stopped,
}

/// What the worker observed since its last action.
#[derive(Debug, Clone, Copy, PartialEq, Eq, Structural)]
pub enum WorkerEvent {
    /// Nothing happened: no connection is waiting.
    Idle,
    Bound,
    BindFailed,
    Accepted,
    AssociationEnded,
}

/// What the worker does next.
#[derive(Debug, Clone, Copy, PartialEq, Eq, Structural)]
pub enum WorkerAction {
    /// Bind a listener on every interface, on this port.
    Bind(u16),
    /// Accept one connection.
    Accept,
    /// Drive the association on the accepted connection to its end.
    Serve,
    /// Release the listener and end the worker.
    Exit,
}

/// The action that a state calls for.
pub open spec fn pending_action(state: WorkerState, port: u16) -> WorkerAction {
    match state {
        WorkerState::Starting => WorkerAction::Bind(port),
        WorkerState::Listening => WorkerAction::Accept,
        WorkerState::Serving => WorkerAction::Serve,
        WorkerState::Stopped => WorkerAction::Exit,
    }
}

/// The state after an event: a shutdown request stops the worker from any
/// state; binding leads to listening, or to the end where it fails; a
/// connection leads to serving it, and its end back to listening. Any other
/// event leaves the state as it is.
pub open spec fn next_state(state: WorkerState, event: WorkerEvent, shutdown: bool) -> WorkerState {
    if shutdown {
        WorkerState::Stopped
    } else {
        match (state, event) {
            (WorkerState::Starting, WorkerEvent::Bound) => WorkerState::Listening,
            (WorkerState::Starting, WorkerEvent::BindFailed) => WorkerState::Stopped,
            (WorkerState::Listening, WorkerEvent::Accepted) => WorkerState::Serving,
            (WorkerState::Serving, WorkerEvent::AssociationEnded) => WorkerState::Listening,
            _ => state,
        }
    }
}

/// An endpoint worker: the listener of one node.
#[derive(Debug, Clone, Copy)]
pub struct EndpointWorker {
    pub state: WorkerState,
    pub port: u16,
}

impl EndpointWorker {
    /// A worker for the node, about to bind its port.
    pub fn new(node: &Node) -> (r: EndpointWorker)
        ensures
            r.state == WorkerState::Starting,
            r.port == node.port,
    {
        EndpointWorker { state: WorkerState::Starting, port: node.port }
    }

    /// The first action: binding the port.
    pub fn start(&self) -> (r: WorkerAction)
        ensures
            r == pending_action(self.state, self.port),
    {
        self.pending()
    }

    fn pending(&self) -> (r: WorkerAction)
        ensures
            r == pending_action(self.state, self.port),
    {
        match self.state {
            WorkerState::Starting => WorkerAction::Bind(self.port),
            WorkerState::Listening => WorkerAction::Accept,
            WorkerState::Serving => WorkerAction::Serve,
            WorkerState::Stopped => WorkerAction::Exit,
        }
    }

    /// Moves on after an event, reading the shutdown request, and returns
    /// the next action.
    pub fn step(&mut self, event: WorkerEvent, shutdown: bool) -> (r: WorkerAction)
        ensures
            final(self).port == old(self).port,
            final(self).state == next_state(old(self).state, event, shutdown),
            r == pending_action(final(self).state, final(self).port),
    {
        if shutdown {
            self.state = WorkerState::Stopped;
        } else {
            self.state = match (self.state, event) {
                (WorkerState::Starting, WorkerEvent::Bound) => WorkerState::Listening,
                (WorkerState::Starting, WorkerEvent::BindFailed) => WorkerState::Stopped,
                (WorkerState::Listening, WorkerEvent::Accepted) => WorkerState::Serving,
                (WorkerState::Serving, WorkerEvent::AssociationEnded) => WorkerState::Listening,
                _ => self.state,
            };
        }
        self.pending()
    }
}

/// While a worker serves an association it accepts no other connection:
/// it goes back to accepting only once that association has ended, and it
/// starts serving only a connection it has just accepted while listening.
pub proof fn lemma_serial_associations(state: WorkerState, event: WorkerEvent, shutdown: bool, port: u16)
    ensures
        state == WorkerState::Serving && pending_action(next_state(state, event, shutdown), port)
            == WorkerAction::Accept ==> event == WorkerEvent::AssociationEnded && !shutdown,
        state == WorkerState::Serving && event != WorkerEvent::AssociationEnded && !shutdown
            ==> pending_action(next_state(state, event, shutdown), port) == WorkerAction::Serve,
        state != WorkerState::Serving && next_state(state, event, shutdown) == WorkerState::Serving
            ==> state == WorkerState::Listening && event == WorkerEvent::Accepted,
{
}

/// Once shutdown is requested the worker stops, whatever it was doing and
/// whatever it observed.
pub proof fn lemma_shutdown_stops(state: WorkerState, event: WorkerEvent, port: u16)
    ensures
        next_state(state, event, true) == WorkerState::Stopped,
        pending_action(next_state(state, event, true), port) == WorkerAction::Exit,
{
}

} // verus!
