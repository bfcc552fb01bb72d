//! What one association does with each PDU it receives: reassembling
//! fragmented data sets, answering C-ECHO requests, and preparing the
//! storage of C-STORE instances.
use vstd::prelude::*;
use vstd::string::{StrSliceExecFns, StringExecFns};

use crate::codec::{
    command_fields_of, command_fields_view, data_set_uids_of, file_meta, read_command_fields,
    read_data_set, with_meta, CommandFields, FileObject,
};
use crate::command::{
    byte_len, cecho_response_spec, create_cecho_response, create_cstore_response,
    cstore_group_length, cstore_response_spec, elements_view, CommandElement,
    CSTORE_GROUP_LENGTH_BASE, C_ECHO_RQ,
};

verus! {

/// Whether a presentation data value holds command or data set bytes.
#[derive(Debug, Clone, Copy, PartialEq, Eq, Structural)]
pub enum PdvKind {
    Command,
    Data,
}

/// One presentation data value of a P-DATA PDU.
#[derive(Debug, Clone)]
pub struct Pdv {
    pub presentation_context_id: u8,
    pub value_type: PdvKind,
    /// This is the last fragment of its command or data set.
    pub is_last: bool,
    pub data: Vec<u8>,
}

/// A PDU received on an established association, as far as this provider
/// tells them apart.
#[derive(Debug, Clone)]
pub enum Pdu {
    PData(Vec<Pdv>),
    ReleaseRq,
    Other,
}

/// A negotiated presentation context: its id and transfer syntax UID.
#[derive(Debug, Clone)]
pub struct PresentationContext {
    pub id: u8,
    pub transfer_syntax: String,
}

/// What a command set asks for.
#[derive(Debug, Clone)]
pub enum CommandRequest {
    Echo { message_id: u16 },
    Store { message_id: u16, sop_class_uid: String, sop_instance_uid: String },
}

pub enum RequestView {
    Echo(u16),
    Store(u16, Seq<char>, Seq<char>),
}

/// Why an association is abandoned.
#[derive(Debug, Clone, Copy, PartialEq, Eq, Structural)]
pub enum DimseError {
    CommandUnreadable,
    MissingCommandField,
    MissingMessageId,
    MissingAffectedSopClassUid,
    MissingAffectedSopInstanceUid,
    MissingPresentationContext,
    DataSetUnreadable,
    MissingSopClassUid,
    MissingSopInstanceUid,
    NoOutputDirectory,
    UidsTooLong,
}

/// What the connection must do after a PDU.
pub enum Reaction {
    /// Nothing to send; read the next PDU.
    Nothing,
    /// Send this command set, alone in one P-DATA PDU, on this context.
    Respond { presentation_context_id: u8, command: Vec<CommandElement> },
    /// Write the object to `file_name` in the output directory; once it is
    /// written, send the command set on this context.
    /// The file meta group holds `transfer_syntax`, `sop_class_uid` and
    /// `sop_instance_uid`, the last two read from the data set.
    Store {
        presentation_context_id: u8,
        transfer_syntax: String,
        sop_class_uid: String,
        sop_instance_uid: String,
        file_name: String,
        object: FileObject,
        command: Vec<CommandElement>,
    },
    /// Send A-RELEASE-RP.
    Release,
    /// Abandon the association.
    Abort(DimseError),
    /// Shutdown was requested: leave without answering.
    Stop,
}

/// The per-connection state of an association.
pub struct Association {
    pub contexts: Vec<PresentationContext>,
    pub out_dir: Option<String>,
    /// Fragments of the data set being received.
    pub instance_buffer: Vec<u8>,
    /// Fields of the last C-STORE request.
    pub message_id: u16,
    pub sop_class_uid: String,
    pub sop_instance_uid: String,
}

/// The UID with its trailing NUL characters removed.
pub open spec fn trim_trailing_nul(s: Seq<char>) -> Seq<char>
    decreases s.len(),
{
    if s.len() > 0 && s.last() == '\0' {
        trim_trailing_nul(s.drop_last())
    } else {
        s
    }
}

/// The name of the file that holds the instance with this UID.
pub open spec fn instance_file_name_spec(uid: Seq<char>) -> Seq<char> {
    trim_trailing_nul(uid) + ".dcm"@
}

/// The transfer syntax of the first context with this id.
pub open spec fn lookup_context(ctxs: Seq<PresentationContext>, id: u8) -> Option<Seq<char>>
    decreases ctxs.len(),
{
    if ctxs.len() == 0 {
        None
    } else if ctxs[0].id == id {
        Some(ctxs[0].transfer_syntax@)
    } else {
        lookup_context(ctxs.drop_first(), id)
    }
}

/// The name of the file that holds the instance with this UID: the UID
/// without trailing NULs, then `.dcm`.
pub fn instance_file_name(uid: &str) -> (r: String)
    ensures
        r@ == instance_file_name_spec(uid@),
{
    let mut n: usize = uid.unicode_len();
    proof {
        assert(uid@.subrange(0, n as int) =~= uid@);
    }
    while n > 0 && uid.get_char(n - 1) == '\0'
        invariant
            n <= uid@.len(),
            trim_trailing_nul(uid@) == trim_trailing_nul(uid@.subrange(0, n as int)),
        decreases n,
    {
        proof {
            assert(uid@.subrange(0, n as int).drop_last() =~= uid@.subrange(0, n - 1));
        }
        n = n - 1;
    }
    proof {
        reveal_strlit(".dcm");
    }
    let mut name = uid.substring_char(0, n).to_owned();
    name.append(".dcm");
    name
}

/// The transfer syntax of the first presentation context with this id.
pub fn find_transfer_syntax(contexts: &Vec<PresentationContext>, id: u8) -> (r: Option<&String>)
    ensures
        match r {
            Some(ts) => lookup_context(contexts@, id) == Some(ts@),
            None => lookup_context(contexts@, id) is None,
        },
{
    let mut i: usize = 0;
    proof {
        assert(contexts@.subrange(0, contexts@.len() as int) =~= contexts@);
    }
    while i < contexts.len()
        invariant
            i <= contexts@.len(),
            lookup_context(contexts@, id) == lookup_context(contexts@.subrange(i as int, contexts@.len() as int), id),
        decreases contexts.len() - i,
    {
        proof {
            assert(contexts@.subrange(i as int, contexts@.len() as int).drop_first() =~= contexts@.subrange(
                i + 1,
                contexts@.len() as int,
            ));
        }
        if contexts[i].id == id {
            return Some(&contexts[i].transfer_syntax);
        }
        i = i + 1;
    }
    None
}

pub open spec fn request_view(r: Result<CommandRequest, DimseError>) -> Result<RequestView, DimseError> {
    match r {
        Ok(CommandRequest::Echo { message_id }) => Ok(RequestView::Echo(message_id)),
        Ok(CommandRequest::Store { message_id, sop_class_uid, sop_instance_uid }) => Ok(
            RequestView::Store(message_id, sop_class_uid@, sop_instance_uid@),
        ),
        Err(e) => Err(e),
    }
}

/// What a command set asks for, from the fields read from it: a C-ECHO
/// request where the Command Field is 0x0030, any other command taken for a
/// C-STORE request; an error for the first field that is missing.
pub open spec fn classify_spec(
    f: Option<(Option<u16>, Option<u16>, Option<Seq<char>>, Option<Seq<char>>)>,
) -> Result<RequestView, DimseError> {
    match f {
        None => Err(DimseError::CommandUnreadable),
        Some((field, message_id, class_uid, instance_uid)) => match (field, message_id) {
            (None, _) => Err(DimseError::MissingCommandField),
            (Some(_), None) => Err(DimseError::MissingMessageId),
            (Some(c), Some(m)) => if c == C_ECHO_RQ {
                Ok(RequestView::Echo(m))
            } else {
                match (class_uid, instance_uid) {
                    (None, _) => Err(DimseError::MissingAffectedSopClassUid),
                    (Some(_), None) => Err(DimseError::MissingAffectedSopInstanceUid),
                    (Some(cu), Some(iu)) => Ok(RequestView::Store(m, cu, iu)),
                }
            },
        },
    }
}

/// What a command set asks for, from the fields read from it.
pub fn classify_command(f: Option<CommandFields>) -> (r: Result<CommandRequest, DimseError>)
    ensures
        request_view(r) == classify_spec(command_fields_view(f)),
{
    let f = match f {
        Some(f) => f,
        None => return Err(DimseError::CommandUnreadable),
    };
    let field = match f.command_field {
        Some(v) => v,
        None => return Err(DimseError::MissingCommandField),
    };
    let message_id = match f.message_id {
        Some(v) => v,
        None => return Err(DimseError::MissingMessageId),
    };
    if field == C_ECHO_RQ {
        return Ok(CommandRequest::Echo { message_id });
    }
    let sop_class_uid = match f.sop_class_uid {
        Some(s) => s,
        None => return Err(DimseError::MissingAffectedSopClassUid),
    };
    let sop_instance_uid = match f.sop_instance_uid {
        Some(s) => s,
        None => return Err(DimseError::MissingAffectedSopInstanceUid),
    };
    Ok(CommandRequest::Store { message_id, sop_class_uid, sop_instance_uid })
}

/// Reads a command set, encoded in Implicit VR Little Endian: a C-ECHO
/// request, or any other command, taken for a C-STORE request.
pub fn read_command(bytes: &Vec<u8>) -> (r: Result<CommandRequest, DimseError>)
    ensures
        request_view(r) == classify_spec(command_fields_of(bytes@)),
{
    classify_command(read_command_fields(bytes.as_slice()))
}

/// The outcome of acting on a command set that arrived on context `pc`.
pub open spec fn command_outcome(
    old: Association,
    new: Association,
    pc: u8,
    cmd: Result<RequestView, DimseError>,
    r: Reaction,
) -> bool {
    &&& new.contexts == old.contexts
    &&& new.out_dir == old.out_dir
    &&& match cmd {
        Err(e) => r == Reaction::Abort(e) && new == old,
        Ok(RequestView::Echo(message_id)) => {
            &&& r matches Reaction::Respond { presentation_context_id, command }
            &&& presentation_context_id == pc
            &&& elements_view(command@) == cecho_response_spec(message_id)
            &&& new.instance_buffer@.len() == 0
            &&& new.message_id == old.message_id
            &&& new.sop_class_uid == old.sop_class_uid
            &&& new.sop_instance_uid == old.sop_instance_uid
        },
        Ok(RequestView::Store(message_id, sop_class_uid, sop_instance_uid)) => {
            &&& r is Nothing
            &&& new.instance_buffer@.len() == 0
            &&& new.message_id == message_id
            &&& new.sop_class_uid@ == sop_class_uid
            &&& new.sop_instance_uid@ == sop_instance_uid
        },
    }
}

/// The outcome of a complete data set held by `a`, received on context
/// `pc`: it is stored under the name of the last C-STORE request's
/// instance UID, with a file meta group of the context's transfer syntax
/// and the data set's own UIDs, and answered with a response that echoes
/// the request; or the association is abandoned for the first thing that
/// is missing.
pub open spec fn store_outcome(a: Association, pc: u8, r: Reaction) -> bool {
    match lookup_context(a.contexts@, pc) {
        None => r == Reaction::Abort(DimseError::MissingPresentationContext),
        Some(ts) => match data_set_uids_of(a.instance_buffer@, ts) {
            None => r == Reaction::Abort(DimseError::DataSetUnreadable),
            Some((None, _)) => r == Reaction::Abort(DimseError::MissingSopClassUid),
            Some((Some(_), None)) => r == Reaction::Abort(DimseError::MissingSopInstanceUid),
            Some((Some(class_uid), Some(instance_uid))) => if a.out_dir is None {
                r == Reaction::Abort(DimseError::NoOutputDirectory)
            } else if cstore_group_length(byte_len(a.sop_class_uid@), byte_len(a.sop_instance_uid@))
                > u32::MAX {
                r == Reaction::Abort(DimseError::UidsTooLong)
            } else {
                &&& r matches Reaction::Store {
                    presentation_context_id,
                    transfer_syntax,
                    sop_class_uid,
                    sop_instance_uid,
                    file_name,
                    command,
                    ..
                }
                &&& presentation_context_id == pc
                &&& transfer_syntax@ == ts
                &&& sop_class_uid@ == class_uid
                &&& sop_instance_uid@ == instance_uid
                &&& file_name@ == instance_file_name_spec(a.sop_instance_uid@)
                &&& elements_view(command@) == cstore_response_spec(
                    a.message_id,
                    a.sop_class_uid@,
                    a.sop_instance_uid@,
                    cstore_group_length(byte_len(a.sop_class_uid@), byte_len(a.sop_instance_uid@))
                        as u32,
                )
            },
        },
    }
}

/// The buffer grew by `data`; nothing else changed.
pub open spec fn appended(old: Association, new: Association, data: Seq<u8>) -> bool {
    &&& new.instance_buffer@ == old.instance_buffer@ + data
    &&& new.contexts == old.contexts
    &&& new.out_dir == old.out_dir
    &&& new.message_id == old.message_id
    &&& new.sop_class_uid == old.sop_class_uid
    &&& new.sop_instance_uid == old.sop_instance_uid
}

impl Association {
    /// A fresh association over the negotiated contexts.
    pub fn new(contexts: Vec<PresentationContext>, out_dir: Option<String>) -> (r: Association)
        ensures
            r.contexts == contexts,
            r.out_dir == out_dir,
            r.instance_buffer@.len() == 0,
            r.message_id == 1,
            r.sop_class_uid@.len() == 0,
            r.sop_instance_uid@.len() == 0,
    {
        Association {
            contexts,
            out_dir,
            instance_buffer: Vec::new(),
            message_id: 1,
            sop_class_uid: String::new(),
            sop_instance_uid: String::new(),
        }
    }

    /// Acts on a command set that arrived complete on context `pc`: a
    /// C-ECHO request is answered at once, the fields of a C-STORE request
    /// are kept for its data set. Either way the reassembly buffer is
    /// cleared. A command that could not be read abandons the association.
    pub fn on_command(&mut self, pc: u8, cmd: Result<CommandRequest, DimseError>) -> (r: Reaction)
        ensures
            command_outcome(*old(self), *final(self), pc, request_view(cmd), r),
    {
        match cmd {
            Err(e) => Reaction::Abort(e),
            Ok(CommandRequest::Echo { message_id }) => {
                let command = create_cecho_response(message_id);
                self.instance_buffer.clear();
                Reaction::Respond { presentation_context_id: pc, command }
            },
            Ok(CommandRequest::Store { message_id, sop_class_uid, sop_instance_uid }) => {
                self.message_id = message_id;
                self.sop_class_uid = sop_class_uid;
                self.sop_instance_uid = sop_instance_uid;
                self.instance_buffer.clear();
                Reaction::Nothing
            },
        }
    }

    /// Prepares the storage of the data set held in the reassembly buffer,
    /// received on context `pc`, for the last C-STORE request.
    pub fn store(&self, pc: u8) -> (r: Reaction)
        ensures
            store_outcome(*self, pc, r),
    {
        let ts = match find_transfer_syntax(&self.contexts, pc) {
            Some(t) => t,
            None => return Reaction::Abort(DimseError::MissingPresentationContext),
        };
        let (obj, class_uid, instance_uid) = match read_data_set(
            self.instance_buffer.as_slice(),
            ts.as_str(),
        ) {
            Some(t) => t,
            None => return Reaction::Abort(DimseError::DataSetUnreadable),
        };
        let class_uid = match class_uid {
            Some(s) => s,
            None => return Reaction::Abort(DimseError::MissingSopClassUid),
        };
        let instance_uid = match instance_uid {
            Some(s) => s,
            None => return Reaction::Abort(DimseError::MissingSopInstanceUid),
        };
        if self.out_dir.is_none() {
            return Reaction::Abort(DimseError::NoOutputDirectory);
        }
        let class_len = self.sop_class_uid.as_str().as_bytes().len();
        let instance_len = self.sop_instance_uid.as_str().as_bytes().len();
        if class_len > u32::MAX as usize || instance_len > u32::MAX as usize {
            return Reaction::Abort(DimseError::UidsTooLong);
        }
        let total: u64 = CSTORE_GROUP_LENGTH_BASE as u64 + class_len as u64 + (class_len % 2) as u64
            + instance_len as u64 + (instance_len % 2) as u64;
        if total > u32::MAX as u64 {
            return Reaction::Abort(DimseError::UidsTooLong);
        }
        let meta = file_meta(class_uid.as_str(), instance_uid.as_str(), ts.as_str()).unwrap();
        let object = with_meta(obj, meta);
        let file_name = instance_file_name(self.sop_instance_uid.as_str());
        let command = create_cstore_response(
            self.message_id,
            self.sop_class_uid.as_str(),
            self.sop_instance_uid.as_str(),
        );
        Reaction::Store {
            presentation_context_id: pc,
            transfer_syntax: ts.clone(),
            sop_class_uid: class_uid,
            sop_instance_uid: instance_uid,
            file_name,
            object,
            command,
        }
    }

    /// Acts on one received PDU; only the first value of a P-DATA PDU is
    /// looked at. Once shutdown is requested, no PDU is answered any more.
    pub fn handle_pdu(&mut self, pdu: Pdu, shutdown: bool) -> (r: Reaction)
        ensures
            shutdown ==> r is Stop && *final(self) == *old(self),
            !shutdown ==> match pdu {
                Pdu::ReleaseRq => r is Release && *final(self) == *old(self),
                Pdu::Other => r is Nothing && *final(self) == *old(self),
                Pdu::PData(values) => if values.len() == 0 {
                    r is Nothing && *final(self) == *old(self)
                } else {
                    let v = values[0];
                    if v.value_type == PdvKind::Data && !v.is_last {
                        r is Nothing && appended(*old(self), *final(self), v.data@)
                    } else if v.value_type == PdvKind::Command && v.is_last {
                        command_outcome(
                            *old(self),
                            *final(self),
                            v.presentation_context_id,
                            classify_spec(command_fields_of(v.data@)),
                            r,
                        )
                    } else if v.value_type == PdvKind::Data && v.is_last {
                        appended(*old(self), *final(self), v.data@) && store_outcome(
                            *final(self),
                            v.presentation_context_id,
                            r,
                        )
                    } else {
                        r is Nothing && *final(self) == *old(self)
                    }
                },
            },
    {
        if shutdown {
            return Reaction::Stop;
        }
        match pdu {
            Pdu::PData(values) => {
                if values.len() == 0 {
                    return Reaction::Nothing;
                }
                let mut values = values;
                let mut v = values.remove(0);
                let pc = v.presentation_context_id;
                if v.value_type == PdvKind::Data && !v.is_last {
                    self.instance_buffer.append(&mut v.data);
                    Reaction::Nothing
                } else if v.value_type == PdvKind::Command && v.is_last {
                    let cmd = read_command(&v.data);
                    self.on_command(pc, cmd)
                } else if v.value_type == PdvKind::Data && v.is_last {
                    self.instance_buffer.append(&mut v.data);
                    self.store(pc)
                } else {
                    Reaction::Nothing
                }
            },
            Pdu::ReleaseRq => Reaction::Release,
            Pdu::Other => Reaction::Nothing,
        }
    }
}

} // verus!
