//! The calls into the DICOM codec: reading command sets and data sets, and
//! synthesizing the file meta group.
use vstd::prelude::*;
use dicom::object::Tag;
use dicom::encoding::TransferSyntaxIndex;
use dicom::object::{FileDicomObject, FileMetaTable, FileMetaTableBuilder, InMemDicomObject, StandardDataDictionary};
use dicom::transfer_syntax::TransferSyntaxRegistry;
use dicom_transfer_syntax_registry::entries::IMPLICIT_VR_LITTLE_ENDIAN;

use crate::command::{AFFECTED_SOP_CLASS_UID, AFFECTED_SOP_INSTANCE_UID, COMMAND_FIELD, MESSAGE_ID};
use crate::config::opt_string_view;

verus! {

#[verifier::external_type_specification]
#[verifier::external_body]
pub struct ExStandardDataDictionary(StandardDataDictionary);

#[verifier::external_type_specification]
#[verifier::external_body]
#[verifier::reject_recursive_types(D)]
pub struct ExInMemDicomObject<D>(InMemDicomObject<D>);

#[verifier::external_type_specification]
#[verifier::external_body]
#[verifier::reject_recursive_types(O)]
pub struct ExFileDicomObject<O>(FileDicomObject<O>);

#[verifier::external_type_specification]
#[verifier::external_body]
pub struct ExFileMetaTable(FileMetaTable);

/// A data set held in memory, with the standard dictionary.
pub type DataSet = InMemDicomObject<StandardDataDictionary>;

/// A data set with its file meta group, ready to be written as a file.
pub type FileObject = FileDicomObject<InMemDicomObject<StandardDataDictionary>>;

/// The fields of a command set that this provider reads.
#[derive(Debug, Clone)]
pub struct CommandFields {
    /// Command Field (0000,0100), where it holds a `US` value.
    pub command_field: Option<u16>,
    /// Message ID (0000,0110), where it converts to `u16`.
    pub message_id: Option<u16>,
    /// Affected SOP Class UID (0000,0002), as one string.
    pub sop_class_uid: Option<String>,
    /// Affected SOP Instance UID (0000,1000), as one string.
    pub sop_instance_uid: Option<String>,
}

pub open spec fn command_fields_view(f: Option<CommandFields>) -> Option<
    (Option<u16>, Option<u16>, Option<Seq<char>>, Option<Seq<char>>),
> {
    match f {
        Some(f) => Some(
            (
                f.command_field,
                f.message_id,
                opt_string_view(f.sop_class_uid),
                opt_string_view(f.sop_instance_uid),
            ),
        ),
        None => None,
    }
}

/// What the codec reads from command set bytes in Implicit VR Little
/// Endian: none where they do not decode, else the Command Field, the
/// Message ID and the two affected UIDs, each where present and readable.
pub uninterp spec fn command_fields_of(bytes: Seq<u8>) -> Option<
    (Option<u16>, Option<u16>, Option<Seq<char>>, Option<Seq<char>>),
>;

/// What the codec reads from data set bytes under the transfer syntax with
/// this UID: none where the registry does not know the syntax or the bytes
/// do not decode, else the SOP Class UID and SOP Instance UID, each where
/// present and readable.
pub uninterp spec fn data_set_uids_of(bytes: Seq<u8>, ts_uid: Seq<char>) -> Option<
    (Option<Seq<char>>, Option<Seq<char>>),
>;

/// Relies on `InMemDicomObject::read_dataset_with_ts` with Implicit VR
/// Little Endian, then `InMemDicomObject::element` with
/// `DataElement::uint16`, `DataElement::to_int` and `DataElement::to_str`.
#[verifier::external_body]
pub(crate) fn read_command_fields(bytes: &[u8]) -> (r: Option<CommandFields>)
    ensures
        command_fields_view(r) == command_fields_of(bytes@),
{
    let obj = InMemDicomObject::read_dataset_with_ts(bytes, &IMPLICIT_VR_LITTLE_ENDIAN.erased()).ok()?;
    let el = |e: u16| obj.element(Tag(0, e)).ok();
    Some(CommandFields {
        command_field: el(COMMAND_FIELD).and_then(|e| e.uint16().ok()),
        message_id: el(MESSAGE_ID).and_then(|e| e.to_int::<u16>().ok()),
        sop_class_uid: el(AFFECTED_SOP_CLASS_UID).and_then(|e| e.to_str().ok()).map(|s| s.to_string()),
        sop_instance_uid: el(AFFECTED_SOP_INSTANCE_UID).and_then(|e| e.to_str().ok()).map(|s| s.to_string()),
    })
}

/// Relies on `TransferSyntaxRegistry::get`, `InMemDicomObject::read_dataset_with_ts`
/// with that syntax, then `InMemDicomObject::element` and
/// `DataElement::to_str` for (0008,0016) and (0008,0018).
#[verifier::external_body]
pub(crate) fn read_data_set(bytes: &[u8], ts_uid: &str) -> (r: Option<(DataSet, Option<String>, Option<String>)>)
    ensures
        match r {
            Some((_, c, i)) => data_set_uids_of(bytes@, ts_uid@) == Some((opt_string_view(c), opt_string_view(i))),
            None => data_set_uids_of(bytes@, ts_uid@) is None,
        },
{
    let obj = InMemDicomObject::read_dataset_with_ts(bytes, TransferSyntaxRegistry.get(ts_uid)?).ok()?;
    let text = |e: u16| obj.element(Tag(0x0008, e)).ok().and_then(|e| e.to_str().ok()).map(|s| s.to_string());
    let (c, i) = (text(0x0016), text(0x0018));
    Some((obj, c, i))
}

/// Relies on `FileMetaTableBuilder`: the three fields set, then `build`,
/// which fails only where no transfer syntax is set.
#[verifier::external_body]
pub(crate) fn file_meta(sop_class_uid: &str, sop_instance_uid: &str, ts_uid: &str) -> (r: Option<FileMetaTable>)
    ensures
        r is Some,
{
    FileMetaTableBuilder::new()
        .media_storage_sop_class_uid(sop_class_uid)
        .media_storage_sop_instance_uid(sop_instance_uid)
        .transfer_syntax(ts_uid)
        .build()
        .ok()
}

/// Relies on `InMemDicomObject::with_exact_meta`: the data set with this
/// file meta group.
#[verifier::external_body]
pub(crate) fn with_meta(obj: DataSet, meta: FileMetaTable) -> FileObject {
    obj.with_exact_meta(meta)
}

} // verus!
