use dicom::object::InMemDicomObject;
use dicom_core::{DataElement, PrimitiveValue, Tag, VR};
use dicom_transfer_syntax_registry::entries::{EXPLICIT_VR_LITTLE_ENDIAN, IMPLICIT_VR_LITTLE_ENDIAN};

use store_scp::association::{
    classify_command, find_transfer_syntax, instance_file_name, read_command, Association,
    CommandRequest, DimseError, Pdu, PdvKind, Pdv, PresentationContext, Reaction,
};
use store_scp::codec::CommandFields;
use store_scp::command::{
    create_cecho_response, create_cstore_response, encode_command, CommandElement, ElementValue,
};

const CT_IMAGE_STORAGE: &str = "1.2.840.10008.5.1.4.1.1.2";

fn us(element: u16, v: u16) -> DataElement<InMemDicomObject> {
    DataElement::new(Tag(0, element), VR::US, PrimitiveValue::from(v))
}

fn ui(group: u16, element: u16, v: &str) -> DataElement<InMemDicomObject> {
    DataElement::new(Tag(group, element), VR::UI, PrimitiveValue::from(v))
}

fn implicit(obj: &InMemDicomObject) -> Vec<u8> {
    let mut out = Vec::new();
    obj.write_dataset_with_ts(&mut out, &IMPLICIT_VR_LITTLE_ENDIAN.erased()).unwrap();
    out
}

fn echo_rq(message_id: u16) -> Vec<u8> {
    let obj = InMemDicomObject::from_element_iter(vec![
        ui(0, 0x0002, "1.2.840.10008.1.1"),
        us(0x0100, 0x0030),
        us(0x0110, message_id),
        us(0x0800, 0x0101),
    ]);
    implicit(&obj)
}

fn store_rq(message_id: u16, class_uid: &str, instance_uid: &str) -> Vec<u8> {
    let obj = InMemDicomObject::from_element_iter(vec![
        ui(0, 0x0002, class_uid),
        us(0x0100, 0x0001),
        us(0x0110, message_id),
        us(0x0700, 0),
        us(0x0800, 0x0000),
        ui(0, 0x1000, instance_uid),
    ]);
    implicit(&obj)
}

fn ct_data_set(instance_uid: &str) -> Vec<u8> {
    let obj = InMemDicomObject::from_element_iter(vec![
        ui(0x0008, 0x0016, CT_IMAGE_STORAGE),
        ui(0x0008, 0x0018, instance_uid),
        DataElement::new(Tag(0x0010, 0x0010), VR::PN, PrimitiveValue::from("Doe^John")),
    ]);
    let mut out = Vec::new();
    obj.write_dataset_with_ts(&mut out, &EXPLICIT_VR_LITTLE_ENDIAN.erased()).unwrap();
    out
}

fn pdata(pc: u8, value_type: PdvKind, is_last: bool, data: Vec<u8>) -> Pdu {
    Pdu::PData(vec![Pdv { presentation_context_id: pc, value_type, is_last, data }])
}

fn contexts() -> Vec<PresentationContext> {
    vec![
        PresentationContext { id: 1, transfer_syntax: "1.2.840.10008.1.2".to_string() },
        PresentationContext { id: 3, transfer_syntax: "1.2.840.10008.1.2.1".to_string() },
    ]
}

fn u16_at(elements: &[CommandElement], element: u16) -> u16 {
    match elements.iter().find(|e| e.element == element).map(|e| &e.value) {
        Some(ElementValue::U16(v)) => *v,
        other => panic!("no US element {:04x}: {:?}", element, other),
    }
}

fn text_at(elements: &[CommandElement], element: u16) -> String {
    match elements.iter().find(|e| e.element == element).map(|e| &e.value) {
        Some(ElementValue::Text(s)) => s.clone(),
        other => panic!("no UI element {:04x}: {:?}", element, other),
    }
}

#[test]
fn cecho_response_fields() {
    let r = create_cecho_response(7);
    assert_eq!(r.len(), 5);
    assert_eq!(r[0], CommandElement { group: 0, element: 0x0000, value: ElementValue::U32(40) });
    assert_eq!(u16_at(&r, 0x0100), 0x8030);
    assert_eq!(u16_at(&r, 0x0120), 7);
    assert_eq!(u16_at(&r, 0x0800), 0x0101);
    assert_eq!(u16_at(&r, 0x0900), 0x0000);
}

#[test]
fn cstore_response_fields() {
    let r = create_cstore_response(42, CT_IMAGE_STORAGE, "1.2.3.4.5");
    assert_eq!(r.len(), 7);
    assert_eq!(r[0].value, ElementValue::U32(56 + 26 + 10));
    assert_eq!(r[0].value, ElementValue::U32(92));
    assert_eq!(text_at(&r, 0x0002), CT_IMAGE_STORAGE);
    assert_eq!(u16_at(&r, 0x0100), 0x8001);
    assert_eq!(u16_at(&r, 0x0120), 42);
    assert_eq!(u16_at(&r, 0x0800), 0x0101);
    assert_eq!(u16_at(&r, 0x0900), 0x0000);
    assert_eq!(text_at(&r, 0x1000), "1.2.3.4.5");
    let tags: Vec<u16> = r.iter().map(|e| e.element).collect();
    assert_eq!(tags, vec![0x0000, 0x0002, 0x0100, 0x0120, 0x0800, 0x0900, 0x1000]);
}

#[test]
fn encoded_responses_decode_in_implicit_little_endian() {
    let bytes = encode_command(&create_cecho_response(7)).unwrap();
    // the group length element takes 12 bytes; the declared length counts the rest
    assert_eq!(bytes.len(), 12 + 40);
    assert_eq!(&bytes[..12], &[0, 0, 0, 0, 4, 0, 0, 0, 40, 0, 0, 0]);
    let obj =
        InMemDicomObject::read_dataset_with_ts(&bytes[..], &IMPLICIT_VR_LITTLE_ENDIAN.erased()).unwrap();
    assert_eq!(obj.element(Tag(0, 0x0100)).unwrap().uint16().unwrap(), 0x8030);
    assert_eq!(obj.element(Tag(0, 0x0120)).unwrap().uint16().unwrap(), 7);
    assert_eq!(obj.element(Tag(0, 0x0800)).unwrap().uint16().unwrap(), 0x0101);
    assert_eq!(obj.element(Tag(0, 0x0900)).unwrap().uint16().unwrap(), 0x0000);

    let bytes = encode_command(&create_cstore_response(42, CT_IMAGE_STORAGE, "1.2.3.4.5")).unwrap();
    assert_eq!(bytes.len(), 12 + 92);
    let obj =
        InMemDicomObject::read_dataset_with_ts(&bytes[..], &IMPLICIT_VR_LITTLE_ENDIAN.erased()).unwrap();
    assert_eq!(obj.element(Tag(0, 0x0100)).unwrap().uint16().unwrap(), 0x8001);
    assert_eq!(obj.element(Tag(0, 0x0120)).unwrap().uint16().unwrap(), 42);
    let instance = obj.element(Tag(0, 0x1000)).unwrap().to_str().unwrap().to_string();
    assert_eq!(instance.trim_end_matches('\0'), "1.2.3.4.5");
}

#[test]
fn file_name_drops_trailing_nuls() {
    assert_eq!(instance_file_name("1.2.3.4.5"), "1.2.3.4.5.dcm");
    assert_eq!(instance_file_name("1.2.3.4\0\0"), "1.2.3.4.dcm");
    assert_eq!(instance_file_name(""), ".dcm");
}

#[test]
fn transfer_syntax_lookup_by_context_id() {
    let c = contexts();
    assert_eq!(find_transfer_syntax(&c, 3).map(|s| s.as_str()), Some("1.2.840.10008.1.2.1"));
    assert_eq!(find_transfer_syntax(&c, 1).map(|s| s.as_str()), Some("1.2.840.10008.1.2"));
    assert_eq!(find_transfer_syntax(&c, 5), None);
}

#[test]
fn read_command_tells_echo_from_store() {
    match read_command(&echo_rq(7)) {
        Ok(CommandRequest::Echo { message_id }) => assert_eq!(message_id, 7),
        other => panic!("unexpected {:?}", other),
    }
    match read_command(&store_rq(42, CT_IMAGE_STORAGE, "1.2.3.4.5")) {
        Ok(CommandRequest::Store { message_id, sop_class_uid, sop_instance_uid }) => {
            assert_eq!(message_id, 42);
            assert_eq!(sop_class_uid.trim_end_matches('\0'), CT_IMAGE_STORAGE);
            assert_eq!(sop_instance_uid.trim_end_matches('\0'), "1.2.3.4.5");
        }
        other => panic!("unexpected {:?}", other),
    }
    let no_field = implicit(&InMemDicomObject::from_element_iter(vec![us(0x0110, 3)]));
    assert!(matches!(read_command(&no_field), Err(DimseError::MissingCommandField)));
    assert!(matches!(read_command(&vec![1, 2, 3]), Err(_)));
}

#[test]
fn cecho_round_trip() {
    let mut a = Association::new(contexts(), Some(".".to_string()));
    match a.handle_pdu(pdata(1, PdvKind::Command, true, echo_rq(7)), false) {
        Reaction::Respond { presentation_context_id, command } => {
            assert_eq!(presentation_context_id, 1);
            assert_eq!(u16_at(&command, 0x0100), 0x8030);
            assert_eq!(u16_at(&command, 0x0120), 7);
            assert_eq!(u16_at(&command, 0x0800), 0x0101);
            assert_eq!(u16_at(&command, 0x0900), 0x0000);
        }
        _ => panic!("expected a C-ECHO response"),
    }
}

#[test]
fn cstore_round_trip() {
    let mut a = Association::new(contexts(), Some(".".to_string()));
    let r = a.handle_pdu(pdata(3, PdvKind::Command, true, store_rq(42, CT_IMAGE_STORAGE, "1.2.3.4.5")), false);
    assert!(matches!(r, Reaction::Nothing));
    assert_eq!(a.message_id, 42);
    let data = ct_data_set("1.2.3.4.5");
    let half = data.len() / 2;
    let r = a.handle_pdu(pdata(3, PdvKind::Data, false, data[..half].to_vec()), false);
    assert!(matches!(r, Reaction::Nothing));
    assert_eq!(a.instance_buffer.len(), half);
    match a.handle_pdu(pdata(3, PdvKind::Data, true, data[half..].to_vec()), false) {
        Reaction::Store {
            presentation_context_id,
            transfer_syntax,
            sop_class_uid,
            sop_instance_uid,
            file_name,
            object,
            command,
        } => {
            assert_eq!(presentation_context_id, 3);
            assert_eq!(transfer_syntax, "1.2.840.10008.1.2.1");
            assert_eq!(sop_class_uid.trim_end_matches('\0'), CT_IMAGE_STORAGE);
            assert_eq!(sop_instance_uid.trim_end_matches('\0'), "1.2.3.4.5");
            assert_eq!(object.meta().media_storage_sop_instance_uid().trim_end_matches('\0'), "1.2.3.4.5");
            assert_eq!(object.meta().media_storage_sop_class_uid().trim_end_matches('\0'), CT_IMAGE_STORAGE);
            assert_eq!(file_name, "1.2.3.4.5.dcm");
            assert_eq!(object.meta().transfer_syntax().trim_end_matches('\0'), "1.2.840.10008.1.2.1");
            let stored = object.element(Tag(0x0008, 0x0018)).unwrap().to_str().unwrap().to_string();
            assert_eq!(stored.trim_end_matches('\0'), "1.2.3.4.5");
            assert_eq!(u16_at(&command, 0x0100), 0x8001);
            assert_eq!(u16_at(&command, 0x0120), 42);
            assert_eq!(u16_at(&command, 0x0900), 0x0000);
            assert_eq!(text_at(&command, 0x0002).trim_end_matches('\0'), CT_IMAGE_STORAGE);
            assert_eq!(text_at(&command, 0x1000).trim_end_matches('\0'), "1.2.3.4.5");
        }
        _ => panic!("expected a store"),
    }
    assert_eq!(a.instance_buffer.len(), data.len());
}

#[test]
fn command_clears_reassembly_buffer() {
    let mut a = Association::new(contexts(), Some(".".to_string()));
    a.handle_pdu(pdata(3, PdvKind::Data, false, vec![1, 2, 3]), false);
    assert_eq!(a.instance_buffer, vec![1, 2, 3]);
    a.handle_pdu(pdata(1, PdvKind::Command, true, echo_rq(1)), false);
    assert!(a.instance_buffer.is_empty());
}

#[test]
fn data_on_unknown_context_aborts() {
    let mut a = Association::new(contexts(), Some(".".to_string()));
    let r = a.handle_pdu(pdata(9, PdvKind::Data, true, vec![0; 4]), false);
    assert!(matches!(r, Reaction::Abort(DimseError::MissingPresentationContext)));
}

#[test]
fn missing_output_directory_aborts() {
    let mut a = Association::new(contexts(), None);
    a.handle_pdu(pdata(3, PdvKind::Command, true, store_rq(5, CT_IMAGE_STORAGE, "1.2.3")), false);
    let r = a.handle_pdu(pdata(3, PdvKind::Data, true, ct_data_set("1.2.3")), false);
    assert!(matches!(r, Reaction::Abort(DimseError::NoOutputDirectory)));
}

#[test]
fn unreadable_command_aborts() {
    let mut a = Association::new(contexts(), Some(".".to_string()));
    let r = a.handle_pdu(pdata(1, PdvKind::Command, true, vec![0xff; 3]), false);
    assert!(matches!(r, Reaction::Abort(_)));
}

#[test]
fn release_empty_and_other_pdus() {
    let mut a = Association::new(contexts(), Some(".".to_string()));
    assert!(matches!(a.handle_pdu(Pdu::ReleaseRq, false), Reaction::Release));
    assert!(matches!(a.handle_pdu(Pdu::PData(vec![]), false), Reaction::Nothing));
    assert!(matches!(a.handle_pdu(Pdu::Other, false), Reaction::Nothing));
    assert!(matches!(a.handle_pdu(pdata(1, PdvKind::Command, false, vec![1]), false), Reaction::Nothing));
}

#[test]
fn shutdown_stops_without_answer() {
    let mut a = Association::new(contexts(), Some(".".to_string()));
    let r = a.handle_pdu(pdata(1, PdvKind::Command, true, echo_rq(7)), true);
    assert!(matches!(r, Reaction::Stop));
    assert!(matches!(a.handle_pdu(Pdu::ReleaseRq, true), Reaction::Stop));
    assert!(a.instance_buffer.is_empty());
}

fn fields(
    command_field: Option<u16>,
    message_id: Option<u16>,
    class_uid: Option<&str>,
    instance_uid: Option<&str>,
) -> Option<CommandFields> {
    Some(CommandFields {
        command_field,
        message_id,
        sop_class_uid: class_uid.map(|s| s.to_string()),
        sop_instance_uid: instance_uid.map(|s| s.to_string()),
    })
}

#[test]
fn classify_command_cases() {
    assert!(matches!(classify_command(None), Err(DimseError::CommandUnreadable)));
    assert!(matches!(classify_command(fields(None, Some(1), None, None)), Err(DimseError::MissingCommandField)));
    assert!(matches!(classify_command(fields(Some(0x30), None, None, None)), Err(DimseError::MissingMessageId)));
    assert!(matches!(
        classify_command(fields(Some(0x30), Some(7), None, None)),
        Ok(CommandRequest::Echo { message_id: 7 })
    ));
    assert!(matches!(
        classify_command(fields(Some(1), Some(2), None, Some("1.2"))),
        Err(DimseError::MissingAffectedSopClassUid)
    ));
    assert!(matches!(
        classify_command(fields(Some(1), Some(2), Some("1.2"), None)),
        Err(DimseError::MissingAffectedSopInstanceUid)
    ));
    match classify_command(fields(Some(1), Some(42), Some(CT_IMAGE_STORAGE), Some("1.2.3.4.5"))) {
        Ok(CommandRequest::Store { message_id, sop_class_uid, sop_instance_uid }) => {
            assert_eq!(message_id, 42);
            assert_eq!(sop_class_uid, CT_IMAGE_STORAGE);
            assert_eq!(sop_instance_uid, "1.2.3.4.5");
        }
        other => panic!("unexpected {:?}", other),
    }
}

#[test]
fn encoding_pads_text_and_counts_lengths() {
    let elements = vec![
        CommandElement { group: 0, element: 0x0100, value: ElementValue::U16(0x8001) },
        CommandElement { group: 0, element: 0x1000, value: ElementValue::Text("1.2.3".to_string()) },
    ];
    let bytes = encode_command(&elements).unwrap();
    assert_eq!(
        bytes,
        vec![
            0, 0, 0, 1, 2, 0, 0, 0, 0x01, 0x80, //
            0, 0, 0, 0x10, 6, 0, 0, 0, b'1', b'.', b'2', b'.', b'3', 0,
        ]
    );
}

#[test]
fn data_set_without_instance_uid_aborts() {
    let mut a = Association::new(contexts(), Some(".".to_string()));
    a.handle_pdu(pdata(3, PdvKind::Command, true, store_rq(5, CT_IMAGE_STORAGE, "1.2.3")), false);
    let obj = InMemDicomObject::from_element_iter(vec![ui(0x0008, 0x0016, CT_IMAGE_STORAGE)]);
    let mut data = Vec::new();
    obj.write_dataset_with_ts(&mut data, &EXPLICIT_VR_LITTLE_ENDIAN.erased()).unwrap();
    let r = a.handle_pdu(pdata(3, PdvKind::Data, true, data), false);
    assert!(matches!(r, Reaction::Abort(DimseError::MissingSopInstanceUid)));
}
