//! DIMSE command sets: the elements of group 0000 that requests and
//! responses carry, and the responses this provider sends.
use vstd::prelude::*;

verus! {

/// Command Group Length (0000,0000).
pub const COMMAND_GROUP_LENGTH: u16 = 0x0000;
/// Affected SOP Class UID (0000,0002).
pub const AFFECTED_SOP_CLASS_UID: u16 = 0x0002;
/// Command Field (0000,0100).
pub const COMMAND_FIELD: u16 = 0x0100;
/// Message ID (0000,0110).
pub const MESSAGE_ID: u16 = 0x0110;
/// Message ID Being Responded To (0000,0120).
pub const MESSAGE_ID_BEING_RESPONDED_TO: u16 = 0x0120;
/// Command Data Set Type (0000,0800).
pub const COMMAND_DATA_SET_TYPE: u16 = 0x0800;
/// Status (0000,0900).
pub const STATUS: u16 = 0x0900;
/// Affected SOP Instance UID (0000,1000).
pub const AFFECTED_SOP_INSTANCE_UID: u16 = 0x1000;

pub const C_STORE_RQ: u16 = 0x0001;
pub const C_ECHO_RQ: u16 = 0x0030;
pub const C_STORE_RSP: u16 = 0x8001;
pub const C_ECHO_RSP: u16 = 0x8030;
/// Command Data Set Type: no data set follows.
pub const NO_DATA_SET: u16 = 0x0101;
pub const STATUS_SUCCESS: u16 = 0x0000;

/// The Command Group Length of a C-ECHO response: four `US` elements of
/// 8 header bytes and 2 value bytes each.
pub const CECHO_GROUP_LENGTH: u32 = 40;
/// The part of a C-STORE response's Command Group Length that does not
/// depend on its two UIDs: four `US` elements and the headers of the two
/// `UI` elements.
pub const CSTORE_GROUP_LENGTH_BASE: u32 = 56;

/// The value of a command element; its kind fixes the value
/// representation: `US`, `UL` or `UI`.
#[derive(Debug, Clone, PartialEq, Eq)]
pub enum ElementValue {
    U16(u16),
    U32(u32),
    Text(String),
}

/// One element of a command set; the group is always 0000.
#[derive(Debug, Clone, PartialEq, Eq)]
pub struct CommandElement {
    pub group: u16,
    pub element: u16,
    pub value: ElementValue,
}

pub enum ValueView {
    U16(u16),
    U32(u32),
    Text(Seq<char>),
}

pub struct ElementView {
    pub group: u16,
    pub element: u16,
    pub value: ValueView,
}

impl View for CommandElement {
    type V = ElementView;

    open spec fn view(&self) -> ElementView {
        ElementView {
            group: self.group,
            element: self.element,
            value: match self.value {
                ElementValue::U16(v) => ValueView::U16(v),
                ElementValue::U32(v) => ValueView::U32(v),
                ElementValue::Text(s) => ValueView::Text(s@),
            },
        }
    }
}

pub open spec fn elements_view(v: Seq<CommandElement>) -> Seq<ElementView> {
    v.map_values(|e: CommandElement| e@)
}

pub open spec fn el(element: u16, value: ValueView) -> ElementView {
    ElementView { group: 0, element, value }
}

/// The C-ECHO response to the request with this message id.
pub open spec fn cecho_response_spec(message_id: u16) -> Seq<ElementView> {
    seq![
        el(COMMAND_GROUP_LENGTH, ValueView::U32(CECHO_GROUP_LENGTH)),
        el(COMMAND_FIELD, ValueView::U16(C_ECHO_RSP)),
        el(MESSAGE_ID_BEING_RESPONDED_TO, ValueView::U16(message_id)),
        el(COMMAND_DATA_SET_TYPE, ValueView::U16(NO_DATA_SET)),
        el(STATUS, ValueView::U16(STATUS_SUCCESS)),
    ]
}

/// The number of bytes that the UTF-8 encoding of a text takes.
pub open spec fn byte_len(s: Seq<char>) -> nat {
    vstd::utf8::encode_utf8(s).len()
}

/// A length rounded up to an even number.
pub open spec fn even_up(n: nat) -> nat {
    n + n % 2
}

/// The Command Group Length of a C-STORE response whose UIDs take these
/// many bytes: each `UI` value is padded to an even length.
pub open spec fn cstore_group_length(class_bytes: nat, instance_bytes: nat) -> int {
    CSTORE_GROUP_LENGTH_BASE + even_up(class_bytes) + even_up(instance_bytes)
}

/// The C-STORE response to the request with this message id and these
/// UIDs, which take these many bytes.
pub open spec fn cstore_response_spec(
    message_id: u16,
    sop_class_uid: Seq<char>,
    sop_instance_uid: Seq<char>,
    group_length: u32,
) -> Seq<ElementView> {
    seq![
        el(COMMAND_GROUP_LENGTH, ValueView::U32(group_length)),
        el(AFFECTED_SOP_CLASS_UID, ValueView::Text(sop_class_uid)),
        el(COMMAND_FIELD, ValueView::U16(C_STORE_RSP)),
        el(MESSAGE_ID_BEING_RESPONDED_TO, ValueView::U16(message_id)),
        el(COMMAND_DATA_SET_TYPE, ValueView::U16(NO_DATA_SET)),
        el(STATUS, ValueView::U16(STATUS_SUCCESS)),
        el(AFFECTED_SOP_INSTANCE_UID, ValueView::Text(sop_instance_uid)),
    ]
}

fn us(element: u16, v: u16) -> (r: CommandElement)
    ensures
        r@ == el(element, ValueView::U16(v)),
{
    CommandElement { group: 0, element, value: ElementValue::U16(v) }
}

/// The C-ECHO response to the request with this message id: success, no
/// data set.
pub fn create_cecho_response(message_id: u16) -> (r: Vec<CommandElement>)
    ensures
        elements_view(r@) == cecho_response_spec(message_id),
{
    let mut r: Vec<CommandElement> = Vec::new();
    r.push(
        CommandElement {
            group: 0,
            element: COMMAND_GROUP_LENGTH,
            value: ElementValue::U32(CECHO_GROUP_LENGTH),
        },
    );
    r.push(us(COMMAND_FIELD, C_ECHO_RSP));
    r.push(us(MESSAGE_ID_BEING_RESPONDED_TO, message_id));
    r.push(us(COMMAND_DATA_SET_TYPE, NO_DATA_SET));
    r.push(us(STATUS, STATUS_SUCCESS));
    proof {
        assert(elements_view(r@) =~= cecho_response_spec(message_id));
    }
    r
}

/// The C-STORE response to the request with this message id and these
/// UIDs: success, no data set.
pub fn create_cstore_response(message_id: u16, sop_class_uid: &str, sop_instance_uid: &str) -> (r: Vec<
    CommandElement,
>)
    requires
        cstore_group_length(byte_len(sop_class_uid@), byte_len(sop_instance_uid@))
            <= u32::MAX,
    ensures
        elements_view(r@) == cstore_response_spec(
            message_id,
            sop_class_uid@,
            sop_instance_uid@,
            cstore_group_length(byte_len(sop_class_uid@), byte_len(sop_instance_uid@)) as u32,
        ),
{
    let class_len = sop_class_uid.as_bytes().len();
    let instance_len = sop_instance_uid.as_bytes().len();
    let length: u32 = CSTORE_GROUP_LENGTH_BASE + (class_len + class_len % 2) as u32 + (instance_len
        + instance_len % 2) as u32;
    let mut r: Vec<CommandElement> = Vec::new();
    r.push(CommandElement { group: 0, element: COMMAND_GROUP_LENGTH, value: ElementValue::U32(length) });
    r.push(
        CommandElement {
            group: 0,
            element: AFFECTED_SOP_CLASS_UID,
            value: ElementValue::Text(sop_class_uid.to_owned()),
        },
    );
    r.push(us(COMMAND_FIELD, C_STORE_RSP));
    r.push(us(MESSAGE_ID_BEING_RESPONDED_TO, message_id));
    r.push(us(COMMAND_DATA_SET_TYPE, NO_DATA_SET));
    r.push(us(STATUS, STATUS_SUCCESS));
    r.push(
        CommandElement {
            group: 0,
            element: AFFECTED_SOP_INSTANCE_UID,
            value: ElementValue::Text(sop_instance_uid.to_owned()),
        },
    );
    proof {
        assert(elements_view(r@) =~= cstore_response_spec(
            message_id,
            sop_class_uid@,
            sop_instance_uid@,
            length,
        ));
    }
    r
}

/// Two bytes, least significant first.
pub open spec fn le16(v: u16) -> Seq<u8> {
    seq![(v % 256) as u8, (v / 256) as u8]
}

/// Four bytes, least significant first.
pub open spec fn le32(v: u32) -> Seq<u8> {
    seq![(v % 256) as u8, ((v / 256) % 256) as u8, ((v / 65536) % 256) as u8, (v / 16777216) as u8]
}

/// The bytes with a NUL appended where their number is odd.
pub open spec fn pad_even(b: Seq<u8>) -> Seq<u8> {
    if b.len() % 2 == 1 {
        b.push(0u8)
    } else {
        b
    }
}

/// The value field of an element: `US` and `UL` little endian, `UI` as its
/// UTF-8 bytes padded with NUL to an even length.
pub open spec fn value_bytes(v: ValueView) -> Seq<u8> {
    match v {
        ValueView::U16(x) => le16(x),
        ValueView::U32(x) => le32(x),
        ValueView::Text(s) => pad_even(vstd::utf8::encode_utf8(s)),
    }
}

/// An element in Implicit VR Little Endian: group, element, the 32-bit
/// length of the value field, then the value field.
pub open spec fn element_bytes(e: ElementView) -> Seq<u8> {
    le16(e.group) + le16(e.element) + le32(value_bytes(e.value).len() as u32) + value_bytes(e.value)
}

/// The elements encoded one after the other, in Implicit VR Little Endian.
pub open spec fn implicit_le_spec(es: Seq<ElementView>) -> Seq<u8>
    decreases es.len(),
{
    if es.len() == 0 {
        Seq::empty()
    } else {
        implicit_le_spec(es.drop_last()) + element_bytes(es.last())
    }
}

/// Every value field fits the 32-bit length of its header.
pub open spec fn encodable(es: Seq<ElementView>) -> bool {
    forall|i: int| 0 <= i < es.len() ==> value_bytes(#[trigger] es[i].value).len() <= u32::MAX
}

proof fn lemma_encode_push(es: Seq<ElementView>, e: ElementView)
    ensures
        implicit_le_spec(es.push(e)) == implicit_le_spec(es) + element_bytes(e),
{
    assert(es.push(e).drop_last() =~= es);
}

fn push_le16(out: &mut Vec<u8>, v: u16)
    ensures
        final(out)@ == old(out)@ + le16(v),
{
    out.push((v % 256) as u8);
    out.push((v / 256) as u8);
    proof {
        assert(final(out)@ =~= old(out)@ + le16(v));
    }
}

fn push_le32(out: &mut Vec<u8>, v: u32)
    ensures
        final(out)@ == old(out)@ + le32(v),
{
    out.push((v % 256) as u8);
    out.push(((v / 256) % 256) as u8);
    out.push(((v / 65536) % 256) as u8);
    out.push((v / 16777216) as u8);
    proof {
        assert(final(out)@ =~= old(out)@ + le32(v));
    }
}

fn value_field(v: &ElementValue) -> (r: Vec<u8>)
    ensures
        r@ == value_bytes(
            match *v {
                ElementValue::U16(x) => ValueView::U16(x),
                ElementValue::U32(x) => ValueView::U32(x),
                ElementValue::Text(s) => ValueView::Text(s@),
            },
        ),
{
    let mut r: Vec<u8> = Vec::new();
    match v {
        ElementValue::U16(x) => push_le16(&mut r, *x),
        ElementValue::U32(x) => push_le32(&mut r, *x),
        ElementValue::Text(s) => {
            let b = s.as_str().as_bytes();
            let mut i: usize = 0;
            while i < b.len()
                invariant
                    i <= b@.len(),
                    r@ == b@.subrange(0, i as int),
                decreases b.len() - i,
            {
                r.push(b[i]);
                i = i + 1;
                proof {
                    assert(r@ =~= b@.subrange(0, i as int));
                }
            }
            proof {
                assert(b@.subrange(0, b@.len() as int) =~= b@);
            }
            if r.len() % 2 == 1 {
                r.push(0u8);
            }
        },
    }
    r
}

/// The command set encoded in Implicit VR Little Endian, element after
/// element in the order given; none where a value is too long for its
/// 32-bit length.
pub fn encode_command(elements: &Vec<CommandElement>) -> (r: Option<Vec<u8>>)
    ensures
        r is Some <==> encodable(elements_view(elements@)),
        r matches Some(b) ==> b@ == implicit_le_spec(elements_view(elements@)),
{
    let ghost es = elements_view(elements@);
    let mut out: Vec<u8> = Vec::new();
    let mut i: usize = 0;
    proof {
        assert(es.subrange(0, 0) =~= Seq::<ElementView>::empty());
    }
    while i < elements.len()
        invariant
            es == elements_view(elements@),
            i <= elements@.len(),
            out@ == implicit_le_spec(es.subrange(0, i as int)),
            forall|j: int| 0 <= j < i ==> value_bytes(#[trigger] es[j].value).len() <= u32::MAX,
        decreases elements.len() - i,
    {
        let e = &elements[i];
        let mut field = value_field(&e.value);
        if field.len() > u32::MAX as usize {
            return None;
        }
        let len = field.len() as u32;
        push_le16(&mut out, e.group);
        push_le16(&mut out, e.element);
        push_le32(&mut out, len);
        out.append(&mut field);
        proof {
            assert(es.subrange(0, i + 1) =~= es.subrange(0, i as int).push(es[i as int]));
            lemma_encode_push(es.subrange(0, i as int), es[i as int]);
            assert(out@ =~= implicit_le_spec(es.subrange(0, i as int)) + element_bytes(es[i as int]));
        }
        i = i + 1;
    }
    proof {
        assert(es.subrange(0, es.len() as int) =~= es);
    }
    Some(out)
}

/// A C-ECHO response's Command Group Length is the number of bytes that the
/// elements after it take in Implicit VR Little Endian.
pub proof fn lemma_cecho_group_length(message_id: u16)
    ensures
        cecho_response_spec(message_id)[0].value == ValueView::U32(
            implicit_le_spec(cecho_response_spec(message_id).drop_first()).len() as u32,
        ),
{
    let r = cecho_response_spec(message_id);
    let e = Seq::<ElementView>::empty();
    assert(r.drop_first() =~= e.push(r[1]).push(r[2]).push(r[3]).push(r[4]));
    lemma_encode_push(e, r[1]);
    lemma_encode_push(e.push(r[1]), r[2]);
    lemma_encode_push(e.push(r[1]).push(r[2]), r[3]);
    lemma_encode_push(e.push(r[1]).push(r[2]).push(r[3]), r[4]);
}

/// A C-STORE response's Command Group Length is the number of bytes that
/// the elements after it take in Implicit VR Little Endian, each UID padded
/// to an even length.
pub proof fn lemma_cstore_group_length(message_id: u16, sop_class_uid: Seq<char>, sop_instance_uid: Seq<char>)
    requires
        cstore_group_length(byte_len(sop_class_uid), byte_len(sop_instance_uid)) <= u32::MAX,
    ensures
        ({
            let r = cstore_response_spec(
                message_id,
                sop_class_uid,
                sop_instance_uid,
                cstore_group_length(byte_len(sop_class_uid), byte_len(sop_instance_uid)) as u32,
            );
            r[0].value == ValueView::U32(implicit_le_spec(r.drop_first()).len() as u32)
        }),
{
    let r = cstore_response_spec(
        message_id,
        sop_class_uid,
        sop_instance_uid,
        cstore_group_length(byte_len(sop_class_uid), byte_len(sop_instance_uid)) as u32,
    );
    let e = Seq::<ElementView>::empty();
    assert(r.drop_first() =~= e.push(r[1]).push(r[2]).push(r[3]).push(r[4]).push(r[5]).push(r[6]));
    lemma_encode_push(e, r[1]);
    lemma_encode_push(e.push(r[1]), r[2]);
    lemma_encode_push(e.push(r[1]).push(r[2]), r[3]);
    lemma_encode_push(e.push(r[1]).push(r[2]).push(r[3]), r[4]);
    lemma_encode_push(e.push(r[1]).push(r[2]).push(r[3]).push(r[4]), r[5]);
    lemma_encode_push(e.push(r[1]).push(r[2]).push(r[3]).push(r[4]).push(r[5]), r[6]);
}

} // verus!
