//! Wire-protocol codec: JSON text frames.
//!
//! Outbound frames are produced entirely by verified code:
//! `{"type":"sendMessage","payload":"<text>"}` with the payload text
//! JSON-escaped.  Inbound frames are parsed by `serde_json` behind a trusted
//! boundary that hands back only the envelope-relevant shape of the
//! document; everything the envelope rules say about that shape — which
//! frames carry a recognized chat event, which are skipped, which are hard
//! errors — is verified here.

use vstd::prelude::*;

use crate::messages::{ClientMessage, Message, MessageView};

verus! {

broadcast use vstd::std_specs::vec::group_vec_axioms;

// ---------------------------------------------------------------------------
// The envelope-relevant shape of a JSON document
// ---------------------------------------------------------------------------

/// Shape of a decoded JSON value, as far as the envelope rules read it:
/// strings and objects are kept (an object as its key/value pairs, in
/// document order), and every other kind of value — null, booleans,
/// numbers, arrays — is collapsed to `Other`, since the envelope never
/// looks inside one.
pub enum JsonShape {
    Text(Seq<u8>),
    Obj(Seq<(Seq<u8>, JsonShape)>),
    Other,
}

/// Executable counterpart of [`JsonShape`], handed back by the frame parser.
enum JsonValue {
    Text(Vec<u8>),
    Obj(Vec<(Vec<u8>, JsonValue)>),
    Other,
}

spec fn json_shape(v: JsonValue) -> JsonShape
    decreases v,
{
    match v {
        JsonValue::Text(t) => JsonShape::Text(t@),
        JsonValue::Obj(fields) => JsonShape::Obj(
            Seq::new(
                fields@.len(),
                |i: int|
                    if 0 <= i < fields@.len() {
                        (fields@[i].0@, json_shape(fields@[i].1))
                    } else {
                        (Seq::empty(), JsonShape::Other)
                    },
            ),
        ),
        JsonValue::Other => JsonShape::Other,
    }
}

spec fn shape_opt(r: Option<JsonValue>) -> Option<JsonShape> {
    match r {
        Some(v) => Some(json_shape(v)),
        None => None,
    }
}

// ---------------------------------------------------------------------------
// Trusted frame parsing
// ---------------------------------------------------------------------------

/// The envelope-relevant shape of the JSON document that `frame` holds:
/// `None` when `frame` is not valid JSON, and otherwise the parsed
/// document's shape.
pub uninterp spec fn parsed_frame(frame: Seq<u8>) -> Option<JsonShape>;

#[verifier::external_type_specification]
#[verifier::external_body]
pub struct ExValue(serde_json::Value);

/// Maps a `serde_json` tree across to the library's shape type, one variant
/// for one: strings and objects are kept, every other variant becomes
/// `JsonValue::Other`.  Relies on `serde_json::Value` only for its variants.
#[verifier::external_body]
fn shape_of_value(v: serde_json::Value) -> JsonValue {
    match v {
        serde_json::Value::String(s) => JsonValue::Text(s.into_bytes()),
        serde_json::Value::Object(m) => JsonValue::Obj(
            m.into_iter().map(|(k, x)| (k.into_bytes(), shape_of_value(x))).collect(),
        ),
        _ => JsonValue::Other,
    }
}

/// Relies on `serde_json::from_slice::<serde_json::Value>`: it returns `Ok`
/// exactly when `frame` is a valid JSON document, and the returned tree is
/// that document, which `shape_of_value` carries across.
#[verifier::external_body]
fn parse_frame(frame: &[u8]) -> (r: Option<JsonValue>)
    ensures
        shape_opt(r) == parsed_frame(frame@),
{
    match serde_json::from_slice::<serde_json::Value>(frame) {
        Ok(v) => Some(shape_of_value(v)),
        Err(_) => None,
    }
}

// ---------------------------------------------------------------------------
// Envelope constants
// ---------------------------------------------------------------------------

/// "type"
pub open spec fn type_key() -> Seq<u8> {
    seq![116u8, 121, 112, 101]
}

/// "payload"
pub open spec fn payload_key() -> Seq<u8> {
    seq![112u8, 97, 121, 108, 111, 97, 100]
}

/// "message": both the recognized inbound tag and the payload field that
/// carries the chat text.
pub open spec fn message_lit() -> Seq<u8> {
    seq![109u8, 101, 115, 115, 97, 103, 101]
}

/// "username"
pub open spec fn username_key() -> Seq<u8> {
    seq![117u8, 115, 101, 114, 110, 97, 109, 101]
}

/// "timestamp"
pub open spec fn timestamp_key() -> Seq<u8> {
    seq![116u8, 105, 109, 101, 115, 116, 97, 109, 112]
}

fn type_key_bytes() -> (r: Vec<u8>)
    ensures
        r@ == type_key(),
{
    let r: Vec<u8> = vec![116u8, 121, 112, 101];
    proof {
        assert(r@ =~= type_key());
    }
    r
}

fn payload_key_bytes() -> (r: Vec<u8>)
    ensures
        r@ == payload_key(),
{
    let r: Vec<u8> = vec![112u8, 97, 121, 108, 111, 97, 100];
    proof {
        assert(r@ =~= payload_key());
    }
    r
}

fn message_lit_bytes() -> (r: Vec<u8>)
    ensures
        r@ == message_lit(),
{
    let r: Vec<u8> = vec![109u8, 101, 115, 115, 97, 103, 101];
    proof {
        assert(r@ =~= message_lit());
    }
    r
}

fn username_key_bytes() -> (r: Vec<u8>)
    ensures
        r@ == username_key(),
{
    let r: Vec<u8> = vec![117u8, 115, 101, 114, 110, 97, 109, 101];
    proof {
        assert(r@ =~= username_key());
    }
    r
}

fn timestamp_key_bytes() -> (r: Vec<u8>)
    ensures
        r@ == timestamp_key(),
{
    let r: Vec<u8> = vec![116u8, 105, 109, 101, 115, 116, 97, 109, 112];
    proof {
        assert(r@ =~= timestamp_key());
    }
    r
}

// ---------------------------------------------------------------------------
// Classification of an inbound frame
// ---------------------------------------------------------------------------

/// The verdict on one inbound text frame.
pub enum FrameVerdict {
    /// A recognized chat event; the wait for a message ends here.
    Recognized(Message),
    /// A well-formed envelope with some other tag: skipped, the wait goes on.
    Unrecognized,
    /// Not a well-formed envelope: a hard receive failure.
    Malformed,
}

/// Mathematical value of a [`FrameVerdict`].
pub enum FrameVerdictView {
    Recognized(MessageView),
    Unrecognized,
    Malformed,
}

impl View for FrameVerdict {
    type V = FrameVerdictView;

    open spec fn view(&self) -> FrameVerdictView {
        match self {
            FrameVerdict::Recognized(m) => FrameVerdictView::Recognized(m@),
            FrameVerdict::Unrecognized => FrameVerdictView::Unrecognized,
            FrameVerdict::Malformed => FrameVerdictView::Malformed,
        }
    }
}

/// The value bound to `key` in an object's field list: the first binding in
/// document order, `None` when the key is absent.
pub open spec fn lookup(fields: Seq<(Seq<u8>, JsonShape)>, key: Seq<u8>) -> Option<JsonShape>
    decreases fields.len(),
{
    if fields.len() == 0 {
        None
    } else if fields[0].0 == key {
        Some(fields[0].1)
    } else {
        lookup(fields.drop_first(), key)
    }
}

/// The envelope rules, applied to a parse outcome.
///
/// A frame that is not valid JSON is malformed.  A valid document is a
/// well-formed envelope when it is an object carrying a string under
/// `"type"` and some value under `"payload"`.  An envelope tagged
/// `"message"` must carry an object payload with string fields
/// `"username"`, `"message"` and `"timestamp"` — that is the recognized
/// chat event; a tag violating that payload shape is malformed.  A
/// well-formed envelope with any other tag is unrecognized and gets
/// skipped.  Everything else is malformed.
pub open spec fn spec_classify(p: Option<JsonShape>) -> FrameVerdictView {
    match p {
        None => FrameVerdictView::Malformed,
        Some(doc) => match doc {
            JsonShape::Obj(fields) => match lookup(fields, type_key()) {
                Some(JsonShape::Text(tag)) => if tag == message_lit() {
                    match lookup(fields, payload_key()) {
                        Some(JsonShape::Obj(pf)) => {
                            match (
                                lookup(pf, username_key()),
                                lookup(pf, message_lit()),
                                lookup(pf, timestamp_key()),
                            ) {
                                (
                                    Some(JsonShape::Text(u)),
                                    Some(JsonShape::Text(m)),
                                    Some(JsonShape::Text(ts)),
                                ) => FrameVerdictView::Recognized(
                                    MessageView { username: u, message: m, timestamp: ts },
                                ),
                                _ => FrameVerdictView::Malformed,
                            }
                        },
                        _ => FrameVerdictView::Malformed,
                    }
                } else {
                    if lookup(fields, payload_key()) is Some {
                        FrameVerdictView::Unrecognized
                    } else {
                        FrameVerdictView::Malformed
                    }
                },
                _ => FrameVerdictView::Malformed,
            },
            _ => FrameVerdictView::Malformed,
        },
    }
}

fn copy_bytes(src: &Vec<u8>) -> (r: Vec<u8>)
    ensures
        r@ == src@,
{
    let mut out: Vec<u8> = Vec::new();
    let mut i: usize = 0;
    while i < src.len()
        invariant
            i <= src@.len(),
            out@ =~= src@.subrange(0, i as int),
        decreases src@.len() - i,
    {
        out.push(src[i]);
        i = i + 1;
    }
    proof {
        assert(out@ =~= src@);
    }
    out
}

fn bytes_eq(a: &[u8], b: &[u8]) -> (r: bool)
    ensures
        r == (a@ == b@),
{
    if a.len() != b.len() {
        return false;
    }
    let mut i: usize = 0;
    while i < a.len()
        invariant
            i <= a@.len(),
            a@.len() == b@.len(),
            forall|j: int| 0 <= j < i ==> a@[j] == b@[j],
        decreases a@.len() - i,
    {
        if a[i] != b[i] {
            return false;
        }
        i = i + 1;
    }
    proof {
        assert(a@ =~= b@);
    }
    true
}

spec fn fields_shape(fields: Seq<(Vec<u8>, JsonValue)>) -> Seq<(Seq<u8>, JsonShape)> {
    Seq::new(
        fields.len(),
        |i: int|
            if 0 <= i < fields.len() {
                (fields[i].0@, json_shape(fields[i].1))
            } else {
                (Seq::empty(), JsonShape::Other)
            },
    )
}

proof fn lemma_obj_shape(fields: Vec<(Vec<u8>, JsonValue)>)
    ensures
        json_shape(JsonValue::Obj(fields)) == JsonShape::Obj(fields_shape(fields@)),
{
    assert(json_shape(JsonValue::Obj(fields)) matches JsonShape::Obj(s) && s =~= fields_shape(
        fields@,
    ));
}

/// First binding of `key` among `fields[i..]`, mirroring [`lookup`].
fn find_field<'a>(fields: &'a Vec<(Vec<u8>, JsonValue)>, key: &[u8], i: usize) -> (r: Option<
    &'a JsonValue,
>)
    requires
        i <= fields@.len(),
    ensures
        (match r {
            Some(v) => Some(json_shape(*v)),
            None => None,
        }) == lookup(fields_shape(fields@).skip(i as int), key@),
    decreases fields@.len() - i,
{
    let ghost tail = fields_shape(fields@).skip(i as int);
    if i == fields.len() {
        proof {
            assert(tail.len() == 0);
        }
        None
    } else if bytes_eq(fields[i].0.as_slice(), key) {
        proof {
            assert(tail[0] == fields_shape(fields@)[i as int]);
        }
        Some(&fields[i].1)
    } else {
        let r = find_field(fields, key, i + 1);
        proof {
            assert(tail[0] == fields_shape(fields@)[i as int]);
            assert(tail.drop_first() =~= fields_shape(fields@).skip(i + 1 as int));
        }
        r
    }
}

fn classify_value(v: &JsonValue) -> (r: FrameVerdict)
    ensures
        r@ == spec_classify(Some(json_shape(*v))),
{
    match v {
        JsonValue::Obj(fields) => {
            proof {
                lemma_obj_shape(*fields);
                assert(fields_shape(fields@).skip(0) =~= fields_shape(fields@));
            }
            let tk = type_key_bytes();
            match find_field(fields, tk.as_slice(), 0) {
                Some(JsonValue::Text(tag)) => {
                    let ml = message_lit_bytes();
                    if bytes_eq(tag.as_slice(), ml.as_slice()) {
                        let pk = payload_key_bytes();
                        match find_field(fields, pk.as_slice(), 0) {
                            Some(JsonValue::Obj(pf)) => {
                                proof {
                                    lemma_obj_shape(*pf);
                                    assert(fields_shape(pf@).skip(0) =~= fields_shape(pf@));
                                }
                                let uk = username_key_bytes();
                                let tsk = timestamp_key_bytes();
                                let fu = find_field(pf, uk.as_slice(), 0);
                                let fm = find_field(pf, ml.as_slice(), 0);
                                let ft = find_field(pf, tsk.as_slice(), 0);
                                match (fu, fm, ft) {
                                    (
                                        Some(JsonValue::Text(u)),
                                        Some(JsonValue::Text(m)),
                                        Some(JsonValue::Text(ts)),
                                    ) => FrameVerdict::Recognized(
                                        Message {
                                            username: copy_bytes(u),
                                            message: copy_bytes(m),
                                            timestamp: copy_bytes(ts),
                                        },
                                    ),
                                    _ => FrameVerdict::Malformed,
                                }
                            },
                            _ => FrameVerdict::Malformed,
                        }
                    } else {
                        let pk = payload_key_bytes();
                        match find_field(fields, pk.as_slice(), 0) {
                            Some(_) => FrameVerdict::Unrecognized,
                            None => FrameVerdict::Malformed,
                        }
                    }
                },
                _ => FrameVerdict::Malformed,
            }
        },
        _ => FrameVerdict::Malformed,
    }
}

/// Applies the envelope rules to one inbound text frame.
pub fn decode_frame(frame: &[u8]) -> (r: FrameVerdict)
    ensures
        r@ == spec_classify(parsed_frame(frame@)),
{
    match parse_frame(frame) {
        Some(v) => classify_value(&v),
        None => FrameVerdict::Malformed,
    }
}

// ---------------------------------------------------------------------------
// Outbound frame encoding
// ---------------------------------------------------------------------------

/// The hexadecimal digit for `n`, lower case.
pub open spec fn hex_digit(n: u8) -> u8
    recommends
        n < 16,
{
    if n < 10 {
        (48 + n) as u8
    } else {
        (87 + n) as u8
    }
}

/// How one byte of payload text appears inside a JSON string literal:
/// quote and backslash get a backslash escape, the control characters get
/// their short escapes or a `\u00XX` escape, everything else stands as is.
pub open spec fn escape_byte(b: u8) -> Seq<u8> {
    if b == 34 {  // '"'
        seq![92u8, 34]
    } else if b == 92 {  // '\\'
        seq![92u8, 92]
    } else if b == 8 {
        seq![92u8, 98]  // \b
    } else if b == 12 {
        seq![92u8, 102]  // \f
    } else if b == 10 {
        seq![92u8, 110]  // \n
    } else if b == 13 {
        seq![92u8, 114]  // \r
    } else if b == 9 {
        seq![92u8, 116]  // \t
    } else if b < 32 {
        seq![92u8, 117, 48, 48, hex_digit(b / 16), hex_digit(b % 16)]  // \u00XX
    } else {
        seq![b]
    }
}

/// A byte sequence as it appears inside a JSON string literal.
pub open spec fn escape_bytes(s: Seq<u8>) -> Seq<u8>
    decreases s.len(),
{
    if s.len() == 0 {
        Seq::empty()
    } else {
        escape_byte(s[0]) + escape_bytes(s.drop_first())
    }
}

proof fn lemma_escape_snoc(s: Seq<u8>, i: int)
    requires
        0 <= i < s.len(),
    ensures
        escape_bytes(s.take(i + 1)) == escape_bytes(s.take(i)) + escape_byte(s[i]),
    decreases i,
{
    if i == 0 {
        assert(s.take(1) =~= seq![s[0]]);
        assert(s.take(1).drop_first() =~= Seq::<u8>::empty());
        assert(s.take(0) =~= Seq::<u8>::empty());
        assert(escape_bytes(s.take(i + 1)) =~= escape_bytes(s.take(i)) + escape_byte(s[i]));
    } else {
        let t = s.drop_first();
        lemma_escape_snoc(t, i - 1);
        assert(s.take(i + 1).drop_first() =~= t.take(i));
        assert(s.take(i).drop_first() =~= t.take(i - 1));
        assert(escape_bytes(s.take(i + 1)) == escape_byte(s[0]) + escape_bytes(t.take(i)));
        assert(escape_bytes(s.take(i)) == escape_byte(s[0]) + escape_bytes(t.take(i - 1)));
        assert(escape_byte(s[0]) + (escape_bytes(t.take(i - 1)) + escape_byte(t[i - 1])) =~= (
        escape_byte(s[0]) + escape_bytes(t.take(i - 1))) + escape_byte(t[i - 1]));
    }
}

fn hex_digit_byte(n: u8) -> (r: u8)
    requires
        n < 16,
    ensures
        r == hex_digit(n),
{
    if n < 10 {
        48 + n
    } else {
        87 + n
    }
}

fn push_escaped(out: &mut Vec<u8>, s: &[u8])
    ensures
        final(out)@ == old(out)@ + escape_bytes(s@),
{
    let mut i: usize = 0;
    while i < s.len()
        invariant
            i <= s@.len(),
            out@ == old(out)@ + escape_bytes(s@.take(i as int)),
        decreases s@.len() - i,
    {
        let ghost pre = out@;
        let b = s[i];
        if b == 34 || b == 92 {
            out.push(92);
            out.push(b);
        } else if b == 8 {
            out.push(92);
            out.push(98);
        } else if b == 12 {
            out.push(92);
            out.push(102);
        } else if b == 10 {
            out.push(92);
            out.push(110);
        } else if b == 13 {
            out.push(92);
            out.push(114);
        } else if b == 9 {
            out.push(92);
            out.push(116);
        } else if b < 32 {
            out.push(92);
            out.push(117);
            out.push(48);
            out.push(48);
            out.push(hex_digit_byte(b / 16));
            out.push(hex_digit_byte(b % 16));
        } else {
            out.push(b);
        }
        proof {
            assert(out@ =~= pre + escape_byte(b));
            lemma_escape_snoc(s@, i as int);
            assert(out@ =~= old(out)@ + escape_bytes(s@.take(i + 1)));
        }
        i = i + 1;
    }
    proof {
        assert(s@.take(s@.len() as int) =~= s@);
    }
}

/// `{"type":"sendMessage","payload":"`
pub open spec fn send_prefix() -> Seq<u8> {
    seq![
        123u8,
        34,
        116,
        121,
        112,
        101,
        34,
        58,
        34,
        115,
        101,
        110,
        100,
        77,
        101,
        115,
        115,
        97,
        103,
        101,
        34,
        44,
        34,
        112,
        97,
        121,
        108,
        111,
        97,
        100,
        34,
        58,
        34,
    ]
}

/// The one outbound frame: the send-message envelope around the escaped
/// payload text.
pub open spec fn encode_send(text: Seq<u8>) -> Seq<u8> {
    send_prefix() + escape_bytes(text) + seq![34u8, 125]
}

/// The frame an outbound message is written as.
pub open spec fn spec_encode_client(m: ClientMessage) -> Seq<u8> {
    match m {
        ClientMessage::SendMessage(text) => encode_send(text@),
    }
}

/// Serializes an outbound message as one JSON text frame.
pub fn encode_client_message(m: &ClientMessage) -> (r: Vec<u8>)
    ensures
        r@ == spec_encode_client(*m),
{
    match m {
        ClientMessage::SendMessage(text) => {
            let mut out: Vec<u8> = vec![
                123u8, 34, 116, 121, 112, 101, 34, 58, 34, 115, 101, 110, 100, 77, 101, 115, 115,
                97, 103, 101, 34, 44, 34, 112, 97, 121, 108, 111, 97, 100, 34, 58, 34,
            ];
            proof {
                assert(out@ =~= send_prefix());
            }
            push_escaped(&mut out, text.as_slice());
            out.push(34);
            out.push(125);
            proof {
                assert(out@ =~= encode_send(text@));
            }
            out
        },
    }
}

// ---------------------------------------------------------------------------
// Round trip at the envelope level
// ---------------------------------------------------------------------------

/// The shape of the frame the service sends when it echoes a broadcast:
/// a recognized chat event whose `"message"` field carries the text.
pub open spec fn echo_frame_shape(username: Seq<u8>, text: Seq<u8>, timestamp: Seq<u8>) -> JsonShape {
    JsonShape::Obj(
        seq![
            (type_key(), JsonShape::Text(message_lit())),
            (
                payload_key(),
                JsonShape::Obj(
                    seq![
                        (username_key(), JsonShape::Text(username)),
                        (message_lit(), JsonShape::Text(text)),
                        (timestamp_key(), JsonShape::Text(timestamp)),
                    ],
                ),
            ),
        ],
    )
}

/// Round trip: the text sent in an outbound message, echoed back by the
/// service inside the inbound envelope shape, classifies to a recognized
/// chat event carrying exactly the original text.
pub proof fn lemma_echo_round_trip(username: Seq<u8>, text: Seq<u8>, timestamp: Seq<u8>)
    ensures
        spec_classify(Some(echo_frame_shape(username, text, timestamp)))
            == FrameVerdictView::Recognized(MessageView { username, message: text, timestamp }),
{
    let fields = seq![
        (type_key(), JsonShape::Text(message_lit())),
        (
            payload_key(),
            JsonShape::Obj(
                seq![
                    (username_key(), JsonShape::Text(username)),
                    (message_lit(), JsonShape::Text(text)),
                    (timestamp_key(), JsonShape::Text(timestamp)),
                ],
            ),
        ),
    ];
    let pf = seq![
        (username_key(), JsonShape::Text(username)),
        (message_lit(), JsonShape::Text(text)),
        (timestamp_key(), JsonShape::Text(timestamp)),
    ];
    reveal_with_fuel(lookup, 4);
    assert(lookup(fields, type_key()) == Some(JsonShape::Text(message_lit())));
    assert(fields[0].0 != payload_key());
    assert(fields.drop_first()[0] == fields[1]);
    assert(lookup(fields, payload_key()) == lookup(fields.drop_first(), payload_key()));
    assert(lookup(fields.drop_first(), payload_key()) == Some(fields.drop_first()[0].1));
    assert(lookup(fields, payload_key()) == Some(JsonShape::Obj(pf)));
    assert(lookup(pf, username_key()) == Some(JsonShape::Text(username)));
    assert(pf[0].0 != message_lit());
    assert(pf.drop_first()[0] == pf[1]);
    assert(lookup(pf, message_lit()) == lookup(pf.drop_first(), message_lit()));
    assert(lookup(pf.drop_first(), message_lit()) == Some(pf.drop_first()[0].1));
    assert(lookup(pf, message_lit()) == Some(JsonShape::Text(text)));
    assert(pf[1].0 != timestamp_key());
    assert(pf.drop_first()[0].0 != timestamp_key());
    assert(pf.drop_first().drop_first()[0] == pf[2]);
    assert(lookup(pf, timestamp_key()) == Some(JsonShape::Text(timestamp)));
}

/// The two failure modes of an inbound frame are kept apart: a frame that
/// is not valid JSON is a hard receive failure, while a well-formed
/// envelope with an unrecognized tag is skipped, never failed.
pub proof fn lemma_malformed_vs_unrecognized(tag: Seq<u8>, fields: Seq<(Seq<u8>, JsonShape)>)
    requires
        lookup(fields, type_key()) == Some(JsonShape::Text(tag)),
        tag != message_lit(),
        lookup(fields, payload_key()) is Some,
    ensures
        spec_classify(None) == FrameVerdictView::Malformed,
        spec_classify(Some(JsonShape::Obj(fields))) == FrameVerdictView::Unrecognized,
{
}

} // verus!
