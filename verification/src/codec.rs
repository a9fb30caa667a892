//! The wire codec.
//!
//! Messages cross the GUI boundary as JSON-shaped objects carrying a `tag`
//! field that names the variant:
//!
//! ```text
//! GuiMessage    = { tag: "Init" }
//!               | { tag: "ParamChange", id: string, value: number }
//!               | { tag: "Message", payload: <application-defined> }
//! PluginMessage = { tag: "ParamChange", id: string, value: number }
//!               | { tag: "Message", payload: <application-defined> }
//! ```
//!
//! Encoding a built-in message never fails.  Decoding fails exactly when the
//! tag or the shape matches no known variant; extra fields are ignored, and
//! a repeated field is read at its first occurrence.

use vstd::prelude::*;
use vstd::string::StringExecFns;
use crate::message::GuiMessage;
use crate::message::GuiMessageModel;
use crate::message::ParamChange;
use crate::message::ParamChangeModel;
use crate::message::PluginMessage;
use crate::message::PluginMessageModel;
use crate::strutil::str_eq;
use crate::wire::lookup_field;
use crate::wire::ValueModel;
use crate::wire::WireObj;
use crate::wire::WireValue;

verus! {

broadcast use vstd::string::group_string_axioms;

/// The error returned when a structured value matches no known message
/// shape.
#[derive(Clone, Copy, Debug, PartialEq, Eq, Structural)]
pub struct DecodeError;

/// The canonical encoding of a GUI-to-plugin message.
pub open spec fn spec_encode_gui(m: GuiMessageModel) -> ValueModel {
    match m {
        GuiMessageModel::Init => ValueModel::Obj(
            seq![("tag"@, ValueModel::Str("Init"@))],
        ),
        GuiMessageModel::ParamChange(pc) => ValueModel::Obj(
            seq![
                ("tag"@, ValueModel::Str("ParamChange"@)),
                ("id"@, ValueModel::Str(pc.id)),
                ("value"@, ValueModel::Num(pc.value)),
            ],
        ),
        GuiMessageModel::Message(p) => ValueModel::Obj(
            seq![("tag"@, ValueModel::Str("Message"@)), ("payload"@, p)],
        ),
    }
}

/// The canonical encoding of a plugin-to-GUI message.
pub open spec fn spec_encode_plugin(m: PluginMessageModel) -> ValueModel {
    match m {
        PluginMessageModel::ParamChange(pc) => ValueModel::Obj(
            seq![
                ("tag"@, ValueModel::Str("ParamChange"@)),
                ("id"@, ValueModel::Str(pc.id)),
                ("value"@, ValueModel::Num(pc.value)),
            ],
        ),
        PluginMessageModel::Message(p) => ValueModel::Obj(
            seq![("tag"@, ValueModel::Str("Message"@)), ("payload"@, p)],
        ),
    }
}

/// The parameter change read from an object's `id` and `value` fields, if
/// both are present with the right shapes.
pub open spec fn spec_decode_param_change(fields: Seq<(Seq<char>, ValueModel)>) -> Option<
    ParamChangeModel,
> {
    match (lookup_field(fields, "id"@), lookup_field(fields, "value"@)) {
        (Some(ValueModel::Str(id)), Some(ValueModel::Num(n))) => Some(
            ParamChangeModel { id: id, value: n },
        ),
        _ => None,
    }
}

/// The GUI-to-plugin message a structured value decodes to, if any.
pub open spec fn spec_decode_gui(v: ValueModel) -> Option<GuiMessageModel> {
    match v {
        ValueModel::Obj(fields) => match lookup_field(fields, "tag"@) {
            Some(ValueModel::Str(t)) => if t == "Init"@ {
                Some(GuiMessageModel::Init)
            } else if t == "ParamChange"@ {
                match spec_decode_param_change(fields) {
                    Some(pc) => Some(GuiMessageModel::ParamChange(pc)),
                    None => None,
                }
            } else if t == "Message"@ {
                match lookup_field(fields, "payload"@) {
                    Some(p) => Some(GuiMessageModel::Message(p)),
                    None => None,
                }
            } else {
                None
            },
            _ => None,
        },
        _ => None,
    }
}

/// The plugin-to-GUI message a structured value decodes to, if any.
pub open spec fn spec_decode_plugin(v: ValueModel) -> Option<PluginMessageModel> {
    match v {
        ValueModel::Obj(fields) => match lookup_field(fields, "tag"@) {
            Some(ValueModel::Str(t)) => if t == "ParamChange"@ {
                match spec_decode_param_change(fields) {
                    Some(pc) => Some(PluginMessageModel::ParamChange(pc)),
                    None => None,
                }
            } else if t == "Message"@ {
                match lookup_field(fields, "payload"@) {
                    Some(p) => Some(PluginMessageModel::Message(p)),
                    None => None,
                }
            } else {
                None
            },
            _ => None,
        },
        _ => None,
    }
}

/// A one-field object.
fn obj1(k1: &str, v1: WireValue) -> (r: WireValue)
    ensures
        r@ == ValueModel::Obj(seq![(k1@, v1@)]),
{
    let ghost m1 = v1@;
    let fields = WireObj::empty().prepend(String::from_str(k1), v1);
    let r = WireValue::object(fields);
    proof {
        assert(r@ =~~= ValueModel::Obj(seq![(k1@, m1)]));
    }
    r
}

/// A two-field object.
fn obj2(k1: &str, v1: WireValue, k2: &str, v2: WireValue) -> (r: WireValue)
    ensures
        r@ == ValueModel::Obj(seq![(k1@, v1@), (k2@, v2@)]),
{
    let ghost m1 = v1@;
    let ghost m2 = v2@;
    let fields = WireObj::empty().prepend(String::from_str(k2), v2).prepend(
        String::from_str(k1),
        v1,
    );
    let r = WireValue::object(fields);
    proof {
        assert(fields.model_fields() =~= seq![(k1@, m1), (k2@, m2)]);
        assert(r@ =~~= ValueModel::Obj(seq![(k1@, m1), (k2@, m2)]));
    }
    r
}

/// A three-field object.
fn obj3(k1: &str, v1: WireValue, k2: &str, v2: WireValue, k3: &str, v3: WireValue) -> (r:
    WireValue)
    ensures
        r@ == ValueModel::Obj(seq![(k1@, v1@), (k2@, v2@), (k3@, v3@)]),
{
    let ghost m1 = v1@;
    let ghost m2 = v2@;
    let ghost m3 = v3@;
    let fields = WireObj::empty().prepend(String::from_str(k3), v3).prepend(
        String::from_str(k2),
        v2,
    ).prepend(String::from_str(k1), v1);
    let r = WireValue::object(fields);
    proof {
        assert(fields.model_fields() =~= seq![(k1@, m1), (k2@, m2), (k3@, m3)]);
        assert(r@ =~~= ValueModel::Obj(seq![(k1@, m1), (k2@, m2), (k3@, m3)]));
    }
    r
}

/// Encodes a GUI-to-plugin message.  Encoding never fails: the payload of a
/// `Message` is already a structured value.
pub fn encode_gui(m: GuiMessage) -> (r: WireValue)
    ensures
        r@ == spec_encode_gui(m@),
{
    match m {
        GuiMessage::Init => obj1("tag", WireValue::Str(String::from_str("Init"))),
        GuiMessage::ParamChange(pc) => obj3(
            "tag",
            WireValue::Str(String::from_str("ParamChange")),
            "id",
            WireValue::Str(pc.id),
            "value",
            WireValue::Num(pc.value),
        ),
        GuiMessage::Message(p) => obj2(
            "tag",
            WireValue::Str(String::from_str("Message")),
            "payload",
            p,
        ),
    }
}

/// Encodes a plugin-to-GUI message.  Encoding never fails: the payload of a
/// `Message` is already a structured value.
pub fn encode_plugin(m: PluginMessage) -> (r: WireValue)
    ensures
        r@ == spec_encode_plugin(m@),
{
    match m {
        PluginMessage::ParamChange(pc) => obj3(
            "tag",
            WireValue::Str(String::from_str("ParamChange")),
            "id",
            WireValue::Str(pc.id),
            "value",
            WireValue::Num(pc.value),
        ),
        PluginMessage::Message(p) => obj2(
            "tag",
            WireValue::Str(String::from_str("Message")),
            "payload",
            p,
        ),
    }
}

/// Reads the parameter change from an object's fields, if present.
fn decode_param_change(o: &WireObj) -> (r: Option<ParamChange>)
    ensures
        match r {
            Option::Some(pc) => spec_decode_param_change(o.model_fields()) == Some(pc@),
            Option::None => spec_decode_param_change(o.model_fields()) is None,
        },
{
    let id_field = o.get("id");
    let value_field = o.get("value");
    match (id_field, value_field) {
        (Some(WireValue::Str(id)), Some(WireValue::Num(n))) => Some(
            ParamChange { id: id.clone(), value: *n },
        ),
        _ => None,
    }
}

/// Decodes a GUI-to-plugin message from a structured value.
pub fn decode_gui(v: &WireValue) -> (r: Result<GuiMessage, DecodeError>)
    ensures
        match r {
            Result::Ok(m) => spec_decode_gui(v@) == Some(m@),
            Result::Err(_) => spec_decode_gui(v@) is None,
        },
{
    match v {
        WireValue::Obj(o) => match o.get("tag") {
            Some(WireValue::Str(t)) => {
                if str_eq(t.as_str(), "Init") {
                    Ok(GuiMessage::Init)
                } else if str_eq(t.as_str(), "ParamChange") {
                    match decode_param_change(o) {
                        Some(pc) => Ok(GuiMessage::ParamChange(pc)),
                        None => Err(DecodeError),
                    }
                } else if str_eq(t.as_str(), "Message") {
                    match o.get("payload") {
                        Some(p) => Ok(GuiMessage::Message(p.duplicate())),
                        None => Err(DecodeError),
                    }
                } else {
                    Err(DecodeError)
                }
            },
            _ => Err(DecodeError),
        },
        _ => Err(DecodeError),
    }
}

/// Decodes a plugin-to-GUI message from a structured value.
pub fn decode_plugin(v: &WireValue) -> (r: Result<PluginMessage, DecodeError>)
    ensures
        match r {
            Result::Ok(m) => spec_decode_plugin(v@) == Some(m@),
            Result::Err(_) => spec_decode_plugin(v@) is None,
        },
{
    match v {
        WireValue::Obj(o) => match o.get("tag") {
            Some(WireValue::Str(t)) => {
                if str_eq(t.as_str(), "ParamChange") {
                    match decode_param_change(o) {
                        Some(pc) => Ok(PluginMessage::ParamChange(pc)),
                        None => Err(DecodeError),
                    }
                } else if str_eq(t.as_str(), "Message") {
                    match o.get("payload") {
                        Some(p) => Ok(PluginMessage::Message(p.duplicate())),
                        None => Err(DecodeError),
                    }
                } else {
                    Err(DecodeError)
                }
            },
            _ => Err(DecodeError),
        },
        _ => Err(DecodeError),
    }
}

/// The keys and tags of the wire format are pairwise distinct words.
proof fn lemma_distinct_words()
    ensures
        "tag"@ != "id"@,
        "tag"@ != "value"@,
        "tag"@ != "payload"@,
        "id"@ != "value"@,
        "Init"@ != "ParamChange"@,
        "Init"@ != "Message"@,
        "ParamChange"@ != "Message"@,
{
    reveal_strlit("tag");
    reveal_strlit("id");
    reveal_strlit("value");
    reveal_strlit("payload");
    reveal_strlit("Init");
    reveal_strlit("ParamChange");
    reveal_strlit("Message");
    assert("tag"@.len() == 3);
    assert("id"@.len() == 2);
    assert("value"@.len() == 5);
    assert("payload"@.len() == 7);
    assert("Init"@.len() == 4);
    assert("ParamChange"@.len() == 11);
    assert("Message"@.len() == 7);
}

/// Law: encoding any GUI-to-plugin message and decoding the result yields
/// the original message.  In particular a `ParamChange` with any identifier
/// and any normalized value survives the round trip unchanged.
pub proof fn lemma_round_trip_gui(m: GuiMessageModel)
    ensures
        spec_decode_gui(spec_encode_gui(m)) == Some(m),
{
    lemma_distinct_words();
    match m {
        GuiMessageModel::Init => {
        },
        GuiMessageModel::ParamChange(pc) => {
            let fields = seq![
                ("tag"@, ValueModel::Str("ParamChange"@)),
                ("id"@, ValueModel::Str(pc.id)),
                ("value"@, ValueModel::Num(pc.value)),
            ];
            let f1 = fields.drop_first();
            let f2 = f1.drop_first();
            assert(f1 =~= seq![
                ("id"@, ValueModel::Str(pc.id)),
                ("value"@, ValueModel::Num(pc.value)),
            ]);
            assert(f2 =~= seq![("value"@, ValueModel::Num(pc.value))]);
            assert(lookup_field(fields, "id"@) == lookup_field(f1, "id"@));
            assert(lookup_field(f1, "id"@) == Some(ValueModel::Str(pc.id)));
            assert(lookup_field(fields, "value"@) == lookup_field(f1, "value"@));
            assert(lookup_field(f1, "value"@) == lookup_field(f2, "value"@));
            assert(lookup_field(f2, "value"@) == Some(ValueModel::Num(pc.value)));
        },
        GuiMessageModel::Message(p) => {
            let fields = seq![("tag"@, ValueModel::Str("Message"@)), ("payload"@, p)];
            let f1 = fields.drop_first();
            assert(f1 =~= seq![("payload"@, p)]);
            assert(lookup_field(fields, "payload"@) == lookup_field(f1, "payload"@));
            assert(lookup_field(f1, "payload"@) == Some(p));
        },
    }
}

/// Law: encoding any plugin-to-GUI message and decoding the result yields
/// the original message.  In particular a `ParamChange` with any identifier
/// and any normalized value survives the round trip unchanged.
pub proof fn lemma_round_trip_plugin(m: PluginMessageModel)
    ensures
        spec_decode_plugin(spec_encode_plugin(m)) == Some(m),
{
    lemma_distinct_words();
    match m {
        PluginMessageModel::ParamChange(pc) => {
            let fields = seq![
                ("tag"@, ValueModel::Str("ParamChange"@)),
                ("id"@, ValueModel::Str(pc.id)),
                ("value"@, ValueModel::Num(pc.value)),
            ];
            let f1 = fields.drop_first();
            let f2 = f1.drop_first();
            assert(f1 =~= seq![
                ("id"@, ValueModel::Str(pc.id)),
                ("value"@, ValueModel::Num(pc.value)),
            ]);
            assert(f2 =~= seq![("value"@, ValueModel::Num(pc.value))]);
            assert(lookup_field(fields, "id"@) == lookup_field(f1, "id"@));
            assert(lookup_field(f1, "id"@) == Some(ValueModel::Str(pc.id)));
            assert(lookup_field(fields, "value"@) == lookup_field(f1, "value"@));
            assert(lookup_field(f1, "value"@) == lookup_field(f2, "value"@));
            assert(lookup_field(f2, "value"@) == Some(ValueModel::Num(pc.value)));
        },
        PluginMessageModel::Message(p) => {
            let fields = seq![("tag"@, ValueModel::Str("Message"@)), ("payload"@, p)];
            let f1 = fields.drop_first();
            assert(f1 =~= seq![("payload"@, p)]);
            assert(lookup_field(fields, "payload"@) == lookup_field(f1, "payload"@));
            assert(lookup_field(f1, "payload"@) == Some(p));
        },
    }
}

} // verus!
