use react_plug::codec::{decode_gui, decode_plugin, encode_gui, encode_plugin};
use react_plug::message::{GuiMessage, ParamChange, PluginMessage};
use react_plug::wire::{Number, WireList, WireObj, WireValue, UNIT_NANOS};

fn obj(fields: Vec<(&str, WireValue)>) -> WireValue {
    let mut o = WireObj::empty();
    for (k, v) in fields.into_iter().rev() {
        o = o.prepend(k.to_string(), v);
    }
    WireValue::object(o)
}

fn num(nanos: i64) -> WireValue {
    WireValue::Num(Number { nanos })
}

fn st(s: &str) -> WireValue {
    WireValue::Str(s.to_string())
}

fn gain_change(nanos: i64) -> ParamChange {
    ParamChange { id: "gain".to_string(), value: Number { nanos } }
}

#[test]
fn round_trip_gui_param_change() {
    let encoded = encode_gui(GuiMessage::ParamChange(gain_change(500_000_000)));
    let decoded = decode_gui(&encoded);
    assert_eq!(decoded, Ok(GuiMessage::ParamChange(gain_change(500_000_000))));
}

#[test]
fn round_trip_gui_init() {
    let encoded = encode_gui(GuiMessage::Init);
    assert_eq!(decode_gui(&encoded), Ok(GuiMessage::Init));
}

#[test]
fn round_trip_gui_message_payload() {
    let payload = obj(vec![
        ("kind", st("ping")),
        ("flag", WireValue::Bool(true)),
        ("nothing", WireValue::Null),
        (
            "items",
            WireValue::array(WireList::empty().prepend(num(7)).prepend(st("x"))),
        ),
    ]);
    let expected = payload.duplicate();
    let encoded = encode_gui(GuiMessage::Message(payload));
    assert_eq!(decode_gui(&encoded), Ok(GuiMessage::Message(expected)));
}

#[test]
fn round_trip_plugin_param_change() {
    let encoded = encode_plugin(PluginMessage::ParamChange(gain_change(800_000_000)));
    let decoded = decode_plugin(&encoded);
    assert_eq!(decoded, Ok(PluginMessage::ParamChange(gain_change(800_000_000))));
}

#[test]
fn round_trip_plugin_message_payload() {
    let encoded = encode_plugin(PluginMessage::Message(st("pong")));
    assert_eq!(decode_plugin(&encoded), Ok(PluginMessage::Message(st("pong"))));
}

#[test]
fn encode_gui_init_shape() {
    let encoded = encode_gui(GuiMessage::Init);
    assert_eq!(encoded, obj(vec![("tag", st("Init"))]));
}

#[test]
fn encode_gui_param_change_shape() {
    let encoded = encode_gui(GuiMessage::ParamChange(gain_change(UNIT_NANOS)));
    assert_eq!(
        encoded,
        obj(vec![
            ("tag", st("ParamChange")),
            ("id", st("gain")),
            ("value", num(UNIT_NANOS)),
        ])
    );
}

#[test]
fn decode_rejects_non_object() {
    assert!(decode_gui(&st("Init")).is_err());
    assert!(decode_gui(&num(0)).is_err());
    assert!(decode_gui(&WireValue::Null).is_err());
}

#[test]
fn decode_rejects_missing_tag() {
    let v = obj(vec![("id", st("gain")), ("value", num(0))]);
    assert!(decode_gui(&v).is_err());
}

#[test]
fn decode_rejects_non_string_tag() {
    let v = obj(vec![("tag", num(3))]);
    assert!(decode_gui(&v).is_err());
}

#[test]
fn decode_rejects_unknown_tag() {
    let v = obj(vec![("tag", st("Reset"))]);
    assert!(decode_gui(&v).is_err());
}

#[test]
fn decode_rejects_param_change_without_id() {
    let v = obj(vec![("tag", st("ParamChange")), ("value", num(0))]);
    assert!(decode_gui(&v).is_err());
}

#[test]
fn decode_rejects_param_change_without_value() {
    let v = obj(vec![("tag", st("ParamChange")), ("id", st("gain"))]);
    assert!(decode_gui(&v).is_err());
}

#[test]
fn decode_rejects_param_change_with_wrong_field_shapes() {
    let non_string_id = obj(vec![
        ("tag", st("ParamChange")),
        ("id", num(1)),
        ("value", num(0)),
    ]);
    assert!(decode_gui(&non_string_id).is_err());
    let non_number_value = obj(vec![
        ("tag", st("ParamChange")),
        ("id", st("gain")),
        ("value", st("0.5")),
    ]);
    assert!(decode_gui(&non_number_value).is_err());
}

#[test]
fn decode_rejects_message_without_payload() {
    let v = obj(vec![("tag", st("Message"))]);
    assert!(decode_gui(&v).is_err());
}

#[test]
fn decode_plugin_rejects_init_tag() {
    let v = obj(vec![("tag", st("Init"))]);
    assert!(decode_plugin(&v).is_err());
}

#[test]
fn decode_ignores_extra_fields() {
    let v = obj(vec![
        ("tag", st("ParamChange")),
        ("id", st("gain")),
        ("value", num(250_000_000)),
        ("extra", st("ignored")),
    ]);
    assert_eq!(
        decode_gui(&v),
        Ok(GuiMessage::ParamChange(gain_change(250_000_000)))
    );
}

#[test]
fn decode_reads_first_occurrence_of_repeated_field() {
    let v = obj(vec![
        ("tag", st("ParamChange")),
        ("id", st("first")),
        ("id", st("second")),
        ("value", num(0)),
    ]);
    assert_eq!(
        decode_gui(&v),
        Ok(GuiMessage::ParamChange(ParamChange {
            id: "first".to_string(),
            value: Number { nanos: 0 },
        }))
    );
}
