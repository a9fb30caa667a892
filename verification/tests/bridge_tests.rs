use react_plug::bridge::{Bridge, Warning};
use react_plug::codec::{encode_gui, encode_plugin};
use react_plug::message::{GuiMessage, ParamChange, PluginMessage};
use react_plug::registry::{ParamInfo, ParamOp, RPParamType, Registry};
use react_plug::wire::{Number, WireObj, WireValue, UNIT_NANOS};

fn gain_registry(nanos: i64) -> Registry {
    Registry::new(vec![ParamInfo {
        id: "gain".to_string(),
        value: Number { nanos },
        kind: RPParamType::FloatParam,
    }])
    .unwrap()
}

fn param_change_value(id: &str, nanos: i64) -> WireValue {
    encode_gui(GuiMessage::ParamChange(ParamChange {
        id: id.to_string(),
        value: Number { nanos },
    }))
}

fn triad(id: &str, nanos: i64) -> Vec<ParamOp> {
    vec![
        ParamOp::Begin { id: id.to_string() },
        ParamOp::SetNormalized { id: id.to_string(), value: Number { nanos } },
        ParamOp::End { id: id.to_string() },
    ]
}

#[test]
fn init_hands_off_registry_state() {
    let registry = gain_registry(500_000_000);
    let mut bridge = Bridge::new(8);
    bridge.push_inbound(encode_gui(GuiMessage::Init)).unwrap();
    let report = bridge.drain_inbound(&registry);
    assert!(report.ops.is_empty());
    assert!(report.payloads.is_empty());
    assert!(report.warnings.is_empty());
    let delivered = bridge.drain_outbound();
    assert_eq!(
        delivered,
        vec![encode_plugin(PluginMessage::ParamChange(ParamChange {
            id: "gain".to_string(),
            value: Number { nanos: 500_000_000 },
        }))]
    );
}

#[test]
fn init_enqueues_one_message_per_parameter() {
    let registry = Registry::new(vec![
        ParamInfo {
            id: "gain".to_string(),
            value: Number { nanos: 500_000_000 },
            kind: RPParamType::FloatParam,
        },
        ParamInfo {
            id: "steps".to_string(),
            value: Number { nanos: 0 },
            kind: RPParamType::IntParam,
        },
        ParamInfo {
            id: "muted".to_string(),
            value: Number { nanos: UNIT_NANOS },
            kind: RPParamType::BoolParam,
        },
    ])
    .unwrap();
    let mut bridge = Bridge::new(8);
    bridge.push_inbound(encode_gui(GuiMessage::Init)).unwrap();
    bridge.drain_inbound(&registry);
    let delivered = bridge.drain_outbound();
    assert_eq!(delivered.len(), 3);
    assert_eq!(
        delivered[0],
        encode_plugin(PluginMessage::ParamChange(ParamChange {
            id: "gain".to_string(),
            value: Number { nanos: 500_000_000 },
        }))
    );
    assert_eq!(
        delivered[1],
        encode_plugin(PluginMessage::ParamChange(ParamChange {
            id: "steps".to_string(),
            value: Number { nanos: 0 },
        }))
    );
    assert_eq!(
        delivered[2],
        encode_plugin(PluginMessage::ParamChange(ParamChange {
            id: "muted".to_string(),
            value: Number { nanos: UNIT_NANOS },
        }))
    );
}

#[test]
fn init_with_empty_registry_enqueues_nothing() {
    let registry = Registry::new(Vec::new()).unwrap();
    let mut bridge = Bridge::new(8);
    bridge.push_inbound(encode_gui(GuiMessage::Init)).unwrap();
    let report = bridge.drain_inbound(&registry);
    assert!(report.warnings.is_empty());
    assert!(bridge.drain_outbound().is_empty());
}

#[test]
fn registered_param_change_applies_one_triad() {
    let registry = gain_registry(500_000_000);
    let mut bridge = Bridge::new(8);
    bridge
        .push_inbound(param_change_value("gain", 800_000_000))
        .unwrap();
    let report = bridge.drain_inbound(&registry);
    assert_eq!(report.ops, triad("gain", 800_000_000));
    assert!(report.warnings.is_empty());
    assert!(report.payloads.is_empty());
    assert!(bridge.drain_outbound().is_empty());
}

#[test]
fn unknown_parameter_is_skipped_with_one_warning() {
    let registry = gain_registry(500_000_000);
    let mut bridge = Bridge::new(8);
    bridge
        .push_inbound(param_change_value("volume", 100_000_000))
        .unwrap();
    let report = bridge.drain_inbound(&registry);
    assert!(report.ops.is_empty());
    assert_eq!(
        report.warnings,
        vec![Warning::UnknownParameter { id: "volume".to_string() }]
    );
}

#[test]
fn out_of_range_values_are_clamped_before_applying() {
    let registry = gain_registry(0);
    let mut bridge = Bridge::new(8);
    bridge
        .push_inbound(param_change_value("gain", 2 * UNIT_NANOS))
        .unwrap();
    bridge.push_inbound(param_change_value("gain", -7)).unwrap();
    let report = bridge.drain_inbound(&registry);
    let mut expected = triad("gain", UNIT_NANOS);
    expected.extend(triad("gain", 0));
    assert_eq!(report.ops, expected);
}

#[test]
fn malformed_value_is_skipped_and_drain_continues() {
    let registry = gain_registry(0);
    let mut bridge = Bridge::new(8);
    let malformed = WireValue::object(
        WireObj::empty().prepend("tag".to_string(), WireValue::Str("Nonsense".to_string())),
    );
    bridge.push_inbound(malformed.duplicate()).unwrap();
    bridge
        .push_inbound(param_change_value("gain", 300_000_000))
        .unwrap();
    let report = bridge.drain_inbound(&registry);
    assert_eq!(report.ops, triad("gain", 300_000_000));
    assert_eq!(report.warnings, vec![Warning::MalformedInbound { value: malformed }]);
}

#[test]
fn outbound_messages_are_delivered_in_enqueue_order() {
    let mut bridge = Bridge::new(8);
    bridge.send_message(WireValue::Str("one".to_string()));
    bridge.send_message(WireValue::Str("two".to_string()));
    bridge.param_value_changed("gain".to_string(), Number { nanos: 42 });
    let delivered = bridge.drain_outbound();
    assert_eq!(
        delivered,
        vec![
            encode_plugin(PluginMessage::Message(WireValue::Str("one".to_string()))),
            encode_plugin(PluginMessage::Message(WireValue::Str("two".to_string()))),
            encode_plugin(PluginMessage::ParamChange(ParamChange {
                id: "gain".to_string(),
                value: Number { nanos: 42 },
            })),
        ]
    );
    assert!(bridge.drain_outbound().is_empty());
}

#[test]
fn custom_payloads_come_back_in_arrival_order() {
    let registry = gain_registry(0);
    let mut bridge = Bridge::new(8);
    let make = |text: &str| {
        encode_gui(GuiMessage::Message(WireValue::Str(text.to_string())))
    };
    bridge.push_inbound(make("ping")).unwrap();
    bridge.push_inbound(make("pong")).unwrap();
    let report = bridge.drain_inbound(&registry);
    assert_eq!(
        report.payloads,
        vec![
            WireValue::Str("ping".to_string()),
            WireValue::Str("pong".to_string()),
        ]
    );
    assert!(report.warnings.is_empty());
}

#[test]
fn handler_replies_are_delivered_next_drain() {
    let registry = gain_registry(0);
    let mut bridge = Bridge::new(8);
    bridge
        .push_inbound(encode_gui(GuiMessage::Message(WireValue::Str("ping".to_string()))))
        .unwrap();
    let report = bridge.drain_inbound(&registry);
    for payload in report.payloads {
        assert_eq!(payload, WireValue::Str("ping".to_string()));
        bridge.send_message(WireValue::Str("pong".to_string()));
    }
    let delivered = bridge.drain_outbound();
    assert_eq!(
        delivered,
        vec![encode_plugin(PluginMessage::Message(WireValue::Str("pong".to_string())))]
    );
}

#[test]
fn full_inbound_queue_rejects_new_values() {
    let mut bridge = Bridge::new(2);
    assert!(bridge.push_inbound(WireValue::Null).is_ok());
    assert!(bridge.push_inbound(WireValue::Bool(true)).is_ok());
    let rejected = bridge.push_inbound(WireValue::Str("late".to_string()));
    assert_eq!(rejected, Err(WireValue::Str("late".to_string())));
    let registry = gain_registry(0);
    let report = bridge.drain_inbound(&registry);
    assert_eq!(report.warnings.len(), 2);
}

#[test]
fn gui_scenario_init_then_param_change() {
    let registry = gain_registry(500_000_000);
    let mut bridge = Bridge::new(8);
    bridge.push_inbound(encode_gui(GuiMessage::Init)).unwrap();
    bridge.drain_inbound(&registry);
    assert_eq!(
        bridge.drain_outbound(),
        vec![encode_plugin(PluginMessage::ParamChange(ParamChange {
            id: "gain".to_string(),
            value: Number { nanos: 500_000_000 },
        }))]
    );
    bridge
        .push_inbound(param_change_value("gain", 800_000_000))
        .unwrap();
    let report = bridge.drain_inbound(&registry);
    assert_eq!(report.ops, triad("gain", 800_000_000));
    assert!(bridge.drain_outbound().is_empty());
}
