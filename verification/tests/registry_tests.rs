use react_plug::registry::{
    ParamInfo, ParamOp, RPParamType, Registry, RegistryError, UnknownParameter,
};
use react_plug::wire::Number;

fn info(id: &str, nanos: i64) -> ParamInfo {
    ParamInfo { id: id.to_string(), value: Number { nanos }, kind: RPParamType::FloatParam }
}

#[test]
fn new_accepts_distinct_nonempty_ids() {
    let registry = Registry::new(vec![info("a", 1), info("b", 2)]).unwrap();
    assert_eq!(registry.len(), 2);
    assert_eq!(registry.get(0).id, "a");
    assert_eq!(registry.get(1).value, Number { nanos: 2 });
}

#[test]
fn new_rejects_empty_id() {
    let r = Registry::new(vec![info("a", 1), info("", 2)]);
    assert!(matches!(r, Err(RegistryError::EmptyId)));
}

#[test]
fn new_rejects_duplicate_id() {
    let r = Registry::new(vec![info("a", 1), info("b", 2), info("a", 3)]);
    assert!(matches!(r, Err(RegistryError::DuplicateId)));
}

#[test]
fn new_reports_empty_id_before_duplicates() {
    let r = Registry::new(vec![info("a", 1), info("a", 2), info("", 3)]);
    assert!(matches!(r, Err(RegistryError::EmptyId)));
}

#[test]
fn find_locates_registered_ids_only() {
    let registry = Registry::new(vec![info("gain", 1), info("mix", 2)]).unwrap();
    assert_eq!(registry.find("gain"), Some(0));
    assert_eq!(registry.find("mix"), Some(1));
    assert_eq!(registry.find("pan"), None);
    assert_eq!(registry.find(""), None);
}

#[test]
fn apply_produces_the_transaction_triad_in_order() {
    let registry = Registry::new(vec![info("gain", 0)]).unwrap();
    let ops = registry.apply("gain", Number { nanos: 250_000_000 }).unwrap();
    assert_eq!(
        ops,
        vec![
            ParamOp::Begin { id: "gain".to_string() },
            ParamOp::SetNormalized {
                id: "gain".to_string(),
                value: Number { nanos: 250_000_000 },
            },
            ParamOp::End { id: "gain".to_string() },
        ]
    );
}

#[test]
fn apply_rejects_unknown_id() {
    let registry = Registry::new(vec![info("gain", 0)]).unwrap();
    let r = registry.apply("pan", Number { nanos: 0 });
    assert_eq!(r, Err(UnknownParameter));
}

#[test]
fn param_type_from_name_reads_every_kind() {
    assert_eq!(RPParamType::from_name("FloatParam"), Some(RPParamType::FloatParam));
    assert_eq!(RPParamType::from_name("IntParam"), Some(RPParamType::IntParam));
    assert_eq!(RPParamType::from_name("BoolParam"), Some(RPParamType::BoolParam));
    assert_eq!(RPParamType::from_name("EnumParam"), Some(RPParamType::EnumParam));
}

#[test]
fn param_type_from_name_rejects_unknown_names() {
    assert_eq!(RPParamType::from_name("StringParam"), None);
    assert_eq!(RPParamType::from_name("floatparam"), None);
    assert_eq!(RPParamType::from_name(""), None);
}

#[test]
fn param_type_names_round_trip() {
    for kind in [
        RPParamType::FloatParam,
        RPParamType::IntParam,
        RPParamType::BoolParam,
        RPParamType::EnumParam,
    ] {
        assert_eq!(RPParamType::from_name(kind.name()), Some(kind));
    }
}
