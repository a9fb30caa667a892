use react_plug::strutil::str_eq;
use react_plug::wire::{Number, WireList, WireObj, WireValue, UNIT_NANOS};

#[test]
fn clamp_keeps_in_range_values() {
    let v = Number { nanos: 300_000_000 };
    assert_eq!(v.clamp_unit(), v);
    assert_eq!(Number { nanos: 0 }.clamp_unit(), Number { nanos: 0 });
    assert_eq!(Number { nanos: UNIT_NANOS }.clamp_unit(), Number { nanos: UNIT_NANOS });
}

#[test]
fn clamp_raises_negative_values_to_zero() {
    assert_eq!(Number { nanos: -1 }.clamp_unit(), Number { nanos: 0 });
    assert_eq!(Number { nanos: i64::MIN }.clamp_unit(), Number { nanos: 0 });
}

#[test]
fn clamp_lowers_large_values_to_one() {
    assert_eq!(Number { nanos: UNIT_NANOS + 1 }.clamp_unit(), Number { nanos: UNIT_NANOS });
    assert_eq!(Number { nanos: i64::MAX }.clamp_unit(), Number { nanos: UNIT_NANOS });
}

#[test]
fn unit_constants() {
    assert_eq!(Number::zero(), Number { nanos: 0 });
    assert_eq!(Number::one(), Number { nanos: UNIT_NANOS });
}

#[test]
fn duplicate_copies_nested_values() {
    let v = WireValue::object(
        WireObj::empty()
            .prepend(
                "items".to_string(),
                WireValue::array(
                    WireList::empty()
                        .prepend(WireValue::Bool(false))
                        .prepend(WireValue::Num(Number { nanos: 5 })),
                ),
            )
            .prepend("name".to_string(), WireValue::Str("deep".to_string())),
    );
    assert_eq!(v.duplicate(), v);
}

#[test]
fn object_lookup_finds_first_occurrence() {
    let o = WireObj::empty()
        .prepend("k".to_string(), WireValue::Str("second".to_string()))
        .prepend("k".to_string(), WireValue::Str("first".to_string()));
    assert_eq!(o.get("k"), Some(&WireValue::Str("first".to_string())));
    assert_eq!(o.get("missing"), None);
}

#[test]
fn str_eq_compares_characters() {
    assert!(str_eq("", ""));
    assert!(str_eq("gain", "gain"));
    assert!(!str_eq("gain", "Gain"));
    assert!(!str_eq("gain", "gain "));
    assert!(str_eq("café", "café"));
    assert!(!str_eq("café", "cafe"));
}
