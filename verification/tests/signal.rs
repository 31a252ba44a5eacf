use sample::MyEnum;

fn payload_of(signal: &MyEnum) -> Option<i32> {
    match signal {
        MyEnum::Variant1 => None,
        MyEnum::Variant2(payload) => Some(*payload),
    }
}

#[test]
fn marker_is_the_marker() {
    let signal = MyEnum::Variant1;
    assert!(matches!(signal, MyEnum::Variant1));
    assert!(!matches!(signal, MyEnum::Variant2(_)));
    assert_eq!(payload_of(&signal), None);
}

#[test]
fn carrier_holds_its_payload() {
    let signal = MyEnum::Variant2(42);
    assert!(matches!(signal, MyEnum::Variant2(42)));
    assert!(!matches!(signal, MyEnum::Variant1));
    assert_eq!(payload_of(&signal), Some(42));
}

#[test]
fn carrier_holds_zero_and_negative_payloads() {
    assert_eq!(payload_of(&MyEnum::Variant2(0)), Some(0));
    assert_eq!(payload_of(&MyEnum::Variant2(-1)), Some(-1));
    assert_eq!(payload_of(&MyEnum::Variant2(-123_456)), Some(-123_456));
}

#[test]
fn carrier_holds_the_extreme_payloads() {
    assert_eq!(payload_of(&MyEnum::Variant2(i32::MAX)), Some(i32::MAX));
    assert_eq!(payload_of(&MyEnum::Variant2(i32::MIN)), Some(i32::MIN));
}

#[test]
fn carriers_of_different_payloads_differ() {
    let first = MyEnum::Variant2(1);
    let second = MyEnum::Variant2(2);
    assert_ne!(payload_of(&first), payload_of(&second));
    assert!(!matches!(first, MyEnum::Variant2(2)));
    assert!(!matches!(second, MyEnum::Variant2(1)));
}

#[test]
fn every_signal_is_of_exactly_one_kind() {
    let signals = vec![MyEnum::Variant1, MyEnum::Variant2(7), MyEnum::Variant2(0)];
    for signal in &signals {
        let is_marker = matches!(signal, MyEnum::Variant1);
        let is_carrier = matches!(signal, MyEnum::Variant2(_));
        assert_ne!(is_marker, is_carrier);
    }
}

#[test]
fn signal_is_reachable_through_its_module() {
    let signal = sample::signal::MyEnum::Variant2(3);
    assert_eq!(payload_of(&signal), Some(3));
}
