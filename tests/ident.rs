use cdm_views::ident::{decimal, external_id, id_string, ExtId, Id};

#[test]
fn decimal_text_of_numbers() {
    assert_eq!(decimal(0), "0");
    assert_eq!(decimal(7), "7");
    assert_eq!(decimal(10), "10");
    assert_eq!(decimal(12345), "12345");
    assert_eq!(decimal(u64::MAX), "18446744073709551615");
}

#[test]
fn id_text_form() {
    assert_eq!(id_string(Id { raw: 5 }), "ID(5)");
    assert_eq!(id_string(Id { raw: 0 }), "ID(0)");
}

#[test]
fn external_id_known_values() {
    assert_eq!(external_id(Id { raw: 5 }).value, 0x8e54c82f04255365ab9f2597ea3b7fd0);
    assert_eq!(external_id(Id { raw: 12345 }).value, 0x1548dfe83c31514e897f4511e4426729);
}

#[test]
fn external_id_is_deterministic() {
    let a = external_id(Id { raw: 42 });
    let b = external_id(Id { raw: 42 });
    assert_eq!(a, b);
}

#[test]
fn external_id_distinct_inputs_distinct_outputs() {
    let mut seen = Vec::new();
    for raw in 0..200u64 {
        let v = external_id(Id { raw }).value;
        assert!(!seen.contains(&v));
        seen.push(v);
    }
}

#[test]
fn external_id_never_nil() {
    for raw in 0..100u64 {
        let e = external_id(Id { raw });
        assert!(!e.is_nil());
        assert_ne!(e, ExtId::nil());
    }
}

#[test]
fn hyphenated_text() {
    let e = ExtId { value: 0x8e54c82f04255365ab9f2597ea3b7fd0 };
    assert_eq!(e.hyphenated(), "8e54c82f-0425-5365-ab9f-2597ea3b7fd0");
    assert_eq!(ExtId::nil().hyphenated(), "00000000-0000-0000-0000-000000000000");
}
