use byte_enum::convert::ValidEnum;
use byte_enum::TryEnumFromByteError;

fn test_enum() -> ValidEnum {
    ValidEnum {
        name: "TestEnum".to_string(),
        variants: vec![
            "VariantA".to_string(),
            "VariantB".to_string(),
            "VariantC".to_string(),
            "VariantD".to_string(),
        ],
    }
}

#[test]
fn test_basic() {
    let e = test_enum();
    let x: usize = 2; // TestEnum::VariantC
    let y: u8 = e.forward(x);
    let z: usize = e.reverse(y).unwrap();
    assert_eq!(x, z);
}

#[test]
fn scenario_four_variants() {
    let e = test_enum();
    assert_eq!(e.forward(2), 2u8);
    assert_eq!(e.reverse(2), Ok(2));
    assert_eq!(e.variant_name(e.reverse(2).unwrap()).as_str(), "VariantC");
    assert_eq!(e.reverse(4), Err(TryEnumFromByteError(4)));
}

#[test]
fn round_trip_every_variant() {
    let e = test_enum();
    for v in 0..e.variant_count() {
        let b = e.forward(v);
        assert_eq!(e.reverse(b), Ok(v));
    }
}

#[test]
fn reverse_succeeds_exactly_below_count() {
    let e = test_enum();
    for b in 0u8..=255u8 {
        if (b as usize) < e.variant_count() {
            assert_eq!(e.reverse(b), Ok(b as usize));
        } else {
            assert_eq!(e.reverse(b), Err(TryEnumFromByteError(b)));
        }
    }
}

#[test]
fn forward_is_injective() {
    let e = test_enum();
    for v in 0..e.variant_count() {
        for w in 0..e.variant_count() {
            if v != w {
                assert_ne!(e.forward(v), e.forward(w));
            }
        }
    }
}

#[test]
fn boundary_bytes_fail() {
    let e = test_enum();
    let n: u8 = e.variant_count() as u8;
    assert_eq!(e.reverse(n), Err(TryEnumFromByteError(n)));
    assert_eq!(e.reverse(255), Err(TryEnumFromByteError(255)));
}

#[test]
fn ordering_follows_declaration() {
    let e = ValidEnum {
        name: "Mixed".to_string(),
        variants: vec!["Zebra".to_string(), "Apple".to_string(), "Mango".to_string()],
    };
    assert_eq!(e.forward(0), 0u8);
    assert_eq!(e.forward(1), 1u8);
    assert_eq!(e.forward(2), 2u8);
}

#[test]
fn single_variant_enum() {
    let e = ValidEnum { name: "One".to_string(), variants: vec!["Only".to_string()] };
    assert_eq!(e.forward(0), 0u8);
    assert_eq!(e.reverse(0), Ok(0));
    assert_eq!(e.reverse(1), Err(TryEnumFromByteError(1)));
}

#[test]
fn largest_enum() {
    let mut variants = Vec::new();
    for i in 0..256usize {
        variants.push(format!("V{}", i));
    }
    let e = ValidEnum { name: "Big".to_string(), variants };
    assert_eq!(e.forward(255), 255u8);
    assert_eq!(e.reverse(255), Ok(255));
}

#[test]
fn error_message_names_the_byte() {
    assert_eq!(
        TryEnumFromByteError(4).message(),
        "failed to match value 4 to enum discriminant"
    );
    assert_eq!(
        TryEnumFromByteError(0).message(),
        "failed to match value 0 to enum discriminant"
    );
    assert_eq!(
        TryEnumFromByteError(42).message(),
        "failed to match value 42 to enum discriminant"
    );
    assert_eq!(
        TryEnumFromByteError(100).message(),
        "failed to match value 100 to enum discriminant"
    );
    assert_eq!(
        TryEnumFromByteError(255).message(),
        "failed to match value 255 to enum discriminant"
    );
}

#[test]
fn byte_decimal_renders_all_widths() {
    assert_eq!(byte_enum::decimal::byte_decimal(0), "0");
    assert_eq!(byte_enum::decimal::byte_decimal(7), "7");
    assert_eq!(byte_enum::decimal::byte_decimal(10), "10");
    assert_eq!(byte_enum::decimal::byte_decimal(99), "99");
    assert_eq!(byte_enum::decimal::byte_decimal(100), "100");
    assert_eq!(byte_enum::decimal::byte_decimal(201), "201");
    assert_eq!(byte_enum::decimal::byte_decimal(255), "255");
}
