use tlmcmddb::error::{ConversionField, ErrorKind};
use tlmcmddb::tlm::status::parse_status_map;
use tlmcmddb::tlm::validator::{conversion_info, ConversionType, LineConversionInfo};
use tlmcmddb::tlm::conversion::{Polynomial, Status, Variant};
use tlmcmddb::tlm::ConversionInfo;

fn variant(key: i64, value: &str) -> Variant {
    Variant { key, value: value.to_string() }
}

fn cells(conversion_type: ConversionType, a: [&str; 6], status: &str) -> LineConversionInfo {
    let cell = |s: &str| if s.is_empty() { None } else { Some(s.to_string()) };
    LineConversionInfo {
        conversion_type,
        a0: cell(a[0]),
        a1: cell(a[1]),
        a2: cell(a[2]),
        a3: cell(a[3]),
        a4: cell(a[4]),
        a5: cell(a[5]),
        status: cell(status),
    }
}

#[test]
fn status_map_is_ordered_by_key() {
    let status = parse_status_map("2=TWO, 0 = ZERO ,1=ONE").unwrap();
    assert_eq!(
        status,
        Status {
            variants: vec![variant(0, "ZERO"), variant(1, "ONE"), variant(2, "TWO")],
            default_value: None,
        }
    );
}

#[test]
fn status_map_reads_decimal_hexadecimal_and_default() {
    let status = parse_status_map("0x10=SIXTEEN,-1=MINUS,*=OTHER,+7=SEVEN").unwrap();
    assert_eq!(
        status,
        Status {
            variants: vec![variant(-1, "MINUS"), variant(7, "SEVEN"), variant(16, "SIXTEEN")],
            default_value: Some("OTHER".to_string()),
        }
    );
}

#[test]
fn status_map_reads_the_ends_of_the_key_range() {
    let status =
        parse_status_map("9223372036854775807=MAX,-9223372036854775808=MIN").unwrap();
    assert_eq!(status.variants, vec![variant(i64::MIN, "MIN"), variant(i64::MAX, "MAX")]);
    assert_eq!(parse_status_map("9223372036854775808=X"), Err(ErrorKind::InvalidStatusKey));
    assert_eq!(parse_status_map("0x7fffffffffffffff=X").unwrap().variants, vec![variant(i64::MAX, "X")]);
    assert_eq!(parse_status_map("0x8000000000000000=X"), Err(ErrorKind::InvalidStatusKey));
}

#[test]
fn status_map_parts_a_rule_at_its_first_equals_sign() {
    let status = parse_status_map("1=a=b").unwrap();
    assert_eq!(status.variants, vec![variant(1, "a=b")]);
    let status = parse_status_map("1=").unwrap();
    assert_eq!(status.variants, vec![variant(1, "")]);
}

#[test]
fn status_map_accepts_either_spelling_of_a_key() {
    assert_eq!(parse_status_map("10=TEN").unwrap().variants, vec![variant(10, "TEN")]);
    assert_eq!(parse_status_map("0xA=TEN").unwrap().variants, vec![variant(10, "TEN")]);
    assert_eq!(parse_status_map("0xa=TEN").unwrap().variants, vec![variant(10, "TEN")]);
}

#[test]
fn status_map_rejects_a_repeated_key() {
    assert_eq!(
        parse_status_map("10=TEN,10=AGAIN"),
        Err(ErrorKind::DuplicateStatusKey { key: 10 })
    );
    assert_eq!(
        parse_status_map("10=TEN,0xA=AGAIN"),
        Err(ErrorKind::DuplicateStatusKey { key: 10 })
    );
    assert_eq!(
        parse_status_map("1=A,2=B,3=C,2=D"),
        Err(ErrorKind::DuplicateStatusKey { key: 2 })
    );
}

#[test]
fn status_map_rejects_a_second_default() {
    assert_eq!(parse_status_map("*=A,1=B,*=C"), Err(ErrorKind::DuplicateDefaultValue));
    assert_eq!(parse_status_map("*=A, * =A"), Err(ErrorKind::DuplicateDefaultValue));
}

#[test]
fn status_map_rejects_a_rule_without_equals_sign() {
    assert_eq!(parse_status_map("1=A,B"), Err(ErrorKind::MalformedStatusPair));
    assert_eq!(parse_status_map(""), Err(ErrorKind::MalformedStatusPair));
    assert_eq!(parse_status_map("1=A,"), Err(ErrorKind::MalformedStatusPair));
}

#[test]
fn status_map_rejects_a_key_that_is_no_integer() {
    assert_eq!(parse_status_map("one=A"), Err(ErrorKind::InvalidStatusKey));
    assert_eq!(parse_status_map("=A"), Err(ErrorKind::InvalidStatusKey));
    assert_eq!(parse_status_map("1.5=A"), Err(ErrorKind::InvalidStatusKey));
    assert_eq!(parse_status_map("0x=A"), Err(ErrorKind::InvalidStatusKey));
    assert_eq!(parse_status_map("-0x1=A"), Err(ErrorKind::InvalidStatusKey));
    assert_eq!(parse_status_map("**=A"), Err(ErrorKind::InvalidStatusKey));
}

#[test]
fn status_map_reports_the_first_rule_that_is_wrong() {
    assert_eq!(parse_status_map("x=A,1"), Err(ErrorKind::InvalidStatusKey));
    assert_eq!(parse_status_map("1,x=A"), Err(ErrorKind::MalformedStatusPair));
    assert_eq!(parse_status_map("1=A,1=B,x"), Err(ErrorKind::DuplicateStatusKey { key: 1 }));
}

#[test]
fn no_conversion_excludes_coefficients_and_ignores_status() {
    assert_eq!(
        conversion_info(cells(ConversionType::Identity, ["", "", "", "", "", ""], "")),
        Ok(ConversionInfo::Identity)
    );
    assert_eq!(
        conversion_info(cells(ConversionType::Identity, ["", "", "", "", "", ""], "0=OFF")),
        Ok(ConversionInfo::Identity)
    );
    assert_eq!(
        conversion_info(cells(ConversionType::Identity, ["", "", "1.0", "", "", "2.0"], "")),
        Err(ErrorKind::InvalidConversionInfo { field: ConversionField::A2 })
    );
}

#[test]
fn hexadecimal_conversion_excludes_coefficients_and_status() {
    assert_eq!(
        conversion_info(cells(ConversionType::Hex, ["", "", "", "", "", ""], "")),
        Ok(ConversionInfo::Hex)
    );
    assert_eq!(
        conversion_info(cells(ConversionType::Hex, ["", "", "", "", "", ""], "0=OFF")),
        Err(ErrorKind::InvalidConversionInfo { field: ConversionField::Status })
    );
    assert_eq!(
        conversion_info(cells(ConversionType::Hex, ["", "", "", "", "", "1"], "0=OFF")),
        Err(ErrorKind::InvalidConversionInfo { field: ConversionField::A5 })
    );
}

#[test]
fn status_conversion_needs_the_status_cell() {
    assert_eq!(
        conversion_info(cells(ConversionType::Status, ["", "", "", "", "", ""], "0=OFF@@ 1=ON")),
        Ok(ConversionInfo::Status(Status {
            variants: vec![variant(0, "OFF"), variant(1, "ON")],
            default_value: None,
        }))
    );
    assert_eq!(
        conversion_info(cells(ConversionType::Status, ["", "", "", "", "", ""], "")),
        Err(ErrorKind::InvalidConversionInfo { field: ConversionField::Status })
    );
    assert_eq!(
        conversion_info(cells(ConversionType::Status, ["0", "", "", "", "", ""], "0=OFF")),
        Err(ErrorKind::InvalidConversionInfo { field: ConversionField::A0 })
    );
    assert_eq!(
        conversion_info(cells(ConversionType::Status, ["", "", "", "", "", ""], "0=OFF@@0=ON")),
        Err(ErrorKind::DuplicateStatusKey { key: 0 })
    );
}

#[test]
fn polynomial_takes_zero_for_an_empty_coefficient() {
    assert_eq!(
        conversion_info(cells(ConversionType::Poly, ["1.5", "", "-2e3", "", "", ""], "")),
        Ok(ConversionInfo::Polynomial(Polynomial {
            a0: "1.5".to_string(),
            a1: "0.0".to_string(),
            a2: "-2e3".to_string(),
            a3: "0.0".to_string(),
            a4: "0.0".to_string(),
            a5: "0.0".to_string(),
        }))
    );
    assert_eq!(
        conversion_info(cells(ConversionType::Poly, ["", "", "", "", "", ""], "")),
        Ok(ConversionInfo::Polynomial(Polynomial {
            a0: "0.0".to_string(),
            a1: "0.0".to_string(),
            a2: "0.0".to_string(),
            a3: "0.0".to_string(),
            a4: "0.0".to_string(),
            a5: "0.0".to_string(),
        }))
    );
    assert_eq!(
        conversion_info(cells(ConversionType::Poly, ["1", "", "", "", "", ""], "0=OFF")),
        Err(ErrorKind::InvalidConversionInfo { field: ConversionField::Status })
    );
}

#[test]
fn zero_coefficient_literal_is_the_number_zero() {
    let conversion =
        conversion_info(cells(ConversionType::Poly, ["", "", "", "", "", ""], "")).unwrap();
    match conversion {
        ConversionInfo::Polynomial(p) => {
            assert_eq!(p.a0.parse::<f64>().unwrap(), 0.0);
            assert_eq!(p.a5.parse::<f64>().unwrap().to_bits(), 0.0f64.to_bits());
        }
        _ => panic!("not a polynomial"),
    }
}
