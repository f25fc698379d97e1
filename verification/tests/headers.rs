use icy_headers::IcyMetaData;
use icy_headers::IcyMetaInt;

// ---- Icy-MetaData ----

#[test]
fn test_format_header_disabled() {
    let header = IcyMetaData(false);
    let formatted = header.encode();
    assert_eq!(formatted, "0");
}

#[test]
fn test_format_header_enabled() {
    let header = IcyMetaData(true);
    let formatted = header.encode();
    assert_eq!(formatted, "1");
}

#[test]
fn test_parse_header_negative() {
    let header: Option<IcyMetaData> = IcyMetaData::decode(&[b"-33".to_vec()]);
    if let Some(header) = header {
        assert!(false, "got value for negative: {:?}", header);
    }
}

#[test]
fn test_parse_header_zero_is_disabled() {
    let a: IcyMetaData = IcyMetaData::decode(&[b"0".to_vec()]).unwrap();
    assert_eq!(a, IcyMetaData(false));
}

#[test]
fn test_parse_header_nonzero_is_enabled() {
    let a: IcyMetaData = IcyMetaData::decode(&[b"1".to_vec()]).unwrap();
    assert_eq!(a, IcyMetaData(true));

    let a: IcyMetaData = IcyMetaData::decode(&[b"2".to_vec()]).unwrap();
    assert_eq!(a, IcyMetaData(true));

    let a: IcyMetaData = IcyMetaData::decode(&[b"1234".to_vec()]).unwrap();
    assert_eq!(a, IcyMetaData(true));
}

// ---- icy-metaint ----

#[test]
fn test_format_header() {
    let header = IcyMetaInt(0);
    let formatted = header.encode();
    assert_eq!(formatted, "0");

    let header = IcyMetaInt(1);
    let formatted = header.encode();
    assert_eq!(formatted, "1");

    let header = IcyMetaInt(1234);
    let formatted = header.encode();
    assert_eq!(formatted, "1234");
}

#[test]
fn lib_test_parse_header_negative() {
    let header: Option<IcyMetaInt> = IcyMetaInt::decode(&[b"-33".to_vec()]);
    if let Some(header) = header {
        assert!(false, "got value for negative: {:?}", header);
    }
}

#[test]
fn test_parse_header_zero() {
    let a: IcyMetaInt = IcyMetaInt::decode(&[b"0".to_vec()]).unwrap();
    assert_eq!(a, IcyMetaInt(0));
}

#[test]
fn test_parse_header_nonzero() {
    let a: IcyMetaInt = IcyMetaInt::decode(&[b"1".to_vec()]).unwrap();
    assert_eq!(a, IcyMetaInt(1));

    let a: IcyMetaInt = IcyMetaInt::decode(&[b"2".to_vec()]).unwrap();
    assert_eq!(a, IcyMetaInt(2));

    let a: IcyMetaInt = IcyMetaInt::decode(&[b"1234".to_vec()]).unwrap();
    assert_eq!(a, IcyMetaInt(1234));
}

// ---- header names ----

#[test]
fn test_header_names() {
    assert_eq!(IcyMetaData::header_name(), "Icy-MetaData");
    assert_eq!(IcyMetaInt::header_name(), "icy-metaint");
}

// ---- round trips ----

#[test]
fn test_flag_round_trip() {
    for flag in [false, true] {
        let header = IcyMetaData(flag);
        let wire = header.encode().into_bytes();
        assert_eq!(IcyMetaData::decode(&[wire]), Some(IcyMetaData(flag)));
    }
}

#[test]
fn test_interval_round_trip() {
    for n in [0usize, 1, 9, 10, 99, 100, 1234, 8192, usize::MAX] {
        let header = IcyMetaInt(n);
        let wire = header.encode().into_bytes();
        assert_eq!(IcyMetaInt::decode(&[wire]), Some(IcyMetaInt(n)));
    }
}

#[test]
fn test_format_matches_std_decimal() {
    for n in [0usize, 7, 10, 4096, 987654321, usize::MAX] {
        assert_eq!(IcyMetaInt(n).encode(), format!("{}", n));
    }
}

// ---- absent and repeated occurrences ----

#[test]
fn test_parse_empty_raw_value() {
    assert_eq!(IcyMetaData::decode(&[]), None);
    assert_eq!(IcyMetaInt::decode(&[]), None);
}

#[test]
fn test_parse_repeated_occurrences() {
    let raw = [b"1".to_vec(), b"2".to_vec()];
    assert_eq!(IcyMetaData::decode(&raw), None);
    assert_eq!(IcyMetaInt::decode(&raw), None);
}

// ---- malformed occurrences ----

#[test]
fn test_parse_malformed_entries() {
    // the grammar is strict: digits only, so an embedded non-digit, an
    // empty entry, a sign, whitespace or a decimal point all fail
    for bad in ["12a3", "", "+7", " 5", "5 ", "1.5", "0x10"] {
        let raw = [bad.as_bytes().to_vec()];
        assert_eq!(IcyMetaData::decode(&raw), None, "flag accepted {:?}", bad);
        assert_eq!(IcyMetaInt::decode(&raw), None, "interval accepted {:?}", bad);
    }
}

#[test]
fn test_parse_leading_zeros() {
    assert_eq!(IcyMetaData::decode(&[b"00".to_vec()]), Some(IcyMetaData(false)));
    assert_eq!(IcyMetaInt::decode(&[b"007".to_vec()]), Some(IcyMetaInt(7)));
}

// ---- overflow ----

#[test]
fn test_parse_flag_overflow() {
    // the flag's target width is 32 bits: the first value past it fails,
    // the last value inside it still parses
    assert_eq!(IcyMetaData::decode(&[b"4294967295".to_vec()]), Some(IcyMetaData(true)));
    assert_eq!(IcyMetaData::decode(&[b"4294967296".to_vec()]), None);
}

#[test]
fn test_parse_interval_overflow() {
    let widest = format!("{}", usize::MAX).into_bytes();
    assert_eq!(IcyMetaInt::decode(&[widest]), Some(IcyMetaInt(usize::MAX)));

    let too_wide = b"340282366920938463463374607431768211456".to_vec();
    assert_eq!(IcyMetaInt::decode(&[too_wide]), None);
}
