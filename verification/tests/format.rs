use n329x_core::hle::{
    parse_segments, ConversionSegment, FloatType, FormatString, IntegerType, LengthModifier,
    FLAG_CAPITAL, FLAG_PAD_ZERO,
};

#[test]
fn test() {
    let s = String::from("Hello %01.2d%02X world!");
    let fmt = FormatString::from(s);
    println!("{fmt:?}");
}

#[test]
fn parses_numeric_conversions() {
    let segs = parse_segments("Hello %01.2d%02X world!".as_bytes());
    assert_eq!(segs.len(), 4);
    assert_eq!(segs[0], ConversionSegment::Literal { start: 0, end: 6 });
    match segs[1] {
        ConversionSegment::Integer { format, type_ } => {
            assert!(matches!(type_, IntegerType::SignedDecimal));
            assert_eq!(format.padding, 1);
            assert_eq!(format.precision, 2);
            assert_eq!(format.length, LengthModifier::Full);
            assert_eq!(format.flags.bits, FLAG_PAD_ZERO);
        }
        _ => panic!("expected a signed decimal conversion"),
    }
    match segs[2] {
        ConversionSegment::Integer { format, type_ } => {
            assert!(matches!(type_, IntegerType::Hexadecimal));
            assert_eq!(format.padding, 2);
            assert_eq!(format.precision, 1);
            assert_eq!(format.flags.bits, FLAG_PAD_ZERO | FLAG_CAPITAL);
        }
        _ => panic!("expected a hexadecimal conversion"),
    }
    assert_eq!(segs[3], ConversionSegment::Literal { start: 16, end: 23 });
}

#[test]
fn escape_and_unmatched_percent() {
    let segs = parse_segments("100%% done".as_bytes());
    assert_eq!(
        segs,
        vec![
            ConversionSegment::Literal { start: 0, end: 3 },
            ConversionSegment::Escape,
            ConversionSegment::Literal { start: 5, end: 10 },
        ]
    );

    // A percent sign that begins no conversion stays literal text.
    let segs = parse_segments("50%q".as_bytes());
    assert_eq!(segs, vec![ConversionSegment::Literal { start: 0, end: 4 }]);
}

#[test]
fn length_modifiers_backtrack_like_the_grammar() {
    let segs = parse_segments("%lld%ld%hhu%hu".as_bytes());
    let lengths: Vec<LengthModifier> = segs
        .iter()
        .map(|s| match s {
            ConversionSegment::Integer { format, .. } => format.length,
            _ => panic!("expected integer conversions"),
        })
        .collect();
    assert_eq!(
        lengths,
        vec![
            LengthModifier::Quadruple,
            LengthModifier::Double,
            LengthModifier::Quarter,
            LengthModifier::Half,
        ]
    );
}

#[test]
fn string_and_float_conversions() {
    let segs = parse_segments("%-10.3s%Lf%g".as_bytes());
    match segs[0] {
        ConversionSegment::Text { padding, limit, .. } => {
            assert_eq!(padding, Some(10));
            assert_eq!(limit, Some(3));
        }
        _ => panic!("expected a string conversion"),
    }
    match segs[1] {
        ConversionSegment::Float { format, type_ } => {
            assert!(matches!(type_, FloatType::Normal));
            assert_eq!(format.length, LengthModifier::Quadruple);
        }
        _ => panic!("expected a float conversion"),
    }
    match segs[2] {
        ConversionSegment::Float { type_, .. } => {
            assert!(matches!(type_, FloatType::AutoExponent));
        }
        _ => panic!("expected a float conversion"),
    }
}

#[test]
fn unhandled_specifiers_are_swallowed() {
    // %n and %p are recognized by the grammar but produce no segment.
    let segs = parse_segments("a%nb".as_bytes());
    assert_eq!(
        segs,
        vec![
            ConversionSegment::Literal { start: 0, end: 1 },
            ConversionSegment::Literal { start: 3, end: 4 },
        ]
    );
}

#[test]
fn width_overflow_becomes_absent() {
    // A width too large for the machine word parses as no width at all.
    let segs = parse_segments("%99999999999999999999d".as_bytes());
    match segs[0] {
        ConversionSegment::Integer { format, .. } => assert_eq!(format.padding, 0),
        _ => panic!("expected an integer conversion"),
    }
}

#[test]
fn precision_dot_without_digits_stays_literal() {
    let segs = parse_segments("%.d".as_bytes());
    assert_eq!(segs, vec![ConversionSegment::Literal { start: 0, end: 3 }]);
}
