//! Format-string vocabulary for the printf-style high-level-emulation
//! hook: a scanner that splits a C format string into literal runs and
//! typed conversion segments. The hook itself (reading guest registers and
//! memory, assembling output) is host-side work; this module owns the
//! grammar.
use vstd::prelude::*;

verus! {

/// Conversion flags, one bit per flag character (plus the derived
/// capital-specifier bit).
#[derive(Debug, Clone, Copy, PartialEq, Eq, Structural)]
pub struct FormatFlags {
    pub bits: u8,
}

/// The `-` flag: left-justify within the field.
pub const FLAG_LEFT_JUSTIFIED: u8 = 1;

/// The `+` flag: always write a sign.
pub const FLAG_ALWAYS_SIGN: u8 = 2;

/// The `0` flag: pad with zeros.
pub const FLAG_PAD_ZERO: u8 = 4;

/// The ` ` flag: pad the sign position with a space.
pub const FLAG_PAD_SPACE: u8 = 8;

/// The `#` flag: alternative form.
pub const FLAG_ALT_MODE: u8 = 16;

/// Set when the specifier letter is a capital.
pub const FLAG_CAPITAL: u8 = 128;

/// Argument width selected by a length modifier.
#[derive(Debug, Clone, Copy, PartialEq, Eq, Structural)]
pub enum LengthModifier {
    /// Quarter-width data (the `hh` modifier).
    Quarter,
    /// Half-width data (the `h` modifier).
    Half,
    /// Full-width data (no modifier).
    Full,
    /// Double-width data (the `l` modifier).
    Double,
    /// Quadruple-width data (`ll`, or `L` for floating types).
    Quadruple,
    /// The `j` modifier.
    IntMax,
    /// The `z` modifier.
    Size,
    /// The `t` modifier.
    PointerOffset,
}

impl Default for LengthModifier {
    fn default() -> (r: Self)
        ensures
            r == LengthModifier::Full,
    {
        LengthModifier::Full
    }
}

/// The integer conversion families.
#[derive(Debug, Clone, Copy, PartialEq, Eq, Structural)]
pub enum IntegerType {
    SignedDecimal,
    UnsignedDecimal,
    Octal,
    Hexadecimal,
}

/// The floating-point conversion families.
#[derive(Debug, Clone, Copy, PartialEq, Eq, Structural)]
pub enum FloatType {
    Normal,
    DecimalExponent,
    HexadecimalExponent,
    AutoExponent,
}

/// Width, precision, length and flags of a numeric conversion. A missing
/// width defaults to 0 and a missing precision to 1, as the output code
/// expects them.
#[derive(Debug, Clone, Copy, PartialEq, Eq, Structural)]
pub struct NumericalFormat {
    pub padding: usize,
    pub precision: usize,
    pub length: LengthModifier,
    pub flags: FormatFlags,
}

/// One piece of a parsed format string: a literal byte range of the raw
/// string, an escaped percent sign, or a conversion.
#[derive(Debug, Clone, Copy, PartialEq, Eq, Structural)]
pub enum ConversionSegment {
    Literal { start: usize, end: usize },
    Escape,
    Character { flags: FormatFlags, padding: Option<usize> },
    Text { flags: FormatFlags, padding: Option<usize>, limit: Option<usize> },
    Integer { format: NumericalFormat, type_: IntegerType },
    Float { format: NumericalFormat, type_: FloatType },
}

/// Whether a byte is one of the conversion flag characters `- + space # 0`.
pub open spec fn is_flag_byte(b: u8) -> bool {
    b == 45 || b == 43 || b == 32 || b == 35 || b == 48
}

/// The flag bit a flag character selects.
pub open spec fn spec_flag_bit(b: u8) -> u8 {
    if b == 45 {
        FLAG_LEFT_JUSTIFIED
    } else if b == 43 {
        FLAG_ALWAYS_SIGN
    } else if b == 32 {
        FLAG_PAD_SPACE
    } else if b == 35 {
        FLAG_ALT_MODE
    } else {
        FLAG_PAD_ZERO
    }
}

/// Whether a byte is a decimal digit.
pub open spec fn is_digit_byte(b: u8) -> bool {
    48 <= b <= 57
}

/// Whether a byte is one of the conversion specifier letters
/// `c s d i o x X u f F e E a A g G n p`.
pub open spec fn is_specifier_byte(b: u8) -> bool {
    b == 99 || b == 115 || b == 100 || b == 105 || b == 111 || b == 120 || b == 88 || b == 117
        || b == 102 || b == 70 || b == 101 || b == 69 || b == 97 || b == 65 || b == 103 || b == 71
        || b == 110 || b == 112
}

/// First position at or after `i` that does not hold a flag character.
pub open spec fn spec_flags_end(bytes: Seq<u8>, i: int) -> int
    decreases bytes.len() - i,
{
    if 0 <= i < bytes.len() && is_flag_byte(bytes[i]) {
        spec_flags_end(bytes, i + 1)
    } else {
        i
    }
}

/// The flag bits accumulated over the flag characters from `i`.
pub open spec fn spec_flags_acc(bytes: Seq<u8>, i: int, acc: u8) -> u8
    decreases bytes.len() - i,
{
    if 0 <= i < bytes.len() && is_flag_byte(bytes[i]) {
        spec_flags_acc(bytes, i + 1, acc | spec_flag_bit(bytes[i]))
    } else {
        acc
    }
}

/// First position at or after `i` that does not hold a digit.
pub open spec fn spec_digits_end(bytes: Seq<u8>, i: int) -> int
    decreases bytes.len() - i,
{
    if 0 <= i < bytes.len() && is_digit_byte(bytes[i]) {
        spec_digits_end(bytes, i + 1)
    } else {
        i
    }
}

/// The decimal number written in `bytes[i..end]`, accumulated left to
/// right; a value past the machine's word range becomes absent, as the
/// standard library's parse reports it.
pub open spec fn spec_digits_acc(bytes: Seq<u8>, i: int, end: int, acc: Option<int>) -> Option<int>
    decreases end - i,
{
    if i < end {
        let next = match acc {
            Some(a) => {
                let a2 = a * 10 + (bytes[i] - 48);
                if a2 > usize::MAX {
                    None
                } else {
                    Some(a2)
                }
            },
            None => None,
        };
        spec_digits_acc(bytes, i + 1, end, next)
    } else {
        acc
    }
}

/// The parsed number of the digit run `bytes[i..end]`, absent when the run
/// is empty or its value does not fit the machine word.
pub open spec fn spec_number(bytes: Seq<u8>, i: int, end: int) -> Option<usize> {
    if end <= i {
        None
    } else {
        match spec_digits_acc(bytes, i, end, Some(0)) {
            Some(v) => Some(v as usize),
            None => None,
        }
    }
}

/// The length modifier starting at `i`, with the position of its specifier
/// letter. The alternatives are tried in the grammar's order (`hh`, `h`,
/// `l`, `ll`, `j`, `z`, `t`, `L`, then none), and an alternative counts
/// only when a valid specifier letter follows it.
pub open spec fn spec_length_mod(bytes: Seq<u8>, i: int) -> Option<(LengthModifier, int)> {
    let len = bytes.len() as int;
    if i + 2 < len && bytes[i] == 104 && bytes[i + 1] == 104 && is_specifier_byte(bytes[i + 2]) {
        Some((LengthModifier::Quarter, i + 2))
    } else if i + 1 < len && bytes[i] == 104 && is_specifier_byte(bytes[i + 1]) {
        Some((LengthModifier::Half, i + 1))
    } else if i + 1 < len && bytes[i] == 108 && is_specifier_byte(bytes[i + 1]) {
        Some((LengthModifier::Double, i + 1))
    } else if i + 2 < len && bytes[i] == 108 && bytes[i + 1] == 108 && is_specifier_byte(
        bytes[i + 2],
    ) {
        Some((LengthModifier::Quadruple, i + 2))
    } else if i + 1 < len && bytes[i] == 106 && is_specifier_byte(bytes[i + 1]) {
        Some((LengthModifier::IntMax, i + 1))
    } else if i + 1 < len && bytes[i] == 122 && is_specifier_byte(bytes[i + 1]) {
        Some((LengthModifier::Size, i + 1))
    } else if i + 1 < len && bytes[i] == 116 && is_specifier_byte(bytes[i + 1]) {
        Some((LengthModifier::PointerOffset, i + 1))
    } else if i + 1 < len && bytes[i] == 76 && is_specifier_byte(bytes[i + 1]) {
        Some((LengthModifier::Quadruple, i + 1))
    } else if i < len && is_specifier_byte(bytes[i]) {
        Some((LengthModifier::Full, i))
    } else {
        None
    }
}

/// The segments a specifier letter produces (none for the unhandled `n`
/// and `p` conversions).
pub open spec fn spec_specifier_segments(
    spec_byte: u8,
    flags: u8,
    width: Option<usize>,
    precision: Option<usize>,
    length: LengthModifier,
) -> Seq<ConversionSegment> {
    let capital = spec_byte == 88 || spec_byte == 70 || spec_byte == 69 || spec_byte == 65
        || spec_byte == 71;
    let nflags = FormatFlags {
        bits: (if capital {
            flags | FLAG_CAPITAL
        } else {
            flags
        }),
    };
    let format = NumericalFormat {
        padding: (match width {
            Some(w) => w,
            None => 0,
        }),
        precision: (match precision {
            Some(p) => p,
            None => 1,
        }),
        length,
        flags: nflags,
    };
    if spec_byte == 99 {
        seq![ConversionSegment::Character { flags: nflags, padding: width }]
    } else if spec_byte == 115 {
        seq![ConversionSegment::Text { flags: nflags, padding: width, limit: precision }]
    } else if spec_byte == 100 || spec_byte == 105 {
        seq![ConversionSegment::Integer { format, type_: IntegerType::SignedDecimal }]
    } else if spec_byte == 111 {
        seq![ConversionSegment::Integer { format, type_: IntegerType::Octal }]
    } else if spec_byte == 120 || spec_byte == 88 {
        seq![ConversionSegment::Integer { format, type_: IntegerType::Hexadecimal }]
    } else if spec_byte == 117 {
        seq![ConversionSegment::Integer { format, type_: IntegerType::UnsignedDecimal }]
    } else if spec_byte == 102 || spec_byte == 70 {
        seq![ConversionSegment::Float { format, type_: FloatType::Normal }]
    } else if spec_byte == 101 || spec_byte == 69 {
        seq![ConversionSegment::Float { format, type_: FloatType::DecimalExponent }]
    } else if spec_byte == 97 || spec_byte == 65 {
        seq![ConversionSegment::Float { format, type_: FloatType::HexadecimalExponent }]
    } else if spec_byte == 103 || spec_byte == 71 {
        seq![ConversionSegment::Float { format, type_: FloatType::AutoExponent }]
    } else {
        Seq::empty()
    }
}

/// The conversion starting at the percent sign at `i`: its segments and
/// the position right after it, or nothing when the bytes at `i` spell no
/// valid conversion (the percent sign then stays literal text).
pub open spec fn spec_conversion(bytes: Seq<u8>, i: int) -> Option<(Seq<ConversionSegment>, int)> {
    let len = bytes.len() as int;
    let k = i + 1;
    if k < len && bytes[k] == 37 {
        Some((seq![ConversionSegment::Escape], k + 1))
    } else {
        let fe = spec_flags_end(bytes, k);
        let flags = spec_flags_acc(bytes, k, 0);
        let we = spec_digits_end(bytes, fe);
        let width = spec_number(bytes, fe, we);
        let de = (if we < len && bytes[we] == 46 {
            spec_digits_end(bytes, we + 1)
        } else {
            we
        });
        let has_precision = we < len && bytes[we] == 46 && de > we + 1;
        let precision = (if has_precision {
            spec_number(bytes, we + 1, de)
        } else {
            None
        });
        let pe = (if has_precision {
            de
        } else {
            we
        });
        match spec_length_mod(bytes, pe) {
            None => None,
            Some((length, se)) => Some(
                (spec_specifier_segments(bytes[se], flags, width, precision, length), se + 1),
            ),
        }
    }
}

/// The parsed form of `bytes[i..]`, with a pending literal run open since
/// `ls`: literal text up to each recognized conversion, the conversion's
/// segments, and a trailing literal for what remains.
pub open spec fn spec_scan(bytes: Seq<u8>, i: int, ls: int) -> Seq<ConversionSegment>
    decreases bytes.len() - i,
{
    let len = bytes.len() as int;
    if i < 0 || i >= len {
        if 0 <= ls < len {
            seq![ConversionSegment::Literal { start: ls as usize, end: len as usize }]
        } else {
            Seq::empty()
        }
    } else if bytes[i] != 37 {
        spec_scan(bytes, i + 1, ls)
    } else {
        match spec_conversion(bytes, i) {
            None => spec_scan(bytes, i + 1, ls),
            Some((segs, ni)) => {
                let nj = if ni <= i {
                    i + 1
                } else {
                    ni
                };
                (if ls < i {
                    seq![ConversionSegment::Literal { start: ls as usize, end: i as usize }]
                } else {
                    Seq::empty()
                }) + segs + spec_scan(bytes, nj, nj)
            },
        }
    }
}

} // verus!

verus! {

fn is_flag(b: u8) -> (r: bool)
    ensures
        r == is_flag_byte(b),
{
    b == 45 || b == 43 || b == 32 || b == 35 || b == 48
}

fn flag_bit(b: u8) -> (r: u8)
    ensures
        r == spec_flag_bit(b),
{
    if b == 45 {
        FLAG_LEFT_JUSTIFIED
    } else if b == 43 {
        FLAG_ALWAYS_SIGN
    } else if b == 32 {
        FLAG_PAD_SPACE
    } else if b == 35 {
        FLAG_ALT_MODE
    } else {
        FLAG_PAD_ZERO
    }
}

fn is_digit(b: u8) -> (r: bool)
    ensures
        r == is_digit_byte(b),
{
    48 <= b && b <= 57
}

fn is_specifier(b: u8) -> (r: bool)
    ensures
        r == is_specifier_byte(b),
{
    b == 99 || b == 115 || b == 100 || b == 105 || b == 111 || b == 120 || b == 88 || b == 117
        || b == 102 || b == 70 || b == 101 || b == 69 || b == 97 || b == 65 || b == 103 || b == 71
        || b == 110 || b == 112
}

fn scan_flags(bytes: &[u8], start: usize) -> (r: (u8, usize))
    requires
        start <= bytes@.len(),
    ensures
        r.0 == spec_flags_acc(bytes@, start as int, 0),
        r.1 == spec_flags_end(bytes@, start as int),
        start <= r.1 <= bytes@.len(),
{
    let mut j = start;
    let mut acc: u8 = 0;
    while j < bytes.len() && is_flag(bytes[j])
        invariant
            start <= j <= bytes@.len(),
            spec_flags_end(bytes@, start as int) == spec_flags_end(bytes@, j as int),
            spec_flags_acc(bytes@, start as int, 0) == spec_flags_acc(bytes@, j as int, acc),
        decreases bytes@.len() - j,
    {
        acc = acc | flag_bit(bytes[j]);
        j = j + 1;
    }
    (acc, j)
}

fn scan_digits(bytes: &[u8], start: usize) -> (r: usize)
    requires
        start <= bytes@.len(),
    ensures
        r == spec_digits_end(bytes@, start as int),
        start <= r <= bytes@.len(),
        forall|k: int| start <= k < r ==> is_digit_byte(bytes@[k]),
    decreases bytes@.len() - start,
{
    let mut j = start;
    while j < bytes.len() && is_digit(bytes[j])
        invariant
            start <= j <= bytes@.len(),
            spec_digits_end(bytes@, start as int) == spec_digits_end(bytes@, j as int),
            forall|k: int| start <= k < j ==> is_digit_byte(bytes@[k]),
        decreases bytes@.len() - j,
    {
        j = j + 1;
    }
    j
}

fn parse_number(bytes: &[u8], start: usize, end: usize) -> (r: Option<usize>)
    requires
        start <= end <= bytes@.len(),
        forall|k: int| start <= k < end ==> is_digit_byte(bytes@[k]),
    ensures
        r == spec_number(bytes@, start as int, end as int),
{
    if end <= start {
        return None;
    }
    let mut j = start;
    let mut cur: u128 = 0;
    let mut ok = true;
    while j < end
        invariant
            start <= j <= end <= bytes@.len(),
            forall|k: int| start <= k < end ==> is_digit_byte(bytes@[k]),
            ok ==> cur <= usize::MAX as u128,
            spec_digits_acc(bytes@, start as int, end as int, Some(0int)) == spec_digits_acc(
                bytes@,
                j as int,
                end as int,
                (if ok {
                    Some(cur as int)
                } else {
                    None
                }),
            ),
        decreases end - j,
    {
        let d = bytes[j] - 48;
        if ok {
            let a2 = cur * 10 + (d as u128);
            if a2 > usize::MAX as u128 {
                ok = false;
            } else {
                cur = a2;
            }
        }
        j = j + 1;
    }
    if ok {
        Some(cur as usize)
    } else {
        None
    }
}

fn length_mod(bytes: &[u8], i: usize) -> (r: Option<(LengthModifier, usize)>)
    requires
        i <= bytes@.len(),
    ensures
        r is Some <==> spec_length_mod(bytes@, i as int) is Some,
        r matches Some(v) ==> ({
            let sv = spec_length_mod(bytes@, i as int);
            &&& sv matches Some(s) && v.0 == s.0 && v.1 as int == s.1
            &&& i <= v.1 < bytes@.len()
            &&& is_specifier_byte(bytes@[v.1 as int])
        }),
{
    let len = bytes.len();
    if len - i >= 3 && bytes[i] == 104 && bytes[i + 1] == 104 && is_specifier(bytes[i + 2]) {
        Some((LengthModifier::Quarter, i + 2))
    } else if len - i >= 2 && bytes[i] == 104 && is_specifier(bytes[i + 1]) {
        Some((LengthModifier::Half, i + 1))
    } else if len - i >= 2 && bytes[i] == 108 && is_specifier(bytes[i + 1]) {
        Some((LengthModifier::Double, i + 1))
    } else if len - i >= 3 && bytes[i] == 108 && bytes[i + 1] == 108 && is_specifier(
        bytes[i + 2],
    ) {
        Some((LengthModifier::Quadruple, i + 2))
    } else if len - i >= 2 && bytes[i] == 106 && is_specifier(bytes[i + 1]) {
        Some((LengthModifier::IntMax, i + 1))
    } else if len - i >= 2 && bytes[i] == 122 && is_specifier(bytes[i + 1]) {
        Some((LengthModifier::Size, i + 1))
    } else if len - i >= 2 && bytes[i] == 116 && is_specifier(bytes[i + 1]) {
        Some((LengthModifier::PointerOffset, i + 1))
    } else if len - i >= 2 && bytes[i] == 76 && is_specifier(bytes[i + 1]) {
        Some((LengthModifier::Quadruple, i + 1))
    } else if len - i >= 1 && is_specifier(bytes[i]) {
        Some((LengthModifier::Full, i))
    } else {
        None
    }
}

fn specifier_segments(
    spec_byte: u8,
    flags: u8,
    width: Option<usize>,
    precision: Option<usize>,
    length: LengthModifier,
) -> (r: Vec<ConversionSegment>)
    ensures
        r@ == spec_specifier_segments(spec_byte, flags, width, precision, length),
{
    let capital = spec_byte == 88 || spec_byte == 70 || spec_byte == 69 || spec_byte == 65
        || spec_byte == 71;
    let nflags = FormatFlags {
        bits: (if capital {
            flags | FLAG_CAPITAL
        } else {
            flags
        }),
    };
    let format = NumericalFormat {
        padding: (match width {
            Some(w) => w,
            None => 0,
        }),
        precision: (match precision {
            Some(p) => p,
            None => 1,
        }),
        length,
        flags: nflags,
    };
    let mut out: Vec<ConversionSegment> = Vec::new();
    if spec_byte == 99 {
        out.push(ConversionSegment::Character { flags: nflags, padding: width });
    } else if spec_byte == 115 {
        out.push(ConversionSegment::Text { flags: nflags, padding: width, limit: precision });
    } else if spec_byte == 100 || spec_byte == 105 {
        out.push(ConversionSegment::Integer { format, type_: IntegerType::SignedDecimal });
    } else if spec_byte == 111 {
        out.push(ConversionSegment::Integer { format, type_: IntegerType::Octal });
    } else if spec_byte == 120 || spec_byte == 88 {
        out.push(ConversionSegment::Integer { format, type_: IntegerType::Hexadecimal });
    } else if spec_byte == 117 {
        out.push(ConversionSegment::Integer { format, type_: IntegerType::UnsignedDecimal });
    } else if spec_byte == 102 || spec_byte == 70 {
        out.push(ConversionSegment::Float { format, type_: FloatType::Normal });
    } else if spec_byte == 101 || spec_byte == 69 {
        out.push(ConversionSegment::Float { format, type_: FloatType::DecimalExponent });
    } else if spec_byte == 97 || spec_byte == 65 {
        out.push(ConversionSegment::Float { format, type_: FloatType::HexadecimalExponent });
    } else if spec_byte == 103 || spec_byte == 71 {
        out.push(ConversionSegment::Float { format, type_: FloatType::AutoExponent });
    }
    proof {
        assert(out@ =~= spec_specifier_segments(spec_byte, flags, width, precision, length));
    }
    out
}

fn conversion(bytes: &[u8], i: usize) -> (r: Option<(Vec<ConversionSegment>, usize)>)
    requires
        i < bytes@.len(),
        bytes@[i as int] == 37,
    ensures
        r is Some <==> spec_conversion(bytes@, i as int) is Some,
        r matches Some(v) ==> ({
            let sv = spec_conversion(bytes@, i as int);
            &&& sv matches Some(s) && v.0@ == s.0 && v.1 as int == s.1
            &&& i < v.1 <= bytes@.len()
        }),
{
    let len = bytes.len();
    let k = i + 1;
    if k < len && bytes[k] == 37 {
        let mut out: Vec<ConversionSegment> = Vec::new();
        out.push(ConversionSegment::Escape);
        proof {
            assert(out@ =~= seq![ConversionSegment::Escape]);
        }
        return Some((out, k + 1));
    }
    let (flags, fe) = scan_flags(bytes, k);
    let we = scan_digits(bytes, fe);
    let width = parse_number(bytes, fe, we);
    let mut pe = we;
    let mut precision: Option<usize> = None;
    if we < len && bytes[we] == 46 {
        let de = scan_digits(bytes, we + 1);
        if de > we + 1 {
            precision = parse_number(bytes, we + 1, de);
            pe = de;
        }
    }
    match length_mod(bytes, pe) {
        None => None,
        Some((length, se)) => {
            let segs = specifier_segments(bytes[se], flags, width, precision, length);
            Some((segs, se + 1))
        },
    }
}

/// Split a format string's bytes into literal runs, escapes and typed
/// conversion segments; a percent sign that begins no valid conversion
/// stays inside the surrounding literal run.
pub fn parse_segments(bytes: &[u8]) -> (r: Vec<ConversionSegment>)
    ensures
        r@ == spec_scan(bytes@, 0, 0),
{
    let mut out: Vec<ConversionSegment> = Vec::new();
    let mut i: usize = 0;
    let mut lit_start: usize = 0;
    while i < bytes.len()
        invariant
            lit_start <= i <= bytes@.len(),
            out@ + spec_scan(bytes@, i as int, lit_start as int) == spec_scan(bytes@, 0, 0),
        decreases bytes@.len() - i,
    {
        if bytes[i] != 37 {
            proof {
                assert(spec_scan(bytes@, i as int, lit_start as int) == spec_scan(
                    bytes@,
                    i as int + 1,
                    lit_start as int,
                ));
            }
            i = i + 1;
            continue ;
        }
        match conversion(bytes, i) {
            None => {
                proof {
                    assert(spec_scan(bytes@, i as int, lit_start as int) == spec_scan(
                        bytes@,
                        i as int + 1,
                        lit_start as int,
                    ));
                }
                i = i + 1;
            },
            Some((segs, ni)) => {
                let ghost pre = out@;
                if lit_start < i {
                    out.push(ConversionSegment::Literal { start: lit_start, end: i });
                }
                let mut s: usize = 0;
                while s < segs.len()
                    invariant
                        s <= segs@.len(),
                        out@ == pre + (if lit_start < i {
                            seq![
                                ConversionSegment::Literal {
                                    start: lit_start as usize,
                                    end: i as usize,
                                },
                            ]
                        } else {
                            Seq::empty()
                        }) + segs@.subrange(0, s as int),
                    decreases segs@.len() - s,
                {
                    out.push(segs[s]);
                    proof {
                        assert(segs@.subrange(0, s as int).push(segs@[s as int]) =~= segs@.subrange(
                            0,
                            s as int + 1,
                        ));
                    }
                    s = s + 1;
                }
                proof {
                    assert(segs@.subrange(0, segs@.len() as int) =~= segs@);
                }
                i = ni;
                lit_start = ni;
            },
        }
    }
    proof {
        assert(spec_scan(bytes@, bytes@.len() as int, lit_start as int) == (if lit_start
            < bytes@.len() {
            seq![
                ConversionSegment::Literal {
                    start: lit_start as usize,
                    end: bytes@.len() as usize,
                },
            ]
        } else {
            Seq::empty()
        }));
    }
    if lit_start < bytes.len() {
        out.push(ConversionSegment::Literal { start: lit_start, end: bytes.len() });
    }
    proof {
        assert(out@ =~= spec_scan(bytes@, 0, 0));
    }
    out
}

/// A format string together with its parsed segments. The literal segments
/// hold byte ranges of `raw`.
#[derive(Debug)]
pub struct FormatString {
    pub raw: String,
    pub parsed: Vec<ConversionSegment>,
}

impl FormatString {
    /// Parse a format string: the segments are `parse_segments` of the
    /// string's UTF-8 bytes, and the string itself is kept for the literal
    /// ranges to index into.
    pub fn from(value: String) -> (r: FormatString)
        ensures
            r.raw@ == value@,
            r.parsed@ == spec_scan(vstd::utf8::encode_utf8(value@), 0, 0),
    {
        let text = value.as_str();
        let bytes = text.as_bytes();
        proof {
            assert(bytes@ == vstd::utf8::encode_utf8(value@));
        }
        let parsed = parse_segments(bytes);
        FormatString { raw: value, parsed }
    }
}

} // verus!
