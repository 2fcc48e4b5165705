//! Pieces shared by the decoders: byte ranges, sums of bytes, text that is
//! cleaned of unprintable bytes, and the labels of enumerated status bytes.

use vstd::prelude::*;
use crate::mmc_ioc_cmd::SDBlock;

verus! {

/// `b` is a printable ASCII character.
pub open spec fn is_printable(b: u8) -> bool {
    0x20 <= b <= 0x7e
}

/// `b` itself where it is printable, else an underscore.
pub open spec fn sanitize_byte(b: u8) -> u8 {
    if is_printable(b) {
        b
    } else {
        0x5f
    }
}

/// `s` with every unprintable byte replaced by an underscore.
pub open spec fn sanitized(s: Seq<u8>) -> Seq<u8> {
    s.map_values(|b: u8| sanitize_byte(b))
}

/// The characters of the ASCII bytes `s`, one for each.
pub open spec fn ascii_chars(s: Seq<u8>) -> Seq<char> {
    s.map_values(|b: u8| b as char)
}

/// The sum of the bytes of `s` from `lo` up to, not including, `hi`.
pub open spec fn byte_sum(s: Seq<u8>, lo: int, hi: int) -> int
    decreases hi - lo,
{
    if hi <= lo {
        0
    } else {
        byte_sum(s, lo, hi - 1) + s[hi - 1]
    }
}

/// `bytes` with every byte outside the printable ASCII range replaced by `_`.
pub fn sanitize_ascii(bytes: &[u8]) -> (r: Vec<u8>)
    ensures
        r@ == sanitized(bytes@),
{
    let mut r: Vec<u8> = Vec::new();
    let mut i: usize = 0;
    while i < bytes.len()
        invariant
            i <= bytes@.len(),
            r@ == sanitized(bytes@.subrange(0, i as int)),
        decreases bytes@.len() - i,
    {
        let b = bytes[i];
        let c: u8 = if 0x20 <= b && b <= 0x7e {
            b
        } else {
            0x5f
        };
        r.push(c);
        i = i + 1;
        assert(sanitized(bytes@.subrange(0, i as int)) =~= sanitized(
            bytes@.subrange(0, i - 1),
        ).push(c));
    }
    assert(bytes@.subrange(0, i as int) =~= bytes@);
    r
}

/// Relies on String::from_utf8: a sequence of ASCII bytes is valid UTF-8,
/// and each byte becomes the one character of that code.
#[verifier::external_body]
fn ascii_to_string(bytes: Vec<u8>) -> (r: String)
    requires
        forall|i: int| 0 <= i < bytes@.len() ==> bytes@[i] < 0x80,
    ensures
        r@ == ascii_chars(bytes@),
{
    String::from_utf8(bytes).unwrap_or_default()
}

/// `bytes` read as text, with every unprintable byte shown as `_`: never
/// fails, whatever the bytes.
pub fn ascii_text(bytes: &[u8]) -> (r: String)
    ensures
        r@ == ascii_chars(sanitized(bytes@)),
{
    let clean = sanitize_ascii(bytes);
    ascii_to_string(clean)
}

/// The bytes of `block` from `lo` up to, not including, `hi`.
pub fn block_range(block: &SDBlock, lo: usize, hi: usize) -> (r: Vec<u8>)
    requires
        lo <= hi <= block@.len(),
    ensures
        r@ == block@.subrange(lo as int, hi as int),
{
    let mut r: Vec<u8> = Vec::new();
    let mut i: usize = lo;
    while i < hi
        invariant
            lo <= i <= hi <= block@.len(),
            r@ == block@.subrange(lo as int, i as int),
        decreases hi - i,
    {
        r.push(block[i]);
        i = i + 1;
        assert(r@ =~= block@.subrange(lo as int, i as int));
    }
    r
}

/// The text held by the bytes of `block` from `lo` up to, not including,
/// `hi`, with every unprintable byte shown as `_`.
pub fn block_text(block: &SDBlock, lo: usize, hi: usize) -> (r: String)
    requires
        lo <= hi <= block@.len(),
    ensures
        r@ == ascii_chars(sanitized(block@.subrange(lo as int, hi as int))),
{
    let bytes = block_range(block, lo, hi);
    ascii_text(bytes.as_slice())
}

/// The sum of the bytes of `block` from `lo` up to, not including, `hi`.
pub fn block_sum(block: &SDBlock, lo: usize, hi: usize) -> (r: u16)
    requires
        lo <= hi <= block@.len(),
        hi - lo <= 257,
    ensures
        r == byte_sum(block@, lo as int, hi as int),
{
    let mut r: u16 = 0;
    let mut i: usize = lo;
    while i < hi
        invariant
            lo <= i <= hi <= block@.len(),
            hi - lo <= 257,
            r == byte_sum(block@, lo as int, i as int),
            r <= 255 * (i - lo),
        decreases hi - i,
    {
        r = r + block[i] as u16;
        i = i + 1;
    }
    r
}

/// The data bus width that a card reports.
#[derive(Clone, Copy, Debug, PartialEq, Eq, Structural)]
pub enum BusWidth {
    OneBit,
    FourBits,
    Unknown(u8),
}

pub open spec fn bus_width_of(b: u8) -> BusWidth {
    if b == 0x00 {
        BusWidth::OneBit
    } else if b == 0x10 {
        BusWidth::FourBits
    } else {
        BusWidth::Unknown(b)
    }
}

pub open spec fn bus_width_label(w: BusWidth) -> Seq<char> {
    match w {
        BusWidth::OneBit => "1 bit"@,
        BusWidth::FourBits => "4 bits"@,
        BusWidth::Unknown(_) => "unknown"@,
    }
}

impl BusWidth {
    pub fn from_byte(b: u8) -> (r: BusWidth)
        ensures
            r == bus_width_of(b),
    {
        match b {
            0x00 => BusWidth::OneBit,
            0x10 => BusWidth::FourBits,
            _ => BusWidth::Unknown(b),
        }
    }

    /// The label shown for this width; an unknown one also keeps its raw byte.
    pub fn label(&self) -> (r: &'static str)
        ensures
            r@ == bus_width_label(*self),
    {
        match self {
            BusWidth::OneBit => "1 bit",
            BusWidth::FourBits => "4 bits",
            BusWidth::Unknown(_) => "unknown",
        }
    }
}

/// The bus speed mode that a Swissbit card reports.
#[derive(Clone, Copy, Debug, PartialEq, Eq, Structural)]
pub enum SpeedMode {
    Default,
    High,
    Sdr12,
    Sdr25,
    Sdr50,
    Ddr50,
    Sdr104,
    Unknown(u8),
}

pub open spec fn speed_mode_of(b: u8) -> SpeedMode {
    if b == 0x00 {
        SpeedMode::Default
    } else if b == 0x01 {
        SpeedMode::High
    } else if b == 0x10 {
        SpeedMode::Sdr12
    } else if b == 0x11 {
        SpeedMode::Sdr25
    } else if b == 0x12 {
        SpeedMode::Sdr50
    } else if b == 0x14 {
        SpeedMode::Ddr50
    } else if b == 0x18 {
        SpeedMode::Sdr104
    } else {
        SpeedMode::Unknown(b)
    }
}

pub open spec fn speed_mode_label(m: SpeedMode) -> Seq<char> {
    match m {
        SpeedMode::Default => "Default speed"@,
        SpeedMode::High => "High speed"@,
        SpeedMode::Sdr12 => "SDR12 speed"@,
        SpeedMode::Sdr25 => "SDR25 speed"@,
        SpeedMode::Sdr50 => "SDR50 speed"@,
        SpeedMode::Ddr50 => "DDR50 speed"@,
        SpeedMode::Sdr104 => "SDR104 speed"@,
        SpeedMode::Unknown(_) => "unknown"@,
    }
}

impl SpeedMode {
    pub fn from_byte(b: u8) -> (r: SpeedMode)
        ensures
            r == speed_mode_of(b),
    {
        match b {
            0x00 => SpeedMode::Default,
            0x01 => SpeedMode::High,
            0x10 => SpeedMode::Sdr12,
            0x11 => SpeedMode::Sdr25,
            0x12 => SpeedMode::Sdr50,
            0x14 => SpeedMode::Ddr50,
            0x18 => SpeedMode::Sdr104,
            _ => SpeedMode::Unknown(b),
        }
    }

    /// The label shown for this mode; an unknown one also keeps its raw byte.
    pub fn label(&self) -> (r: &'static str)
        ensures
            r@ == speed_mode_label(*self),
    {
        match self {
            SpeedMode::Default => "Default speed",
            SpeedMode::High => "High speed",
            SpeedMode::Sdr12 => "SDR12 speed",
            SpeedMode::Sdr25 => "SDR25 speed",
            SpeedMode::Sdr50 => "SDR50 speed",
            SpeedMode::Ddr50 => "DDR50 speed",
            SpeedMode::Sdr104 => "SDR104 speed",
            SpeedMode::Unknown(_) => "unknown",
        }
    }
}

/// The speed class that a card reports.
#[derive(Clone, Copy, Debug, PartialEq, Eq, Structural)]
pub enum SpeedClass {
    Class0,
    Class2,
    Class4,
    Class6,
    Class10,
    Unknown(u8),
}

pub open spec fn speed_class_of(b: u8) -> SpeedClass {
    if b == 0x00 {
        SpeedClass::Class0
    } else if b == 0x01 {
        SpeedClass::Class2
    } else if b == 0x02 {
        SpeedClass::Class4
    } else if b == 0x03 {
        SpeedClass::Class6
    } else if b == 0x04 {
        SpeedClass::Class10
    } else {
        SpeedClass::Unknown(b)
    }
}

pub open spec fn speed_class_label(c: SpeedClass) -> Seq<char> {
    match c {
        SpeedClass::Class0 => "Class 0"@,
        SpeedClass::Class2 => "Class 2"@,
        SpeedClass::Class4 => "Class 4"@,
        SpeedClass::Class6 => "Class 6"@,
        SpeedClass::Class10 => "Class 10"@,
        SpeedClass::Unknown(_) => "unknown"@,
    }
}

impl SpeedClass {
    pub fn from_byte(b: u8) -> (r: SpeedClass)
        ensures
            r == speed_class_of(b),
    {
        match b {
            0x00 => SpeedClass::Class0,
            0x01 => SpeedClass::Class2,
            0x02 => SpeedClass::Class4,
            0x03 => SpeedClass::Class6,
            0x04 => SpeedClass::Class10,
            _ => SpeedClass::Unknown(b),
        }
    }

    /// The label shown for this class; an unknown one also keeps its raw byte.
    pub fn label(&self) -> (r: &'static str)
        ensures
            r@ == speed_class_label(*self),
    {
        match self {
            SpeedClass::Class0 => "Class 0",
            SpeedClass::Class2 => "Class 2",
            SpeedClass::Class4 => "Class 4",
            SpeedClass::Class6 => "Class 6",
            SpeedClass::Class10 => "Class 10",
            SpeedClass::Unknown(_) => "unknown",
        }
    }
}

/// The UHS speed grade that a card reports.
#[derive(Clone, Copy, Debug, PartialEq, Eq, Structural)]
pub enum UhsGrade {
    Below10,
    From10,
    From30,
    Unknown(u8),
}

pub open spec fn uhs_grade_of(b: u8) -> UhsGrade {
    if b == 0x00 {
        UhsGrade::Below10
    } else if b == 0x01 {
        UhsGrade::From10
    } else if b == 0x03 {
        UhsGrade::From30
    } else {
        UhsGrade::Unknown(b)
    }
}

pub open spec fn uhs_grade_label(g: UhsGrade) -> Seq<char> {
    match g {
        UhsGrade::Below10 => "Less than 10MB/s"@,
        UhsGrade::From10 => "10MB/s and higher"@,
        UhsGrade::From30 => "30MB/s and higher"@,
        UhsGrade::Unknown(_) => "unknown"@,
    }
}

impl UhsGrade {
    pub fn from_byte(b: u8) -> (r: UhsGrade)
        ensures
            r == uhs_grade_of(b),
    {
        match b {
            0x00 => UhsGrade::Below10,
            0x01 => UhsGrade::From10,
            0x03 => UhsGrade::From30,
            _ => UhsGrade::Unknown(b),
        }
    }

    /// The label shown for this grade; an unknown one also keeps its raw byte.
    pub fn label(&self) -> (r: &'static str)
        ensures
            r@ == uhs_grade_label(*self),
    {
        match self {
            UhsGrade::Below10 => "Less than 10MB/s",
            UhsGrade::From10 => "10MB/s and higher",
            UhsGrade::From30 => "30MB/s and higher",
            UhsGrade::Unknown(_) => "unknown",
        }
    }
}

} // verus!
