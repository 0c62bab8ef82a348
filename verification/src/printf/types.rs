//! The data a format directive carries: flags, width, precision and the
//! typed argument it formats.

use vstd::prelude::*;

verus! {

/// The flag characters a directive may open with.
#[derive(Debug, Clone, Copy, PartialEq, Eq, Structural)]
pub struct Flags {
    /// `-`: left-align the output inside its width.
    pub left_align: bool,
    /// `+`: prepend a plus to non-negative signed numbers.
    pub prepend_plus: bool,
    /// ` `: prepend a space to non-negative signed numbers; ignored when
    /// `prepend_plus` is set.
    pub prepend_space: bool,
    /// `0`: pad numbers with zeros instead of spaces.
    pub prepend_zero: bool,
    /// `'`: thousands grouping; accepted and not rendered.
    pub thousands_grouping: bool,
    /// `#`: alternate form for octal, hex and floating formats.
    pub alternate_form: bool,
}

impl Flags {
    /// No flag set.
    pub fn empty() -> (r: Flags)
        ensures
            r == Flags::spec_empty(),
    {
        Flags {
            left_align: false,
            prepend_plus: false,
            prepend_space: false,
            prepend_zero: false,
            thousands_grouping: false,
            alternate_form: false,
        }
    }

    pub open spec fn spec_empty() -> Flags {
        Flags {
            left_align: false,
            prepend_plus: false,
            prepend_space: false,
            prepend_zero: false,
            thousands_grouping: false,
            alternate_form: false,
        }
    }
}

/// Which floating-point conversion a directive named.
#[derive(Debug, Clone, Copy, PartialEq, Eq, Structural)]
pub enum DoubleFormat {
    /// `f`
    Normal,
    /// `F`
    UpperNormal,
    /// `e`
    Scientific,
    /// `E`
    UpperScientific,
    /// `g`
    Auto,
    /// `G`
    UpperAuto,
    /// `a`
    Hex,
    /// `A`
    UpperHex,
}

impl DoubleFormat {
    pub open spec fn spec_is_upper(self) -> bool {
        self == DoubleFormat::UpperNormal || self == DoubleFormat::UpperScientific || self
            == DoubleFormat::UpperAuto || self == DoubleFormat::UpperHex
    }

    /// Whether the conversion letter was upper case.
    pub fn is_upper(self) -> (r: bool)
        ensures
            r == self.spec_is_upper(),
    {
        match self {
            DoubleFormat::UpperNormal => true,
            DoubleFormat::UpperScientific => true,
            DoubleFormat::UpperAuto => true,
            DoubleFormat::UpperHex => true,
            _ => false,
        }
    }

    pub open spec fn spec_set_upper(self, upper: bool) -> DoubleFormat {
        match self {
            DoubleFormat::Normal | DoubleFormat::UpperNormal => if upper {
                DoubleFormat::UpperNormal
            } else {
                DoubleFormat::Normal
            },
            DoubleFormat::Scientific | DoubleFormat::UpperScientific => if upper {
                DoubleFormat::UpperScientific
            } else {
                DoubleFormat::Scientific
            },
            DoubleFormat::Auto | DoubleFormat::UpperAuto => if upper {
                DoubleFormat::UpperAuto
            } else {
                DoubleFormat::Auto
            },
            DoubleFormat::Hex | DoubleFormat::UpperHex => if upper {
                DoubleFormat::UpperHex
            } else {
                DoubleFormat::Hex
            },
        }
    }

    /// The same conversion with its case forced to `upper`.
    pub fn set_upper(self, upper: bool) -> (r: DoubleFormat)
        ensures
            r == self.spec_set_upper(upper),
            r.spec_is_upper() == upper,
    {
        match self {
            DoubleFormat::Normal | DoubleFormat::UpperNormal => if upper {
                DoubleFormat::UpperNormal
            } else {
                DoubleFormat::Normal
            },
            DoubleFormat::Scientific | DoubleFormat::UpperScientific => if upper {
                DoubleFormat::UpperScientific
            } else {
                DoubleFormat::Scientific
            },
            DoubleFormat::Auto | DoubleFormat::UpperAuto => if upper {
                DoubleFormat::UpperAuto
            } else {
                DoubleFormat::Auto
            },
            DoubleFormat::Hex | DoubleFormat::UpperHex => if upper {
                DoubleFormat::UpperHex
            } else {
                DoubleFormat::Hex
            },
        }
    }
}

/// A signed integer argument, tagged with the length modifier it was read
/// under.
#[derive(Debug, Clone, Copy, PartialEq, Eq, Structural)]
pub enum SignedInt {
    Int(i32),
    Char(i8),
    Short(i16),
    Long(i64),
    LongLong(i64),
    Isize(isize),
}

impl SignedInt {
    /// The argument's numeric value.
    pub open spec fn spec_value(self) -> int {
        match self {
            SignedInt::Int(x) => x as int,
            SignedInt::Char(x) => x as int,
            SignedInt::Short(x) => x as int,
            SignedInt::Long(x) => x as int,
            SignedInt::LongLong(x) => x as int,
            SignedInt::Isize(x) => x as int,
        }
    }

    /// The value widened to 64 bits.
    pub fn to_i64(self) -> (r: i64)
        ensures
            r as int == self.spec_value(),
    {
        match self {
            SignedInt::Int(x) => x as i64,
            SignedInt::Char(x) => x as i64,
            SignedInt::Short(x) => x as i64,
            SignedInt::Long(x) => x,
            SignedInt::LongLong(x) => x,
            SignedInt::Isize(x) => x as i64,
        }
    }

    /// Whether the value is negative.
    pub fn is_sign_negative(self) -> (r: bool)
        ensures
            r == (self.spec_value() < 0),
    {
        match self {
            SignedInt::Int(x) => x < 0,
            SignedInt::Char(x) => x < 0,
            SignedInt::Short(x) => x < 0,
            SignedInt::Long(x) => x < 0,
            SignedInt::LongLong(x) => x < 0,
            SignedInt::Isize(x) => x < 0,
        }
    }
}

/// An unsigned integer argument, tagged with the length modifier it was
/// read under.
#[derive(Debug, Clone, Copy, PartialEq, Eq, Structural)]
pub enum UnsignedInt {
    Int(u32),
    Char(u8),
    Short(u16),
    Long(u64),
    LongLong(u64),
    Isize(usize),
}

impl UnsignedInt {
    /// The argument's numeric value.
    pub open spec fn spec_value(self) -> nat {
        match self {
            UnsignedInt::Int(x) => x as nat,
            UnsignedInt::Char(x) => x as nat,
            UnsignedInt::Short(x) => x as nat,
            UnsignedInt::Long(x) => x as nat,
            UnsignedInt::LongLong(x) => x as nat,
            UnsignedInt::Isize(x) => x as nat,
        }
    }

    /// The value widened to 64 bits.
    pub fn to_u64(self) -> (r: u64)
        ensures
            r as nat == self.spec_value(),
    {
        match self {
            UnsignedInt::Int(x) => x as u64,
            UnsignedInt::Char(x) => x as u64,
            UnsignedInt::Short(x) => x as u64,
            UnsignedInt::Long(x) => x,
            UnsignedInt::LongLong(x) => x,
            UnsignedInt::Isize(x) => x as u64,
        }
    }
}

/// The typed payload of one conversion directive.
#[derive(Debug, Clone, PartialEq, Eq)]
pub enum Specifier {
    /// `%%`
    Percent,
    /// `d`, `i`
    Int(SignedInt),
    /// `u`
    Uint(UnsignedInt),
    /// `o`
    Octal(UnsignedInt),
    /// `f`, `F`, `e`, `E`, `g`, `G`, `a`, `A`; the value is carried as its
    /// raw IEEE-754 bit pattern.
    Double { bits: u64, format: DoubleFormat },
    /// Literal text between directives.
    Bytes(Vec<u8>),
    /// `s`: the bytes of a NUL-terminated guest string, without the NUL.
    String(Vec<u8>),
    /// `c`
    Char(u8),
    /// `x`
    Hex(UnsignedInt),
    /// `X`
    UpperHex(UnsignedInt),
    /// `p`
    Pointer(u32),
    /// `n`: recognised and refused by the renderer.
    WriteBytesWritten(u32),
}

/// One parsed directive: its flags, width, precision and payload.
#[derive(Debug, Clone, PartialEq, Eq)]
pub struct Argument {
    pub flags: Flags,
    pub width: i32,
    pub precision: Option<i32>,
    pub specifier: Specifier,
}

impl Argument {
    /// An argument with no flags, no width and no precision.
    pub fn plain(specifier: Specifier) -> (r: Argument)
        ensures
            r.flags == Flags::spec_empty(),
            r.width == 0,
            r.precision is None,
            r.specifier == specifier,
    {
        Argument { flags: Flags::empty(), width: 0, precision: None, specifier }
    }
}

} // verus!
