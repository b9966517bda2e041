//! The values that governance parameters take.
//!
//! Numbers with a fraction are kept as whole numbers of hundred-millionths,
//! the scale at which one satoshi is one unit of a bitcoin amount.

use vstd::prelude::*;
use vstd::string::*;

verus! {

/// How many units of a fixed-point number make one.
pub const FIXED_ONE: u64 = 100_000_000;

/// The value of a governance parameter.
#[derive(Debug)]
pub enum ConfigValue {
    /// No value.
    Null,
    /// A flag.
    Bool(bool),
    /// A whole number that is not negative.
    PosInt(u64),
    /// A whole number below zero.
    NegInt(i64),
    /// A number with a fraction, in hundred-millionths.
    Fixed(i64),
    /// A text.
    Text(String),
    /// A list or an object, as its JSON text.
    Json(String),
}

/// A parameter value as mathematical data.
pub enum ConfigValueView {
    Null,
    Bool(bool),
    PosInt(u64),
    NegInt(i64),
    Fixed(i64),
    Text(Seq<char>),
    Json(Seq<char>),
}

impl View for ConfigValue {
    type V = ConfigValueView;

    open spec fn view(&self) -> ConfigValueView {
        match *self {
            ConfigValue::Null => ConfigValueView::Null,
            ConfigValue::Bool(b) => ConfigValueView::Bool(b),
            ConfigValue::PosInt(n) => ConfigValueView::PosInt(n),
            ConfigValue::NegInt(n) => ConfigValueView::NegInt(n),
            ConfigValue::Fixed(n) => ConfigValueView::Fixed(n),
            ConfigValue::Text(s) => ConfigValueView::Text(s@),
            ConfigValue::Json(s) => ConfigValueView::Json(s@),
        }
    }
}

impl ConfigValueView {
    /// The whole number that the value holds, where it holds one.
    pub open spec fn as_integer(self) -> Option<int> {
        match self {
            ConfigValueView::PosInt(n) => Some(n as int),
            ConfigValueView::NegInt(n) => Some(n as int),
            _ => None,
        }
    }

    /// The value as a signed 32-bit number: a whole number in that range.
    pub open spec fn as_i32(self) -> Option<i32> {
        match self.as_integer() {
            Some(n) => if i32::MIN <= n <= i32::MAX {
                Some(n as i32)
            } else {
                None
            },
            None => None,
        }
    }

    /// The value as an unsigned 32-bit number: a whole number in that range.
    pub open spec fn as_u32(self) -> Option<u32> {
        match self.as_integer() {
            Some(n) => if 0 <= n <= u32::MAX {
                Some(n as u32)
            } else {
                None
            },
            None => None,
        }
    }

    /// The value as a fixed-point number: a number with a fraction as it
    /// stands, a whole number times the scale where that fits.
    pub open spec fn as_fixed(self) -> Option<i64> {
        match self {
            ConfigValueView::Fixed(n) => Some(n),
            _ => match self.as_integer() {
                Some(n) => if i64::MIN <= n * FIXED_ONE <= i64::MAX {
                    Some((n * FIXED_ONE) as i64)
                } else {
                    None
                },
                None => None,
            },
        }
    }

    /// The value as a flag.
    pub open spec fn as_bool(self) -> Option<bool> {
        match self {
            ConfigValueView::Bool(b) => Some(b),
            _ => None,
        }
    }

    /// The value as a text.
    pub open spec fn as_text(self) -> Option<Seq<char>> {
        match self {
            ConfigValueView::Text(s) => Some(s),
            _ => None,
        }
    }
}

/// An optional text as an optional character sequence.
pub open spec fn opt_text(o: Option<String>) -> Option<Seq<char>> {
    match o {
        Some(s) => Some(s@),
        None => None,
    }
}

/// An optional string slice as an optional character sequence.
pub open spec fn opt_str(o: Option<&str>) -> Option<Seq<char>> {
    match o {
        Some(s) => Some(s@),
        None => None,
    }
}

/// A copy of an optional text.
pub fn copy_opt_text(o: &Option<String>) -> (c: Option<String>)
    ensures
        opt_text(c) == opt_text(*o),
{
    match o {
        Some(s) => Some(s.clone()),
        None => None,
    }
}

/// An owned copy of an optional string slice.
pub fn own_opt_str(o: Option<&str>) -> (c: Option<String>)
    ensures
        opt_text(c) == opt_str(o),
{
    match o {
        Some(s) => Some(s.to_owned()),
        None => None,
    }
}

impl ConfigValue {
    /// A copy of the value.
    pub fn duplicate(&self) -> (c: ConfigValue)
        ensures
            c@ == self@,
    {
        match self {
            ConfigValue::Null => ConfigValue::Null,
            ConfigValue::Bool(b) => ConfigValue::Bool(*b),
            ConfigValue::PosInt(n) => ConfigValue::PosInt(*n),
            ConfigValue::NegInt(n) => ConfigValue::NegInt(*n),
            ConfigValue::Fixed(n) => ConfigValue::Fixed(*n),
            ConfigValue::Text(s) => ConfigValue::Text(s.clone()),
            ConfigValue::Json(s) => ConfigValue::Json(s.clone()),
        }
    }

    /// Whether two values are the same.
    pub fn same(&self, other: &ConfigValue) -> (same: bool)
        ensures
            same == (self@ == other@),
    {
        match (self, other) {
            (ConfigValue::Null, ConfigValue::Null) => true,
            (ConfigValue::Bool(a), ConfigValue::Bool(b)) => *a == *b,
            (ConfigValue::PosInt(a), ConfigValue::PosInt(b)) => *a == *b,
            (ConfigValue::NegInt(a), ConfigValue::NegInt(b)) => *a == *b,
            (ConfigValue::Fixed(a), ConfigValue::Fixed(b)) => *a == *b,
            (ConfigValue::Text(a), ConfigValue::Text(b)) => *a == *b,
            (ConfigValue::Json(a), ConfigValue::Json(b)) => *a == *b,
            _ => false,
        }
    }

    /// The value as a signed 32-bit number.
    pub fn to_i32(&self) -> (n: Option<i32>)
        ensures
            n == self@.as_i32(),
    {
        match self {
            ConfigValue::PosInt(v) => if *v <= 0x7fff_ffff {
                Some(*v as i32)
            } else {
                None
            },
            ConfigValue::NegInt(v) => if -0x8000_0000 <= *v && *v <= 0x7fff_ffff {
                Some(*v as i32)
            } else {
                None
            },
            _ => None,
        }
    }

    /// The value as an unsigned 32-bit number.
    pub fn to_u32(&self) -> (n: Option<u32>)
        ensures
            n == self@.as_u32(),
    {
        match self {
            ConfigValue::PosInt(v) => if *v <= 0xffff_ffff {
                Some(*v as u32)
            } else {
                None
            },
            ConfigValue::NegInt(v) => if 0 <= *v && *v <= 0xffff_ffff {
                Some(*v as u32)
            } else {
                None
            },
            _ => None,
        }
    }

    /// The value as a fixed-point number.
    pub fn to_fixed(&self) -> (n: Option<i64>)
        ensures
            n == self@.as_fixed(),
    {
        match self {
            ConfigValue::Fixed(v) => Some(*v),
            ConfigValue::PosInt(v) => {
                let limit: u64 = 0x7fff_ffff_ffff_ffff / FIXED_ONE;
                if *v <= limit {
                    Some((*v * FIXED_ONE) as i64)
                } else {
                    None
                }
            },
            ConfigValue::NegInt(v) => {
                let wide: i128 = (*v as i128) * (FIXED_ONE as i128);
                if -0x8000_0000_0000_0000 <= wide && wide <= 0x7fff_ffff_ffff_ffff {
                    Some(wide as i64)
                } else {
                    None
                }
            },
            _ => None,
        }
    }

    /// The value as a flag.
    pub fn to_bool(&self) -> (b: Option<bool>)
        ensures
            b == self@.as_bool(),
    {
        match self {
            ConfigValue::Bool(v) => Some(*v),
            _ => None,
        }
    }

    /// The value as a text.
    pub fn to_text(&self) -> (s: Option<String>)
        ensures
            opt_text(s) == self@.as_text(),
    {
        match self {
            ConfigValue::Text(v) => Some(v.clone()),
            _ => None,
        }
    }
}

} // verus!
