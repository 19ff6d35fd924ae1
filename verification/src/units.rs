//! Display units for amounts of data, and numbers with two fractional digits.
//!
//! Every number is an integer here. A percentage or a temperature is a count
//! of hundredths; an amount of data is a count of bytes, scaled to hundredths
//! of the display unit only when it is rendered.

use crate::text::{decimal, decimal_text, digit, digit_text, owned};
use vstd::prelude::*;
use vstd::string::*;

verus! {

/// The unit in which an amount of data is displayed.
#[derive(Debug, Clone, Copy, PartialEq, Eq, Structural)]
pub enum DataUnit {
    Bits,
    Bytes,
    Kb,
    Kib,
    Mb,
    Mib,
    Gb,
    Gib,
    Tb,
    Tib,
}

impl DataUnit {
    /// The unit's name as it is written on the command line.
    pub open spec fn spec_name(self) -> Seq<char> {
        match self {
            DataUnit::Bits => "bits"@,
            DataUnit::Bytes => "bytes"@,
            DataUnit::Kb => "kb"@,
            DataUnit::Kib => "kib"@,
            DataUnit::Mb => "mb"@,
            DataUnit::Mib => "mib"@,
            DataUnit::Gb => "gb"@,
            DataUnit::Gib => "gib"@,
            DataUnit::Tb => "tb"@,
            DataUnit::Tib => "tib"@,
        }
    }

    /// How many bytes make one unit. A bit is an eighth of a byte, so `Bits`
    /// has a divisor of its own, `per_byte`.
    pub open spec fn bytes_per_unit(self) -> nat {
        match self {
            DataUnit::Bits => 1,
            DataUnit::Bytes => 1,
            DataUnit::Kb => 1_000,
            DataUnit::Kib => 1_024,
            DataUnit::Mb => 1_000_000,
            DataUnit::Mib => 1_048_576,
            DataUnit::Gb => 1_000_000_000,
            DataUnit::Gib => 1_073_741_824,
            DataUnit::Tb => 1_000_000_000_000,
            DataUnit::Tib => 1_099_511_627_776,
        }
    }

    /// How many units make one byte: 8 for `Bits`, 1 for every other unit.
    pub open spec fn per_byte(self) -> nat {
        match self {
            DataUnit::Bits => 8,
            _ => 1,
        }
    }

    /// Whether a value in this unit is rendered without fractional digits.
    pub open spec fn is_whole(self) -> bool {
        self == DataUnit::Bits || self == DataUnit::Bytes
    }

    /// The unit's name as it is written on the command line.
    pub fn name(&self) -> (r: &'static str)
        ensures
            r@ == self.spec_name(),
    {
        match self {
            DataUnit::Bits => "bits",
            DataUnit::Bytes => "bytes",
            DataUnit::Kb => "kb",
            DataUnit::Kib => "kib",
            DataUnit::Mb => "mb",
            DataUnit::Mib => "mib",
            DataUnit::Gb => "gb",
            DataUnit::Gib => "gib",
            DataUnit::Tb => "tb",
            DataUnit::Tib => "tib",
        }
    }

    fn divisor(&self) -> (r: u128)
        ensures
            r == self.bytes_per_unit(),
    {
        match self {
            DataUnit::Bits => 1,
            DataUnit::Bytes => 1,
            DataUnit::Kb => 1_000,
            DataUnit::Kib => 1_024,
            DataUnit::Mb => 1_000_000,
            DataUnit::Mib => 1_048_576,
            DataUnit::Gb => 1_000_000_000,
            DataUnit::Gib => 1_073_741_824,
            DataUnit::Tb => 1_000_000_000_000,
            DataUnit::Tib => 1_099_511_627_776,
        }
    }

    fn multiplier(&self) -> (r: u128)
        ensures
            r == self.per_byte(),
    {
        match self {
            DataUnit::Bits => 8,
            _ => 1,
        }
    }
}

/// `n / d` rounded to the nearest integer, an exact half to the even neighbour.
pub open spec fn rounded_quotient(n: nat, d: nat) -> nat {
    let q = n / d;
    let r = n % d;
    if 2 * r > d || (2 * r == d && q % 2 == 1) {
        q + 1
    } else {
        q
    }
}

/// `bytes` in `unit`, as a count of hundredths of the unit.
pub open spec fn scaled(bytes: nat, unit: DataUnit) -> nat {
    rounded_quotient(bytes * unit.per_byte() * 100, unit.bytes_per_unit())
}

/// A count of hundredths written with two fractional digits.
pub open spec fn two_places(h: nat) -> Seq<char> {
    decimal(h / 100) + seq!['.', digit((h / 10 % 10) as int), digit((h % 10) as int)]
}

/// A signed count of hundredths written with two fractional digits.
pub open spec fn signed_two_places(h: int) -> Seq<char> {
    if h < 0 {
        seq!['-'] + two_places((-h) as nat)
    } else {
        two_places(h as nat)
    }
}

/// `bytes` rendered in `unit`: a whole number for bits and bytes, two
/// fractional digits for every larger unit.
pub open spec fn data_text(bytes: nat, unit: DataUnit) -> Seq<char> {
    if unit.is_whole() {
        decimal(bytes * unit.per_byte())
    } else {
        two_places(scaled(bytes, unit))
    }
}

/// Renders a count of hundredths with two fractional digits.
pub fn two_places_text(h: u128) -> (r: String)
    ensures
        r@ == two_places(h as nat),
{
    proof {
        reveal_strlit(".");
    }
    let mut r = decimal_text(h / 100);
    r.append(".");
    r.append(digit_text((h / 10 % 10) as u8));
    r.append(digit_text((h % 10) as u8));
    r
}

/// A number with two fractional digits, held as its count of hundredths: a
/// percentage, a load average, a temperature.
#[derive(Debug, Clone, Copy, PartialEq, Eq, Structural)]
pub struct Hundredths(pub i64);

impl Hundredths {
    /// The number as text with exactly two fractional digits.
    pub open spec fn text(self) -> Seq<char> {
        signed_two_places(self.0 as int)
    }

    /// Renders the number with exactly two fractional digits.
    pub fn render(&self) -> (r: String)
        ensures
            r@ == self.text(),
    {
        if self.0 < 0 {
            proof {
                reveal_strlit("-");
            }
            let magnitude: u128 = (-(self.0 as i128)) as u128;
            let mut r = owned("-");
            let digits = two_places_text(magnitude);
            r.append(digits.as_str());
            r
        } else {
            two_places_text(self.0 as u128)
        }
    }
}

/// An amount of data together with the unit in which it is displayed.
#[derive(Debug, Clone, Copy, PartialEq, Eq, Structural)]
pub struct DataValue {
    bytes: u64,
    unit: DataUnit,
}

impl DataValue {
    /// The amount, in bytes.
    pub closed spec fn spec_bytes(self) -> nat {
        self.bytes as nat
    }

    /// The display unit.
    pub closed spec fn spec_unit(self) -> DataUnit {
        self.unit
    }

    /// An amount of `value` bytes, to be displayed in `unit`.
    pub fn from_bytes(value: u64, unit: DataUnit) -> (r: Self)
        ensures
            r.spec_bytes() == value,
            r.spec_unit() == unit,
    {
        DataValue { bytes: value, unit }
    }

    /// The amount in the display unit, as a count of hundredths.
    pub fn hundredths(&self) -> (r: u128)
        ensures
            r == scaled(self.spec_bytes(), self.spec_unit()),
    {
        let n: u128 = (self.bytes as u128) * self.unit.multiplier() * 100;
        let d: u128 = self.unit.divisor();
        let q: u128 = n / d;
        let r: u128 = n % d;
        if 2 * r > d || (2 * r == d && q % 2 == 1) {
            q + 1
        } else {
            q
        }
    }

    /// Renders the amount in its unit: a whole number of bits or bytes, two
    /// fractional digits in every larger unit.
    pub fn value_str(&self) -> (r: String)
        ensures
            r@ == data_text(self.spec_bytes(), self.spec_unit()),
    {
        match self.unit {
            DataUnit::Bits | DataUnit::Bytes => decimal_text(
                (self.bytes as u128) * self.unit.multiplier(),
            ),
            _ => two_places_text(self.hundredths()),
        }
    }

    pub fn unit(&self) -> (r: DataUnit)
        ensures
            r == self.spec_unit(),
    {
        self.unit
    }
}

/// In bytes, the text is the byte count itself.
pub proof fn lemma_bytes_are_raw(bytes: nat)
    ensures
        data_text(bytes, DataUnit::Bytes) == decimal(bytes),
{
}

/// The hundredths of a scaled amount are the nearest to the exact quotient:
/// they are off by half a hundredth of the unit at most.
pub proof fn lemma_scaled_is_nearest(bytes: nat, unit: DataUnit)
    ensures
        ({
            let d = unit.bytes_per_unit() as int;
            let n = (bytes * unit.per_byte() * 100) as int;
            let h = scaled(bytes, unit) as int;
            -d <= 2 * (h * d - n) <= d
        }),
{
    let d = unit.bytes_per_unit() as int;
    let n = (bytes * unit.per_byte() * 100) as int;
    assert(n == d * (n / d) + n % d) by {
        vstd::arithmetic::div_mod::lemma_fundamental_div_mod(n, d);
    }
    assert(0 <= n % d < d) by {
        vstd::arithmetic::div_mod::lemma_mod_bound(n, d);
    }
}

} // verus!
