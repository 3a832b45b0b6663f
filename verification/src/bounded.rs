//! A `u8` value constrained to the inclusive range `MIN..=MAX`.

use vstd::prelude::*;

verus! {

/// A `u8` restricted to the range `MIN..=MAX`.
#[derive(Clone, Copy, Debug, Hash, PartialEq, Eq)]
pub struct BoundedU8<const MIN: u8, const MAX: u8> {
    value: u8,
}

impl<const MIN: u8, const MAX: u8> BoundedU8<MIN, MAX> {
    /// The held value, for contracts.
    pub closed spec fn spec_get(self) -> u8 {
        self.value
    }

    /// The range invariant: the held value lies in `MIN..=MAX`.
    pub open spec fn wf(self) -> bool {
        MIN <= self.spec_get() <= MAX
    }

    /// Returns whether `x` lies within the range.
    pub fn in_range(x: u8) -> (r: bool)
        ensures
            r == (MIN <= x <= MAX),
    {
        MIN <= x && x <= MAX
    }

    /// Builds a `BoundedU8` from a `u8`; `None` when out of range.
    pub fn new(inner: u8) -> (r: Option<Self>)
        ensures
            r is Some <==> MIN <= inner <= MAX,
            r is Some ==> r->0.spec_get() == inner && r->0.wf(),
    {
        if Self::in_range(inner) {
            Some(Self::new_unchecked(inner))
        } else {
            None
        }
    }

    /// Builds a `BoundedU8` from a `u8` already known to be in range.
    pub fn new_unchecked(inner: u8) -> (r: Self)
        requires
            MIN <= inner <= MAX,
        ensures
            r.spec_get() == inner,
            r.wf(),
    {
        Self { value: inner }
    }

    /// Returns the held value.
    pub fn get(self) -> (r: u8)
        ensures
            r == self.spec_get(),
    {
        self.value
    }

    /// Returns the smallest value of the range.
    pub fn min_value() -> (r: u8)
        ensures
            r == MIN,
    {
        MIN
    }

    /// Returns the largest value of the range.
    pub fn max_value() -> (r: u8)
        ensures
            r == MAX,
    {
        MAX
    }

    /// Parses a numeral in the given radix into a `BoundedU8`: `Parse`
    /// when the text is no `u8` numeral, `BelowMin` or `AboveMax` when the
    /// parsed number lies outside the range.
    pub fn from_str_radix(s: &str, radix: u32) -> (r: Result<Self, BoundedIntegerParseError>)
        requires
            MIN <= MAX,
            2 <= radix <= 36,
        ensures
            r == Err::<Self, _>(BoundedIntegerParseError::Parse) <==> u8_radix_of(s@, radix)
                is None,
            u8_radix_of(s@, radix) matches Some(v) ==> {
                &&& v < MIN <==> r == Err::<Self, _>(BoundedIntegerParseError::BelowMin)
                &&& v > MAX <==> r == Err::<Self, _>(BoundedIntegerParseError::AboveMax)
                &&& MIN <= v <= MAX <==> r is Ok
                &&& r is Ok ==> r->Ok_0.spec_get() == v && r->Ok_0.wf()
            },
    {
        let value = match u8_from_str_radix(s, radix) {
            None => {
                return Err(BoundedIntegerParseError::Parse);
            },
            Some(value) => value,
        };
        if value < Self::min_value() {
            Err(BoundedIntegerParseError::BelowMin)
        } else if value > Self::max_value() {
            Err(BoundedIntegerParseError::AboveMax)
        } else {
            Ok(Self::new_unchecked(value))
        }
    }

    /// Returns every value of the range, in ascending order.
    pub fn all() -> (r: Vec<Self>)
        requires
            MIN <= MAX,
        ensures
            r.len() == MAX - MIN + 1,
            forall|i: int| 0 <= i < r.len() ==> r[i].spec_get() == MIN + i && r[i].wf(),
    {
        let mut out: Vec<Self> = Vec::new();
        let mut x: u16 = MIN as u16;
        while x <= MAX as u16
            invariant
                MIN <= x <= MAX + 1,
                out.len() == x - MIN,
                forall|i: int| 0 <= i < out.len() ==> out[i].spec_get() == MIN + i && out[i].wf(),
            decreases MAX + 1 - x,
        {
            out.push(Self { value: x as u8 });
            x += 1;
        }
        out
    }
}

/// An error from parsing a string into a `BoundedU8`.
#[derive(Clone, Copy, Debug, PartialEq, Eq)]
pub enum BoundedIntegerParseError {
    /// The number is below the range's minimum.
    BelowMin,
    /// The number is above the range's maximum.
    AboveMax,
    /// The text is not a `u8` numeral in the given radix.
    Parse,
}

/// What `u8::from_str_radix` returns for the given text and radix: a
/// fixed function of both.
pub uninterp spec fn u8_radix_of(s: Seq<char>, radix: u32) -> Option<u8>;

/// Relies on `u8::from_str_radix`: the result depends on the text and the
/// radix alone; the call panics only for a radix outside `2..=36`.
#[verifier::external_body]
fn u8_from_str_radix(s: &str, radix: u32) -> (r: Option<u8>)
    requires
        2 <= radix <= 36,
    ensures
        r == u8_radix_of(s@, radix),
{
    u8::from_str_radix(s, radix).ok()
}

} // verus!
