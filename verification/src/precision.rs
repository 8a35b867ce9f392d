//! The granularity at which a date is rendered, with a stable numeric
//! rank per variant and a checked conversion back from a rank.

use vstd::prelude::*;
use crate::digits::dec_digits;
use crate::digits::decimal_string;

verus! {

#[derive(Debug, Clone, Copy, PartialEq, Eq, Structural)]
pub enum Precision {
    Day,
    Month,
    Year,
    Decade,
    Century,
    Millennium,
}

/// The error for a numeric rank outside the supported range; it
/// carries the offending value.
#[derive(Debug, Clone, Copy, PartialEq, Eq, Structural)]
pub struct InvalidPrecision(pub u8);

/// The rank of a precision; higher is finer.
pub open spec fn rank_of(p: Precision) -> u8 {
    match p {
        Precision::Day => 11,
        Precision::Month => 10,
        Precision::Year => 9,
        Precision::Decade => 8,
        Precision::Century => 7,
        Precision::Millennium => 6,
    }
}

/// The precision a rank converts to, or the error for a rank outside
/// 6 through 11.
pub open spec fn from_rank_spec(value: u8) -> Result<Precision, InvalidPrecision> {
    if value == 6 {
        Ok(Precision::Millennium)
    } else if value == 7 {
        Ok(Precision::Century)
    } else if value == 8 {
        Ok(Precision::Decade)
    } else if value == 9 {
        Ok(Precision::Year)
    } else if value == 10 {
        Ok(Precision::Month)
    } else if value == 11 {
        Ok(Precision::Day)
    } else {
        Err(InvalidPrecision(value))
    }
}

impl Precision {
    /// The numeric rank of this precision.
    pub fn as_u8(&self) -> (r: u8)
        ensures
            r == rank_of(*self),
    {
        match self {
            Precision::Day => 11,
            Precision::Month => 10,
            Precision::Year => 9,
            Precision::Decade => 8,
            Precision::Century => 7,
            Precision::Millennium => 6,
        }
    }

    /// The numeric rank rendered as a string.
    pub fn as_string(&self) -> (r: String)
        ensures
            r@ == dec_digits(rank_of(*self) as nat),
    {
        decimal_string(self.as_u8() as u64)
    }

    /// The precision with the given rank; a value outside 6 through 11
    /// is rejected with [`InvalidPrecision`].
    pub fn from_rank(value: u8) -> (r: Result<Precision, InvalidPrecision>)
        ensures
            r == from_rank_spec(value),
            6 <= value <= 11 <==> r is Ok,
            !(6 <= value <= 11) ==> r == Err::<Precision, InvalidPrecision>(
                InvalidPrecision(value),
            ),
    {
        if value == 6 {
            Ok(Precision::Millennium)
        } else if value == 7 {
            Ok(Precision::Century)
        } else if value == 8 {
            Ok(Precision::Decade)
        } else if value == 9 {
            Ok(Precision::Year)
        } else if value == 10 {
            Ok(Precision::Month)
        } else if value == 11 {
            Ok(Precision::Day)
        } else {
            Err(InvalidPrecision(value))
        }
    }
}

/// Converting a precision to its rank and back yields the precision
/// again.
pub proof fn lemma_rank_round_trip(p: Precision)
    ensures
        from_rank_spec(rank_of(p)) == Ok::<Precision, InvalidPrecision>(p),
{
}

} // verus!
