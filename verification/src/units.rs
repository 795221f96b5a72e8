//! Serving units and their stored integer codes.

use crate::error::DecodeError;
use vstd::prelude::*;

verus! {

/// The unit in which a reference serving is measured.
#[derive(Clone, Copy, Debug, PartialEq, Eq, Structural)]
pub enum Unit {
    Grams,
    Teaspoons,
    Tablespoons,
    Pieces,
    Cups,
}

impl Unit {
    /// The integer under which the unit is stored.
    pub open spec fn code(self) -> u32 {
        match self {
            Unit::Grams => 0,
            Unit::Teaspoons => 1,
            Unit::Tablespoons => 2,
            Unit::Pieces => 3,
            Unit::Cups => 4,
        }
    }

    /// The unit that a stored code names, if it names one.
    pub open spec fn of_code(code: u32) -> Option<Unit> {
        if code == 0 {
            Some(Unit::Grams)
        } else if code == 1 {
            Some(Unit::Teaspoons)
        } else if code == 2 {
            Some(Unit::Tablespoons)
        } else if code == 3 {
            Some(Unit::Pieces)
        } else if code == 4 {
            Some(Unit::Cups)
        } else {
            None
        }
    }

    /// The abbreviation shown next to an amount.
    pub open spec fn symbol(self) -> Seq<char> {
        match self {
            Unit::Grams => "g"@,
            Unit::Teaspoons => "tsp"@,
            Unit::Tablespoons => "Tbsp"@,
            Unit::Pieces => "pc"@,
            Unit::Cups => "cup"@,
        }
    }

    /// Decodes a stored unit code. Codes 0 to 4 name a unit; any other code
    /// is reported as an error and never replaced by a default.
    pub fn from_uint(input: u32) -> (unit: Result<Unit, DecodeError>)
        ensures
            unit == match Unit::of_code(input) {
                Some(u) => Ok::<Unit, DecodeError>(u),
                None => Err(DecodeError::InvalidUnit { code: input }),
            },
    {
        match input {
            0 => Ok(Unit::Grams),
            1 => Ok(Unit::Teaspoons),
            2 => Ok(Unit::Tablespoons),
            3 => Ok(Unit::Pieces),
            4 => Ok(Unit::Cups),
            _ => Err(DecodeError::InvalidUnit { code: input }),
        }
    }

    /// The code under which the unit is stored.
    pub fn to_uint(self) -> (code: u32)
        ensures
            code == self.code(),
    {
        match self {
            Unit::Grams => 0,
            Unit::Teaspoons => 1,
            Unit::Tablespoons => 2,
            Unit::Pieces => 3,
            Unit::Cups => 4,
        }
    }

    /// The abbreviation shown next to an amount: `g`, `tsp`, `Tbsp`, `pc`
    /// or `cup`.
    pub fn to_string(&self) -> (text: String)
        ensures
            text@ == self.symbol(),
    {
        match self {
            Unit::Grams => "g".to_owned(),
            Unit::Teaspoons => "tsp".to_owned(),
            Unit::Tablespoons => "Tbsp".to_owned(),
            Unit::Pieces => "pc".to_owned(),
            Unit::Cups => "cup".to_owned(),
        }
    }

    /// Every unit is stored under a code from 0 to 4 and decoded from it
    /// again; a code decodes to a unit exactly if it is at most 4, and then
    /// that unit is stored under the same code.
    pub proof fn lemma_code_round_trip(unit: Unit, code: u32)
        ensures
            unit.code() <= 4,
            Unit::of_code(unit.code()) == Some(unit),
            Unit::of_code(code) is Some <==> code <= 4,
            Unit::of_code(code) matches Some(u) ==> u.code() == code,
    {
    }
}

} // verus!
