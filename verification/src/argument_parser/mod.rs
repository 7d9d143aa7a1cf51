use crate::text::same_text;
use vstd::prelude::*;

pub mod error;

pub use error::Error;

verus! {

/// The machine that a program is assembled for, named by the width of its
/// addresses in bits.
#[derive(Debug, Copy, Clone, PartialEq, Eq, Structural)]
pub enum YotType {
    Y8,
    Y16,
    Y32,
    Y64,
}

impl YotType {
    /// The width of an address of the machine, in bytes.
    pub open spec fn spec_bytes(self) -> int {
        match self {
            YotType::Y8 => 1,
            YotType::Y16 => 2,
            YotType::Y32 => 4,
            YotType::Y64 => 8,
        }
    }

    /// The width of an address of the machine, in bytes.
    pub fn bytes(self) -> (width: usize)
        ensures
            width == self.spec_bytes(),
    {
        match self {
            YotType::Y8 => 1,
            YotType::Y16 => 2,
            YotType::Y32 => 4,
            YotType::Y64 => 8,
        }
    }
}

/// The machine that a name stands for, if it is one of the four names
/// `yot-8`, `yot-16`, `yot-32` and `yot-64`.
pub open spec fn spec_parse_yot_type(input: Seq<char>) -> Result<YotType, Error> {
    if input == "yot-8"@ {
        Ok(YotType::Y8)
    } else if input == "yot-16"@ {
        Ok(YotType::Y16)
    } else if input == "yot-32"@ {
        Ok(YotType::Y32)
    } else if input == "yot-64"@ {
        Ok(YotType::Y64)
    } else {
        Err(Error::YotTypeInvalid)
    }
}

/// Reads the name of a machine.
pub fn parse_yot_type(input: &str) -> (result: Result<YotType, Error>)
    ensures
        result == spec_parse_yot_type(input@),
{
    if same_text(input, "yot-8") {
        Ok(YotType::Y8)
    } else if same_text(input, "yot-16") {
        Ok(YotType::Y16)
    } else if same_text(input, "yot-32") {
        Ok(YotType::Y32)
    } else if same_text(input, "yot-64") {
        Ok(YotType::Y64)
    } else {
        Err(Error::YotTypeInvalid)
    }
}

} // verus!
