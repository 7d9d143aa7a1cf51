use vstd::prelude::*;

verus! {

/// What can be wrong with the arguments of a run.
#[derive(Debug, Copy, Clone, PartialEq, Eq, Structural)]
pub enum Error {
    /// The machine's name is none of the four that exist.
    YotTypeInvalid,
}

impl Error {
    /// The text that tells a user of the error.
    pub fn message(&self) -> (text: String)
        ensures
            text@ == "invalid Yot type"@,
    {
        "invalid Yot type".to_owned()
    }
}

} // verus!
