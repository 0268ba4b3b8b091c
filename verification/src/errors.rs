//! The adapter's error taxonomy: four kinds, each with one human-readable
//! rendering, produced by `message`.

use vstd::prelude::*;

verus! {

/// Classification of every adapter failure.
#[derive(Debug)]
pub enum ListError {
    /// An engine-layer failure bubbled through a mutation or an apply;
    /// carries the engine error's debug rendering.
    ListError(String),
    /// A host value the marshaller could not convert; carries the reason.
    ValueError(String),
    /// `diff` received something other than a vector clock as a JSON
    /// string; the optional cause is the codec's message.
    VClockError(Option<String>),
    /// `apply` received something other than an operation batch as a JSON
    /// string; the optional cause is the codec's message.
    DiffError(Option<String>),
}

impl ListError {
    /// The human-readable rendering of this error.
    pub open spec fn spec_message(self) -> Seq<char> {
        match self {
            ListError::ListError(e) => e@,
            ListError::ValueError(e) => "ValueError: "@ + e@,
            ListError::VClockError(c) => match c {
                Option::Some(e) => "VClockError: vclock should be json string, error: "@ + e@,
                Option::None => "VClockError: vclock should be json string"@,
            },
            ListError::DiffError(c) => match c {
                Option::Some(e) => "DiffError: diff should be json string, error: "@ + e@,
                Option::None => "DiffError: diff should be json string"@,
            },
        }
    }

    /// Render this error as its one human-readable message.
    pub fn message(&self) -> (r: String)
        ensures
            r@ == self.spec_message(),
    {
        match self {
            ListError::ListError(e) => e.clone(),
            ListError::ValueError(e) => {
                let mut m = String::from_str("ValueError: ");
                m.append(e.as_str());
                m
            },
            ListError::VClockError(c) => match c {
                Option::Some(e) => {
                    let mut m = String::from_str(
                        "VClockError: vclock should be json string, error: ",
                    );
                    m.append(e.as_str());
                    m
                },
                Option::None => String::from_str("VClockError: vclock should be json string"),
            },
            ListError::DiffError(c) => match c {
                Option::Some(e) => {
                    let mut m = String::from_str(
                        "DiffError: diff should be json string, error: ",
                    );
                    m.append(e.as_str());
                    m
                },
                Option::None => String::from_str("DiffError: diff should be json string"),
            },
        }
    }
}

} // verus!
