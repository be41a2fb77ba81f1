//! The one way in which an operation on the catalog fails.

use crate::text::{decimal, decimal_text};
use vstd::prelude::*;
use vstd::string::StringExecFns;

verus! {

/// Why an operation on the catalog did not go through.
#[derive(Clone, Copy, Debug, PartialEq, Eq, Structural)]
pub enum Error {
    /// The catalog holds no product under this identifier.
    NotFound { id: u64 },
}

impl Error {
    /// The message for a caller: `Product with ID 7 not found` for the
    /// identifier 7.
    pub open spec fn text(self) -> Seq<char> {
        match self {
            Error::NotFound { id } => "Product with ID "@ + decimal(id as nat) + " not found"@,
        }
    }

    /// The message for a caller, which names the identifier.
    pub fn message(&self) -> (message: String)
        ensures
            message@ == self.text(),
    {
        match self {
            Error::NotFound { id } => {
                let mut message = String::from_str("Product with ID ");
                let number = decimal_text(*id);
                message.append(number.as_str());
                message.append(" not found");
                message
            },
        }
    }
}

} // verus!
