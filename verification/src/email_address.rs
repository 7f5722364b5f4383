//! Email addresses, as the registry sees them.

use vstd::prelude::*;

verus! {

/// The text of an email address.
///
/// Addresses are validated where they enter the system. The registry only
/// hands them to the store as lookup keys and copies them into its errors.
#[derive(Debug, PartialEq, Eq, PartialOrd, Ord, Hash)]
pub struct EmailAddress {
    text: String,
}

impl View for EmailAddress {
    type V = Seq<char>;

    closed spec fn view(&self) -> Seq<char> {
        self.text@
    }
}

impl EmailAddress {
    /// Wraps the text of an address.
    pub fn new(text: String) -> (address: EmailAddress)
        ensures
            address@ == text@,
    {
        EmailAddress { text }
    }

    /// The text of the address.
    pub fn as_str(&self) -> (text: &str)
        ensures
            text@ == self@,
    {
        self.text.as_str()
    }
}

impl Clone for EmailAddress {
    fn clone(&self) -> (copy: EmailAddress)
        ensures
            copy == *self,
    {
        EmailAddress { text: self.text.clone() }
    }
}

} // verus!
