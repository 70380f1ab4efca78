//! The error of the store layer.
use vstd::prelude::*;

verus! {

/// An error of the session, channel, provider and trace store, carrying its message.
#[derive(Debug, Clone)]
pub struct AiaStoreError {
    message: String,
}

impl View for AiaStoreError {
    type V = Seq<char>;

    /// The message of the error.
    closed spec fn view(&self) -> Seq<char> {
        self.message@
    }
}

impl AiaStoreError {
    /// An error with the given message.
    pub fn new(message: String) -> (r: Self)
        ensures
            r@ == message@,
    {
        AiaStoreError { message }
    }

    /// The message, as the error displays it.
    pub fn to_message(&self) -> (r: String)
        ensures
            r@ == self@,
    {
        self.message.clone()
    }
}

} // verus!
