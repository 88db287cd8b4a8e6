use vstd::prelude::*;

verus! {

/// The message carried by the error that a tag validation failure raises.
pub open spec fn mismatch_message() -> Seq<char> {
    "label mismatch"@
}

/// The single error kind of the codec: decoding failed, with a
/// human-readable message saying why.
#[derive(Debug, PartialEq, Eq, Clone)]
pub struct ParseError {
    pub message: String,
}

impl View for ParseError {
    type V = Seq<char>;

    open spec fn view(&self) -> Seq<char> {
        self.message@
    }
}

impl ParseError {
    /// An error carrying the given message.
    pub fn new(message: String) -> (r: ParseError)
        ensures
            r@ == message@,
    {
        ParseError { message }
    }

    /// The error raised when a decoded tag does not equal the canonical
    /// label of the expected kind.
    pub fn label_mismatch() -> (r: ParseError)
        ensures
            r@ == mismatch_message(),
    {
        ParseError { message: "label mismatch".to_owned() }
    }

    /// The human-readable message.
    pub fn message(&self) -> (r: &str)
        ensures
            r@ == self@,
    {
        self.message.as_str()
    }
}

} // verus!
