use vstd::prelude::*;

verus! {

/// The body of a request to a translation service.
pub struct Input<'a> {
    pub text: &'a str,
}

/// The part of a translation service's answer that holds the result.
pub struct Content {
    pub translated: String,
}

/// An answer of a translation service.
pub struct Output {
    pub contents: Content,
}

impl Output {
    /// The translated text.
    pub fn translated(self) -> (r: String)
        ensures
            r == self.contents.translated,
    {
        self.contents.translated
    }
}

} // verus!
