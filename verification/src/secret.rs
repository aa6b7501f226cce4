//! Text that is erased from memory when it is no longer needed.

use vstd::prelude::*;

verus! {

/// `Zeroize::zeroize` of the crate zeroize, on a `String`: its bytes, with those
/// that it only reserves, are overwritten with zeros, and the text is empty
/// afterwards. That the memory holds zeros shows in no value.
#[verifier::external_body]
pub(crate) fn zeroize_text(text: &mut String)
    ensures
        final(text)@ == Seq::<char>::empty(),
    opens_invariants none
    no_unwind
{
    zeroize::Zeroize::zeroize(text);
}

/// A text that is overwritten before its memory is given back.
pub struct Secret {
    value: String,
}

impl View for Secret {
    type V = Seq<char>;

    closed spec fn view(&self) -> Seq<char> {
        self.value@
    }
}

impl Secret {
    /// Takes charge of a text.
    pub fn new(value: String) -> (secret: Self)
        ensures
            secret@ == value@,
    {
        Secret { value }
    }

    /// The text.
    pub fn expose(&self) -> (text: &str)
        ensures
            text@ == self@,
    {
        self.value.as_str()
    }
}

impl Drop for Secret {
    fn drop(&mut self)
        ensures
            final(self)@ == Seq::<char>::empty(),
        opens_invariants none
        no_unwind
    {
        zeroize_text(&mut self.value);
    }
}

impl<'a> From<&'a str> for Secret {
    fn from(text: &'a str) -> (secret: Self)
        ensures
            secret@ == text@,
    {
        Secret { value: text.to_string() }
    }
}

/// Many values hold the same text, so which of them `from` gives is said by its
/// own contract and not by an equation.
impl<'a> vstd::std_specs::convert::FromSpecImpl<&'a str> for Secret {
    open spec fn obeys_from_spec() -> bool {
        false
    }

    open spec fn from_spec(v: &'a str) -> Self {
        arbitrary()
    }
}

} // verus!
