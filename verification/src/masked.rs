//! A login identifier together with the name that is shown in its place.

use vstd::prelude::*;
use zeroize::Zeroize;

use crate::text::clone_option;

verus! {

/// `<String as Zeroize>::zeroize`: overwrites the bytes of the string with
/// zeroes and leaves it empty.
#[verifier::external_body]
pub(crate) fn zeroize_string(text: &mut String)
    ensures
        final(text)@ == Seq::<char>::empty(),
    opens_invariants none
    no_unwind
{
    text.zeroize()
}

/// `<Option<String> as Zeroize>::zeroize`: zeroizes the string, if there is
/// one, and leaves `None`.
#[verifier::external_body]
pub(crate) fn zeroize_option(text: &mut Option<String>)
    ensures
        *final(text) == None::<String>,
    opens_invariants none
    no_unwind
{
    text.zeroize()
}

/// A value with a true form, which is sent to the daemon, and an optional
/// display form, which is shown to the user instead.
pub struct MaskedString {
    pub value: String,
    pub mask: Option<String>,
}

/// The mathematical content of a [`MaskedString`].
pub struct MaskedStringView {
    pub value: Seq<char>,
    pub mask: Option<Seq<char>>,
}

impl MaskedStringView {
    /// The text that is displayed: the mask if there is one, else the value.
    pub open spec fn get(self) -> Seq<char> {
        match self.mask {
            Some(mask) => mask,
            None => self.value,
        }
    }

    /// The wiped value: empty, without a mask.
    pub open spec fn empty() -> MaskedStringView {
        MaskedStringView { value: Seq::empty(), mask: None }
    }
}

impl View for MaskedString {
    type V = MaskedStringView;

    open spec fn view(&self) -> MaskedStringView {
        MaskedStringView { value: self.value@, mask: self.mask.deep_view() }
    }
}

impl DeepView for MaskedString {
    type V = MaskedStringView;

    open spec fn deep_view(&self) -> MaskedStringView {
        self@
    }
}

impl Default for MaskedString {
    fn default() -> (r: MaskedString)
        ensures
            r@ == MaskedStringView::empty(),
    {
        MaskedString { value: String::new(), mask: None }
    }
}

impl MaskedString {
    pub fn from(value: String, mask: Option<String>) -> (r: MaskedString)
        ensures
            r.value == value,
            r.mask == mask,
    {
        MaskedString { value, mask }
    }

    /// The text to display.
    pub fn get(&self) -> (r: &str)
        ensures
            r@ == self@.get(),
    {
        match &self.mask {
            Some(mask) => mask.as_str(),
            None => self.value.as_str(),
        }
    }

    /// Wipes both forms: the value becomes empty and the mask absent.
    pub fn zeroize(&mut self)
        ensures
            final(self)@ == MaskedStringView::empty(),
        opens_invariants none
        no_unwind
    {
        zeroize_string(&mut self.value);
        zeroize_option(&mut self.mask);
    }

    /// An independent copy.
    pub fn duplicate(&self) -> (r: MaskedString)
        ensures
            r == *self,
    {
        MaskedString { value: self.value.clone(), mask: clone_option(&self.mask) }
    }
}

} // verus!
