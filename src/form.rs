//! The form schema and the interactive editing session that fills it in.
use vstd::prelude::*;

verus! {

/// The data a user fills in: a single text field, bound under the name `test`.
#[derive(Debug, Clone)]
pub struct DemoForm {
    test: String,
}

impl View for DemoForm {
    type V = Seq<char>;

    /// The form's abstract value is the text of its one field.
    closed spec fn view(&self) -> Seq<char> {
        self.test@
    }
}

impl Default for DemoForm {
    /// A fresh form holds the empty text.
    fn default() -> (r: DemoForm)
        ensures
            r@ == Seq::<char>::empty(),
    {
        DemoForm { test: String::new() }
    }
}

impl DemoForm {
    /// A form whose field holds `test`.
    pub fn new(test: String) -> (r: DemoForm)
        ensures
            r@ == test@,
    {
        DemoForm { test }
    }

    /// The text of the field.
    pub fn test(&self) -> (r: &String)
        ensures
            r@ == self@,
    {
        &self.test
    }

    /// Replaces the text of the field.
    pub fn set_test(&mut self, test: String)
        ensures
            final(self)@ == test@,
    {
        self.test = test;
    }

    /// An independent copy holding the same text: later changes to either
    /// value leave the other as it is.
    pub fn snapshot(&self) -> (r: DemoForm)
        ensures
            r@ == self@,
    {
        DemoForm { test: self.test.clone() }
    }

    /// Gives up the form and hands out the text of its field.
    pub fn into_test(self) -> (r: String)
        ensures
            r@ == self@,
    {
        self.test
    }
}

} // verus!
