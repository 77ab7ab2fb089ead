//! A one-field demonstration form: its schema, the declarative description of
//! its view in the editable and the fixed rendering mode, and the decisions of
//! the server-side submission that renders the submitted data as a PDF.
use vstd::prelude::*;

pub mod form;
pub mod view;
pub mod submit;

verus! {

} // verus!
