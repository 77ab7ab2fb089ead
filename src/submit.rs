//! The interactive session, the submission it sends, and the decisions of the
//! server-side handler: which render to request and what to answer once the
//! renderer has reported back.
use vstd::prelude::*;

use crate::form::DemoForm;
use crate::view::{demo_form_view, is_form_view, FormView, RenderContext};

verus! {

/// The live state of one user's form while it is being filled in.
pub struct FormSession {
    live: DemoForm,
}

impl View for FormSession {
    type V = Seq<char>;

    /// The text the user has entered so far.
    closed spec fn view(&self) -> Seq<char> {
        self.live@
    }
}

/// The request sent to the server: the filled-in form and the metadata that
/// accompanies it, which the handler carries along unread.
#[derive(Debug, Clone)]
pub struct Submission<M> {
    pub form_data: DemoForm,
    pub meta_data: M,
}

/// One PDF rendering, bound to fixed, submitted values.
#[derive(Debug, Clone)]
pub struct RenderJob<M> {
    pub context: RenderContext,
    pub meta_data: M,
}

impl FormSession {
    /// A session starts from a fresh form.
    pub fn new() -> (r: FormSession)
        ensures
            r@ == Seq::<char>::empty(),
    {
        FormSession { live: DemoForm::default() }
    }

    /// The user types `value` into the field.
    pub fn edit_test(&mut self, value: String)
        ensures
            final(self)@ == value@,
    {
        self.live.set_test(value);
    }

    /// The context that interactive views of this session are bound to.
    pub fn editable_context(&self) -> (r: RenderContext)
        ensures
            r is Editable,
            r.data()@ == self@,
    {
        RenderContext::Editable(self.live.snapshot())
    }

    /// The submission of what has been entered so far, with `meta_data`.
    /// It holds its own copy: later edits leave it as it is.
    pub fn submit<M>(&self, meta_data: M) -> (r: Submission<M>)
        ensures
            r.form_data@ == self@,
            r.meta_data == meta_data,
    {
        Submission { form_data: self.live.snapshot(), meta_data }
    }
}

/// The one render that the handler requests for `sub`: the form's view bound
/// to the submitted values, with the submitted metadata.
pub fn plan_render<M>(sub: Submission<M>) -> (r: RenderJob<M>)
    ensures
        r.context == RenderContext::Fixed(sub.form_data),
        r.meta_data == sub.meta_data,
{
    RenderJob { context: RenderContext::Fixed(sub.form_data), meta_data: sub.meta_data }
}

impl<M> RenderJob<M> {
    /// The view that this render draws.
    pub fn form_view(&self) -> (r: FormView)
        ensures
            is_form_view(r, self.context),
    {
        demo_form_view(&self.context)
    }
}

/// The handler's answer once the renderer has reported `outcome`: success,
/// without the output path, when the render succeeded; the renderer's failure,
/// unchanged, when it failed.
pub fn finish_submission<P, E>(outcome: Result<P, E>) -> (r: Result<(), E>)
    ensures
        r is Ok <==> outcome is Ok,
        outcome matches Err(e) ==> r == Err::<(), E>(e),
{
    match outcome {
        Ok(_) => Ok(()),
        Err(e) => Err(e),
    }
}

/// The two rendering modes share no data. A render bound to a submission of
/// the text `sent` keeps displaying `sent`, and accepts no input, whatever the
/// user types afterwards; the interactive view shows the newly typed text
/// `typed` and accepts input.
pub proof fn lemma_modes_keep_their_own_data<M>(
    sub: Submission<M>,
    sent: Seq<char>,
    typed: Seq<char>,
    fixed_view: FormView,
    live: RenderContext,
    live_view: FormView,
)
    requires
        sub.form_data@ == sent,
        is_form_view(fixed_view, RenderContext::Fixed(sub.form_data)),
        live is Editable,
        live.data()@ == typed,
        is_form_view(live_view, live),
    ensures
        fixed_view.inputs@[0].value@ == sent,
        !fixed_view.inputs@[0].editable,
        live_view.inputs@[0].value@ == typed,
        live_view.inputs@[0].editable,
{
}

} // verus!
