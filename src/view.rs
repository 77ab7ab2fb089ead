//! The declarative description of the form's view, written once and bound to
//! either of the two rendering contexts.
use vstd::prelude::*;

use crate::form::DemoForm;

verus! {

/// The name under which the input is bound to the schema's field.
pub open spec fn field_bind() -> Seq<char> {
    "test"@
}

/// The label shown next to the input.
pub open spec fn field_label() -> Seq<char> {
    "Test Input"@
}

/// The translation key of the document title and of the wrapper's subtitle.
pub open spec fn form_title_key() -> Seq<char> {
    "demo_form"@
}

/// The translation key of the wrapper's title.
pub open spec fn wrapper_title_key() -> Seq<char> {
    "nova_forms"@
}

/// The logo shown in the wrapper's header.
pub open spec fn wrapper_logo() -> Seq<char> {
    "logo.svg"@
}

/// Where a view takes its field values from.
#[derive(Debug, Clone)]
pub enum RenderContext {
    /// Interactive editing: the view shows the live values and accepts input.
    Editable(DemoForm),
    /// Rendering of submitted values: the view shows them and accepts none.
    Fixed(DemoForm),
}

impl RenderContext {
    /// The values a view in this context displays.
    pub open spec fn data(&self) -> DemoForm {
        match self {
            RenderContext::Editable(f) => *f,
            RenderContext::Fixed(f) => *f,
        }
    }

    /// The values a view in this context displays.
    pub fn bound_data(&self) -> (r: &DemoForm)
        ensures
            *r == self.data(),
    {
        match self {
            RenderContext::Editable(f) => f,
            RenderContext::Fixed(f) => f,
        }
    }

    /// Whether views in this context accept input.
    pub fn is_editable(&self) -> (r: bool)
        ensures
            r == self is Editable,
    {
        match self {
            RenderContext::Editable(_) => true,
            RenderContext::Fixed(_) => false,
        }
    }
}

/// The controls of the toolbar under the form.
#[derive(Debug, Clone, Copy, PartialEq, Eq, Structural)]
pub enum ToolbarItem {
    LocaleSelect,
    PreviewButton,
    SubmitButton,
}

/// A text input bound to one field of the schema.
#[derive(Debug, Clone)]
pub struct InputView {
    pub bind: String,
    pub label: String,
    pub value: String,
    pub editable: bool,
}

/// What the form's view consists of.
#[derive(Debug, Clone)]
pub struct FormView {
    /// Translation key of the document title.
    pub title_key: String,
    /// The inputs, in the order they are laid out.
    pub inputs: Vec<InputView>,
    /// Whether a preview of the rendered document is shown beside the form.
    pub preview: bool,
    /// The toolbar's controls, from left to right.
    pub toolbar: Vec<ToolbarItem>,
}

/// The frame around the form: header title, subtitle and logo.
#[derive(Debug, Clone)]
pub struct WrapperView {
    pub title_key: String,
    pub subtitle_key: String,
    pub logo: String,
}

/// The input for the schema's field, bound to `ctx`.
pub open spec fn input_bound_to(v: InputView, ctx: RenderContext) -> bool {
    &&& v.bind@ == field_bind()
    &&& v.label@ == field_label()
    &&& v.value@ == ctx.data()@
    &&& v.editable == ctx is Editable
}

/// The form's view bound to `ctx`: the same layout in either context, whose
/// one input shows the values of `ctx`.
pub open spec fn is_form_view(v: FormView, ctx: RenderContext) -> bool {
    &&& v.title_key@ == form_title_key()
    &&& v.inputs@.len() == 1
    &&& input_bound_to(v.inputs@[0], ctx)
    &&& v.preview
    &&& v.toolbar@ == seq![
        ToolbarItem::LocaleSelect,
        ToolbarItem::PreviewButton,
        ToolbarItem::SubmitButton,
    ]
}

/// Describes the form's view, with its field bound to the values of `ctx`.
pub fn demo_form_view(ctx: &RenderContext) -> (r: FormView)
    ensures
        is_form_view(r, *ctx),
{
    let data = ctx.bound_data();
    let input = InputView {
        bind: "test".to_owned(),
        label: "Test Input".to_owned(),
        value: data.test().clone(),
        editable: ctx.is_editable(),
    };
    let toolbar = vec![
        ToolbarItem::LocaleSelect,
        ToolbarItem::PreviewButton,
        ToolbarItem::SubmitButton,
    ];
    let r = FormView { title_key: "demo_form".to_owned(), inputs: vec![input], preview: true, toolbar };
    assert(r.toolbar@ =~= seq![
        ToolbarItem::LocaleSelect,
        ToolbarItem::PreviewButton,
        ToolbarItem::SubmitButton,
    ]);
    r
}

/// Describes the frame the form is shown in.
pub fn wrapper_view() -> (r: WrapperView)
    ensures
        r.title_key@ == wrapper_title_key(),
        r.subtitle_key@ == form_title_key(),
        r.logo@ == wrapper_logo(),
{
    WrapperView {
        title_key: "nova_forms".to_owned(),
        subtitle_key: "demo_form".to_owned(),
        logo: "logo.svg".to_owned(),
    }
}

} // verus!
