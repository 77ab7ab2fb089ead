use nova_demo_form::form::DemoForm;
use nova_demo_form::submit::{finish_submission, plan_render, FormSession, Submission};
use nova_demo_form::view::{demo_form_view, wrapper_view, RenderContext, ToolbarItem};

#[test]
fn hello_submission_renders_once_showing_hello() {
    let sub = Submission { form_data: DemoForm::new("hello".to_string()), meta_data: ("en", 60) };
    let job = plan_render(sub);
    assert!(!job.context.is_editable());
    assert_eq!(job.context.bound_data().test(), "hello");
    assert_eq!(job.meta_data, ("en", 60));
    let view = job.form_view();
    assert_eq!(view.inputs.len(), 1);
    assert_eq!(view.inputs[0].bind, "test");
    assert_eq!(view.inputs[0].label, "Test Input");
    assert_eq!(view.inputs[0].value, "hello");
    assert!(!view.inputs[0].editable);
}

#[test]
fn failed_render_fails_submission() {
    let outcome: Result<String, String> = Err("renderer exited with status 1".to_string());
    assert_eq!(finish_submission(outcome), Err("renderer exited with status 1".to_string()));
}

#[test]
fn successful_render_answers_without_path() {
    let outcome: Result<String, String> = Ok("/tmp/out.pdf".to_string());
    assert_eq!(finish_submission(outcome), Ok(()));
}

#[test]
fn editing_after_submit_leaves_render_data() {
    let mut session = FormSession::new();
    session.edit_test("hello".to_string());
    let job = plan_render(session.submit(()));
    session.edit_test("changed".to_string());
    let fixed = job.form_view();
    let live = demo_form_view(&session.editable_context());
    assert_eq!(fixed.inputs[0].value, "hello");
    assert!(!fixed.inputs[0].editable);
    assert_eq!(live.inputs[0].value, "changed");
    assert!(live.inputs[0].editable);
}

#[test]
fn two_identical_submissions_are_independent_jobs() {
    let mut session = FormSession::new();
    session.edit_test("same".to_string());
    let a = plan_render(session.submit(1u32));
    let b = plan_render(session.submit(2u32));
    assert_eq!(a.form_view().inputs[0].value, "same");
    assert_eq!(b.form_view().inputs[0].value, "same");
    assert_eq!((a.meta_data, b.meta_data), (1, 2));
}

#[test]
fn both_modes_share_one_layout() {
    let f = DemoForm::new("x".to_string());
    let editable = demo_form_view(&RenderContext::Editable(f.snapshot()));
    let fixed = demo_form_view(&RenderContext::Fixed(f));
    for v in [&editable, &fixed] {
        assert_eq!(v.title_key, "demo_form");
        assert!(v.preview);
        assert_eq!(
            v.toolbar,
            vec![ToolbarItem::LocaleSelect, ToolbarItem::PreviewButton, ToolbarItem::SubmitButton]
        );
        assert_eq!(v.inputs[0].bind, "test");
        assert_eq!(v.inputs[0].value, "x");
    }
    assert!(editable.inputs[0].editable);
    assert!(!fixed.inputs[0].editable);
}

#[test]
fn wrapper_frame_texts() {
    let w = wrapper_view();
    assert_eq!(w.title_key, "nova_forms");
    assert_eq!(w.subtitle_key, "demo_form");
    assert_eq!(w.logo, "logo.svg");
}
