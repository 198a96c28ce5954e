use dispmanx_gl::bringup::{
    config_attrib_list, context_attrib_list, rgba8888_window_config, Context, Stage, Step,
    ATTRIB_ALPHA_SIZE, ATTRIB_BLUE_SIZE, ATTRIB_CONTEXT_CLIENT_VERSION, ATTRIB_GREEN_SIZE,
    ATTRIB_LIST_END, ATTRIB_RED_SIZE, ATTRIB_SURFACE_TYPE, WINDOW_SURFACE_BIT,
};
use dispmanx_gl::error::{BringUpError, Error};

const ORDER: [Step; 7] = [
    Step::AcquireDisplay,
    Step::InitializeDisplay,
    Step::ChooseConfig,
    Step::BindApi,
    Step::CreateContext,
    Step::CreateSurface,
    Step::MakeCurrent,
];

#[test]
fn ordered_bring_up_reaches_active() {
    let mut ctx = Context::new();
    assert_eq!(ctx.current_stage(), Stage::Uninitialized);
    for step in ORDER {
        assert!(!ctx.is_active());
        assert_eq!(ctx.advance(step, true), Ok(()));
    }
    assert!(ctx.is_active());
    assert_eq!(ctx.current_stage(), Stage::Active);
}

#[test]
fn surface_before_config_is_rejected() {
    let mut ctx = Context::new();
    assert_eq!(ctx.advance(Step::AcquireDisplay, true), Ok(()));
    assert_eq!(ctx.advance(Step::InitializeDisplay, true), Ok(()));
    // Skipping configuration selection and API binding must fail fast,
    // not silently succeed with a null state.
    assert_eq!(
        ctx.advance(Step::CreateSurface, true),
        Err(Error::BringUp(BringUpError::OutOfOrder { step: Step::CreateSurface }))
    );
    assert_eq!(ctx.current_stage(), Stage::DisplayInitialized);
}

#[test]
fn repeated_step_is_rejected() {
    let mut ctx = Context::new();
    assert_eq!(ctx.advance(Step::AcquireDisplay, true), Ok(()));
    assert_eq!(
        ctx.advance(Step::AcquireDisplay, true),
        Err(Error::BringUp(BringUpError::OutOfOrder { step: Step::AcquireDisplay }))
    );
    assert_eq!(ctx.current_stage(), Stage::DisplayAcquired);
}

#[test]
fn step_after_active_is_rejected() {
    let mut ctx = Context::new();
    for step in ORDER {
        assert_eq!(ctx.advance(step, true), Ok(()));
    }
    assert_eq!(
        ctx.advance(Step::MakeCurrent, true),
        Err(Error::BringUp(BringUpError::OutOfOrder { step: Step::MakeCurrent }))
    );
    assert!(ctx.is_active());
}

#[test]
fn failed_step_is_fatal_and_keeps_stage() {
    let mut ctx = Context::new();
    assert_eq!(ctx.advance(Step::AcquireDisplay, true), Ok(()));
    assert_eq!(
        ctx.advance(Step::InitializeDisplay, false),
        Err(Error::BringUp(BringUpError::StepFailed { step: Step::InitializeDisplay }))
    );
    assert_eq!(ctx.current_stage(), Stage::DisplayAcquired);
}

#[test]
fn every_out_of_order_step_is_rejected() {
    // From every stage short of Active, each of the six wrong steps is
    // rejected and the stage does not move.
    for reached in 0..ORDER.len() {
        for wrong in ORDER {
            let mut ctx = Context::new();
            for step in &ORDER[..reached] {
                assert_eq!(ctx.advance(*step, true), Ok(()));
            }
            if wrong == ORDER[reached] {
                continue;
            }
            let before = ctx.current_stage();
            assert_eq!(
                ctx.advance(wrong, true),
                Err(Error::BringUp(BringUpError::OutOfOrder { step: wrong }))
            );
            assert_eq!(ctx.current_stage(), before);
        }
    }
}

#[test]
fn config_attrib_list_is_rgba8888_window() {
    let req = rgba8888_window_config();
    let attribs = config_attrib_list(&req);
    assert_eq!(
        attribs,
        vec![
            ATTRIB_RED_SIZE,
            8,
            ATTRIB_GREEN_SIZE,
            8,
            ATTRIB_BLUE_SIZE,
            8,
            ATTRIB_ALPHA_SIZE,
            8,
            ATTRIB_SURFACE_TYPE,
            WINDOW_SURFACE_BIT,
            ATTRIB_LIST_END,
        ]
    );
}

#[test]
fn context_attrib_list_requests_version_two() {
    let attribs = context_attrib_list(2);
    assert_eq!(attribs, vec![ATTRIB_CONTEXT_CLIENT_VERSION, 2, ATTRIB_LIST_END]);
}

#[test]
fn bring_up_errors_describe_their_stage() {
    let mut ctx = Context::new();
    let e = ctx.advance(Step::MakeCurrent, true).unwrap_err();
    assert_eq!(e.describe(), "GPU bring-up step attempted out of order");
    let e = ctx.advance(Step::AcquireDisplay, false).unwrap_err();
    assert_eq!(e.describe(), "GPU bring-up step failed");
}
