use dispmanx_gl::alpha::{AlphaMode, Color};
use dispmanx_gl::compositor::{
    fullscreen_element, window_binding, DisplaySize, Element, Session, Transform, WindowBinding,
};
use dispmanx_gl::error::{CompositorError, Error};
use dispmanx_gl::geometry::{
    fixed_point_source_rect, full_source_rect, fullscreen_dest_rect, Rect,
};

#[test]
fn fullscreen_dest_rect_covers_display() {
    // 1920x1080 display: the destination rectangle is {0,0,1920,1080}.
    let r = fullscreen_dest_rect(1920, 1080);
    assert_eq!(r, Rect { x: 0, y: 0, width: 1920, height: 1080 });
}

#[test]
fn fullscreen_dest_rect_for_other_sizes() {
    for (w, h) in [(1u32, 1u32), (640, 480), (800, 600), (3840, 2160)] {
        let r = fullscreen_dest_rect(w, h);
        assert_eq!(r, Rect { x: 0, y: 0, width: w as i32, height: h as i32 });
    }
}

#[test]
fn full_source_rect_is_all_zero() {
    let r = full_source_rect();
    assert_eq!(r, Rect { x: 0, y: 0, width: 0, height: 0 });
}

#[test]
fn fixed_point_source_rect_scales_by_two_to_sixteen() {
    let r = fixed_point_source_rect(1920, 1080);
    assert_eq!(r, Rect { x: 0, y: 0, width: 1920 << 16, height: 1080 << 16 });
}

#[test]
fn fullscreen_element_for_full_hd() {
    let size = DisplaySize { width: 1920, height: 1080 };
    let e = fullscreen_element(size, 3);
    assert_eq!(e.dest, Rect { x: 0, y: 0, width: 1920, height: 1080 });
    assert_eq!(e.src, Rect { x: 0, y: 0, width: 0, height: 0 });
    assert_eq!(e.layer, 3);
    assert_eq!(e.alpha.mode, AlphaMode::OpaqueFixed);
    assert_eq!(e.alpha.opacity, 255);
    assert_eq!(e.alpha.mask, 0);
    assert_eq!(e.transform, Transform::NoRotate);
}

#[test]
fn window_binding_carries_element_and_extent() {
    let size = DisplaySize { width: 1920, height: 1080 };
    let w = window_binding(7, size);
    assert_eq!(w, WindowBinding { element: 7, width: 1920, height: 1080 });
}

#[test]
fn background_color_round_trip() {
    // The background-color-only utility: set (255,0,0) and submit
    // synchronously; the applied background then reflects that triple
    // exactly.
    let mut s = Session::new();
    s.host_initialized();
    assert_eq!(s.open_display(0), Ok(()));
    assert_eq!(s.begin_update(0), Ok(()));
    assert_eq!(s.set_background(Color { red: 255, green: 0, blue: 0 }), Ok(()));
    assert_eq!(s.applied_background(), None);
    assert_eq!(s.submit(), Ok(()));
    assert_eq!(s.applied_background(), Some(Color { red: 255, green: 0, blue: 0 }));
    assert!(!s.has_open_update());
}

#[test]
fn display_query_before_bootstrap_is_host_not_ready() {
    let s = Session::new();
    let size = DisplaySize { width: 1920, height: 1080 };
    assert_eq!(s.accept_display_size(Some(size)), Err(Error::HostNotReady));
}

#[test]
fn display_query_yielding_nothing_is_host_not_ready() {
    let mut s = Session::new();
    s.host_initialized();
    assert_eq!(s.accept_display_size(None), Err(Error::HostNotReady));
    let size = DisplaySize { width: 640, height: 480 };
    assert_eq!(s.accept_display_size(Some(size)), Ok(size));
}

#[test]
fn open_display_before_bootstrap_is_host_not_ready() {
    let mut s = Session::new();
    assert_eq!(s.open_display(0), Err(Error::HostNotReady));
    s.host_initialized();
    assert_eq!(s.open_display(0), Ok(()));
}

#[test]
fn begin_update_before_bootstrap_is_host_not_ready() {
    let mut s = Session::new();
    assert_eq!(s.begin_update(0), Err(Error::HostNotReady));
}

#[test]
fn second_open_update_is_rejected() {
    let mut s = Session::new();
    s.host_initialized();
    assert_eq!(s.begin_update(0), Ok(()));
    assert_eq!(
        s.begin_update(0),
        Err(Error::Compositor(CompositorError::UpdateAlreadyOpen))
    );
}

#[test]
fn element_without_display_is_rejected() {
    let mut s = Session::new();
    s.host_initialized();
    assert_eq!(s.begin_update(0), Ok(()));
    let e = fullscreen_element(DisplaySize { width: 640, height: 480 }, 3);
    assert_eq!(
        s.add_element(e),
        Err(Error::Compositor(CompositorError::DisplayNotOpen))
    );
}

#[test]
fn element_without_update_is_rejected() {
    let mut s = Session::new();
    s.host_initialized();
    assert_eq!(s.open_display(0), Ok(()));
    let e = fullscreen_element(DisplaySize { width: 640, height: 480 }, 3);
    assert_eq!(
        s.add_element(e),
        Err(Error::Compositor(CompositorError::NoOpenUpdate))
    );
}

#[test]
fn negative_extent_element_is_rejected() {
    let mut s = Session::new();
    s.host_initialized();
    assert_eq!(s.open_display(0), Ok(()));
    assert_eq!(s.begin_update(0), Ok(()));
    let mut e = fullscreen_element(DisplaySize { width: 640, height: 480 }, 3);
    e.dest.width = -1;
    assert_eq!(
        s.add_element(e),
        Err(Error::Compositor(CompositorError::InvalidElement))
    );
    assert_eq!(s.element_count(), 0);
}

#[test]
fn submit_without_update_is_rejected() {
    let mut s = Session::new();
    s.host_initialized();
    assert_eq!(s.submit(), Err(Error::Compositor(CompositorError::NoOpenUpdate)));
}

#[test]
fn background_without_update_is_rejected() {
    let mut s = Session::new();
    s.host_initialized();
    assert_eq!(s.open_display(0), Ok(()));
    assert_eq!(
        s.set_background(Color { red: 1, green: 2, blue: 3 }),
        Err(Error::Compositor(CompositorError::NoOpenUpdate))
    );
}

#[test]
fn element_takes_effect_at_submit() {
    let mut s = Session::new();
    s.host_initialized();
    assert_eq!(s.open_display(0), Ok(()));
    assert_eq!(s.begin_update(0), Ok(()));
    let e: Element = fullscreen_element(DisplaySize { width: 1920, height: 1080 }, 3);
    let low: Element = fullscreen_element(DisplaySize { width: 1920, height: 1080 }, 2);
    assert_eq!(s.add_element(e), Ok(0));
    assert_eq!(s.add_element(low), Ok(1));
    assert_eq!(s.element_count(), 0);
    assert_eq!(s.submit(), Ok(()));
    assert_eq!(s.element_count(), 2);
    assert_eq!(s.element_at(0), Some(e));
    assert_eq!(s.element_at(1), Some(low));
    assert_eq!(s.element_at(2), None);
}

#[test]
fn errors_describe_their_stage() {
    let mut s = Session::new();
    let e = s.open_display(0).unwrap_err();
    assert_eq!(e, Error::HostNotReady);
    assert_eq!(e.describe(), "host graphics subsystem was not initialized");
    s.host_initialized();
    let e = s.submit().unwrap_err();
    assert_eq!(e.describe(), "no update transaction is open");
}

#[test]
fn update_priority_lives_with_the_transaction() {
    let mut s = Session::new();
    s.host_initialized();
    assert_eq!(s.current_update_priority(), None);
    assert_eq!(s.begin_update(10), Ok(()));
    assert_eq!(s.current_update_priority(), Some(10));
    assert_eq!(s.submit(), Ok(()));
    assert_eq!(s.current_update_priority(), None);
}
