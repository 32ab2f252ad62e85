use screengrab::capture::{RawCapture, Screenshot};
use screengrab::clipboard::ExportStep;
use screengrab::cropper::{Cropper, CropperError, Decision, Request};
use screengrab::enumerate::{RawWindow, WS_POPUP};
use screengrab::geometry::{Bounds, Rectangle, Window};

fn frame(left: i32, top: i32, right: i32, bottom: i32) -> RawWindow {
    RawWindow { visible: true, style: 0, left, top, right, bottom }
}

fn capture(width: i32, height: i32, windows: Vec<RawWindow>) -> Screenshot {
    let raw = RawCapture {
        screen: Rectangle { x: 0, y: 0, w: width, h: height },
        h_screen: 11,
        h_dc: 12,
        h_bitmap: 13,
        pixels: vec![0u8; ((3 * width as usize + 3) / 4 * 4) * height as usize],
        windows,
    };
    Screenshot::take(raw).unwrap()
}

fn exported(decision: Result<Decision, CropperError>) -> Rectangle<u32> {
    match decision {
        Ok(Decision::Export(session)) => session.region(),
        other => panic!("no export: {:?}", other),
    }
}

#[test]
fn cropper_needs_the_platform_setup() {
    assert!(Cropper::new(true).is_ok());
    assert_eq!(Cropper::new(false).unwrap_err(), CropperError::InitFailed);
}

#[test]
fn window_selection_resolves_to_the_window() {
    let shot = capture(1920, 1080, vec![frame(100, 100, 500, 400)]);
    assert_eq!(shot.dimensions(), (1920, 1080));
    assert_eq!(
        shot.windows(),
        &vec![Window { bounds: Rectangle { x: 100, y: 100, w: 400, h: 300 } }]
    );
    let cropper = Cropper::new(true).unwrap();
    assert_eq!(
        cropper.resolve(&shot, Bounds::Window(0)),
        Ok(Rectangle { x: 100, y: 100, w: 400, h: 300 })
    );
    let decision = cropper.apply(&shot, Request::Select(Bounds::Window(0)));
    match decision {
        Ok(Decision::Export(session)) => {
            assert_eq!(session.region(), Rectangle { x: 100, y: 100, w: 400, h: 300 });
            assert_eq!(
                session.step(),
                ExportStep::CreateSurface { screen: 11, width: 400, height: 300 }
            );
        }
        other => panic!("no export: {:?}", other),
    }
}

#[test]
fn window_index_past_the_list_is_invalid() {
    let cropper = Cropper::new(true).unwrap();
    let none = capture(4, 4, Vec::new());
    let one = capture(4, 4, vec![frame(0, 0, 2, 2)]);
    for index in [0usize, 1, 2, 1000, usize::MAX] {
        assert_eq!(
            cropper.resolve(&none, Bounds::Window(index)),
            Err(CropperError::InvalidWindowIndex)
        );
        assert_eq!(
            cropper.apply(&none, Request::Select(Bounds::Window(index))).unwrap_err(),
            CropperError::InvalidWindowIndex
        );
    }
    for index in [1usize, 2, 1000, usize::MAX] {
        assert_eq!(
            cropper.resolve(&one, Bounds::Window(index)),
            Err(CropperError::InvalidWindowIndex)
        );
        assert_eq!(
            cropper.apply(&one, Request::Select(Bounds::Window(index))).unwrap_err(),
            CropperError::InvalidWindowIndex
        );
    }
}

#[test]
fn window_index_counts_recorded_windows_only() {
    let popup = RawWindow { visible: true, style: WS_POPUP, left: 0, top: 0, right: 1, bottom: 1 };
    let shot = capture(10, 10, vec![popup, frame(2, 3, 6, 8)]);
    let cropper = Cropper::new(true).unwrap();
    assert_eq!(cropper.resolve(&shot, Bounds::Window(0)), Ok(Rectangle { x: 2, y: 3, w: 4, h: 5 }));
    assert_eq!(cropper.resolve(&shot, Bounds::Window(1)), Err(CropperError::InvalidWindowIndex));
}

#[test]
fn explicit_region_past_an_edge_is_out_of_bounds() {
    let shot = capture(100, 50, Vec::new());
    let cropper = Cropper::new(true).unwrap();
    for region in [
        Rectangle { x: 0, y: 0, w: 101, h: 50 },
        Rectangle { x: 0, y: 0, w: 100, h: 51 },
        Rectangle { x: 1, y: 0, w: 100, h: 50 },
        Rectangle { x: 0, y: 1, w: 100, h: 50 },
        Rectangle { x: 100, y: 0, w: 1, h: 1 },
        Rectangle { x: 0, y: 50, w: 1, h: 1 },
        Rectangle { x: 101, y: 0, w: 0, h: 0 },
        Rectangle { x: 0, y: 51, w: 0, h: 0 },
        Rectangle { x: u32::MAX, y: 0, w: 1, h: 1 },
        Rectangle { x: u32::MAX, y: u32::MAX, w: u32::MAX, h: u32::MAX },
        Rectangle { x: 1, y: 0, w: u32::MAX, h: 1 },
    ] {
        assert_eq!(cropper.resolve(&shot, Bounds::Explicit(region)), Err(CropperError::OutOfBounds));
        assert_eq!(
            cropper.apply(&shot, Request::Select(Bounds::Explicit(region))).unwrap_err(),
            CropperError::OutOfBounds
        );
    }
}

#[test]
fn explicit_region_inside_resolves_to_itself() {
    let shot = capture(100, 50, Vec::new());
    let cropper = Cropper::new(true).unwrap();
    for region in [
        Rectangle { x: 0, y: 0, w: 100, h: 50 },
        Rectangle { x: 99, y: 49, w: 1, h: 1 },
        Rectangle { x: 10, y: 20, w: 30, h: 30 },
    ] {
        assert_eq!(cropper.resolve(&shot, Bounds::Explicit(region)), Ok(region));
        assert_eq!(exported(cropper.apply(&shot, Request::Select(Bounds::Explicit(region)))), region);
    }
}

#[test]
fn full_screen_resolves_to_the_whole_image() {
    let cropper = Cropper::new(true).unwrap();
    let bare = capture(1920, 1080, Vec::new());
    let busy = capture(
        1920,
        1080,
        vec![frame(100, 100, 500, 400), frame(-50, -50, 5000, 5000), frame(7, 7, 7, 7)],
    );
    for shot in [&bare, &busy] {
        assert_eq!(
            cropper.resolve(shot, Bounds::FullScreen),
            Ok(Rectangle { x: 0, y: 0, w: 1920, h: 1080 })
        );
        assert_eq!(
            exported(cropper.apply(shot, Request::Select(Bounds::FullScreen))),
            Rectangle { x: 0, y: 0, w: 1920, h: 1080 }
        );
    }
    let small = capture(3, 2, Vec::new());
    assert_eq!(cropper.resolve(&small, Bounds::FullScreen), Ok(Rectangle { x: 0, y: 0, w: 3, h: 2 }));
}

#[test]
fn explicit_region_without_pixels_is_empty() {
    let shot = capture(100, 50, Vec::new());
    let cropper = Cropper::new(true).unwrap();
    assert_eq!(
        cropper.resolve(&shot, Bounds::Explicit(Rectangle { x: 0, y: 0, w: 0, h: 0 })),
        Err(CropperError::EmptyRegion)
    );
    assert_eq!(
        cropper
            .apply(&shot, Request::Select(Bounds::Explicit(Rectangle { x: 0, y: 0, w: 0, h: 0 })))
            .unwrap_err(),
        CropperError::EmptyRegion
    );
    for region in [
        Rectangle { x: 5, y: 5, w: 0, h: 10 },
        Rectangle { x: 5, y: 5, w: 10, h: 0 },
        Rectangle { x: 100, y: 50, w: 0, h: 0 },
    ] {
        assert_eq!(cropper.resolve(&shot, Bounds::Explicit(region)), Err(CropperError::EmptyRegion));
    }
}

#[test]
fn window_without_extent_is_an_empty_region() {
    let shot = capture(100, 50, vec![frame(10, 10, 10, 10), frame(10, 10, 20, 10)]);
    let cropper = Cropper::new(true).unwrap();
    assert_eq!(cropper.resolve(&shot, Bounds::Window(0)), Err(CropperError::EmptyRegion));
    assert_eq!(cropper.resolve(&shot, Bounds::Window(1)), Err(CropperError::EmptyRegion));
}

#[test]
fn window_reaching_beyond_the_image_is_out_of_bounds() {
    let shot = capture(100, 50, vec![frame(90, 10, 110, 20), frame(-8, 0, 50, 50)]);
    let cropper = Cropper::new(true).unwrap();
    assert_eq!(cropper.resolve(&shot, Bounds::Window(0)), Err(CropperError::OutOfBounds));
    assert_eq!(cropper.resolve(&shot, Bounds::Window(1)), Err(CropperError::OutOfBounds));
}

#[test]
fn quitting_exports_nothing_and_stops_the_loop() {
    let shot = capture(4, 4, Vec::new());
    let cropper = Cropper::new(true).unwrap();
    let decision = cropper.apply(&shot, Request::Quit).unwrap();
    assert!(matches!(decision, Decision::Quit));
    assert!(decision.should_quit());
}

#[test]
fn exporting_keeps_the_loop_running() {
    let shot = capture(4, 4, Vec::new());
    let cropper = Cropper::new(true).unwrap();
    let decision = cropper.apply(&shot, Request::Select(Bounds::FullScreen)).unwrap();
    assert!(!decision.should_quit());
}

#[test]
fn one_screenshot_serves_several_selections() {
    let shot = capture(8, 8, vec![frame(1, 1, 3, 3)]);
    let cropper = Cropper::new(true).unwrap();
    let first = exported(cropper.apply(&shot, Request::Select(Bounds::Window(0))));
    let second = exported(cropper.apply(&shot, Request::Select(Bounds::FullScreen)));
    assert_eq!(first, Rectangle { x: 1, y: 1, w: 2, h: 2 });
    assert_eq!(second, Rectangle { x: 0, y: 0, w: 8, h: 8 });
}
