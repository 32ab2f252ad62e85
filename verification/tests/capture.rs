use screengrab::capture::{pixel_buffer_len, CaptureError, RawCapture, Screenshot};
use screengrab::enumerate::{RawWindow, WS_POPUP};
use screengrab::geometry::{Rectangle, Window};
use screengrab::guard::{Disposal, Release};

fn padded(width: i32, height: i32) -> usize {
    ((3 * width as usize + 3) / 4 * 4) * height as usize
}

fn raw(width: i32, height: i32, pixels: Vec<u8>) -> RawCapture {
    RawCapture {
        screen: Rectangle { x: 0, y: 0, w: width, h: height },
        h_screen: 0xa1,
        h_dc: 0xa2,
        h_bitmap: 0xa3,
        pixels,
        windows: Vec::new(),
    }
}

#[test]
fn capture_has_three_bytes_for_every_pixel() {
    for (width, height) in [(1, 1), (2, 3), (7, 5), (64, 48), (1, 200), (200, 1), (33, 2)] {
        let pixels = vec![0u8; padded(width, height)];
        let shot = Screenshot::take(raw(width, height, pixels)).unwrap();
        assert_eq!(shot.dimensions(), (width as u32, height as u32));
        assert_eq!(shot.data().len(), (width * height * 3) as usize);
    }
}

#[test]
fn capture_turns_blue_green_red_into_red_green_blue() {
    let shot = Screenshot::take(raw(2, 1, vec![1, 2, 3, 4, 5, 6, 0, 0])).unwrap();
    assert_eq!(shot.data(), &vec![3u8, 2, 1, 6, 5, 4]);
}

#[test]
fn capture_drops_the_padding_of_every_row() {
    let rows = vec![
        1, 2, 3, 4, 5, 6, 90, 91, // first row: two pixels, two bytes of padding
        7, 8, 9, 10, 11, 12, 92, 93, // second row
        13, 14, 15, 16, 17, 18, 94, 95, // third row
    ];
    let shot = Screenshot::take(raw(2, 3, rows)).unwrap();
    assert_eq!(
        shot.data(),
        &vec![3u8, 2, 1, 6, 5, 4, 9, 8, 7, 12, 11, 10, 15, 14, 13, 18, 17, 16]
    );
}

#[test]
fn capture_of_rows_without_padding_keeps_every_byte() {
    let rows: Vec<u8> = (0u8..24).collect();
    let shot = Screenshot::take(raw(4, 2, rows)).unwrap();
    assert_eq!(
        shot.data(),
        &vec![
            2u8, 1, 0, 5, 4, 3, 8, 7, 6, 11, 10, 9, 14, 13, 12, 17, 16, 15, 20, 19, 18, 23, 22, 21
        ]
    );
}

#[test]
fn capture_records_the_windows_that_are_visible_and_no_popups() {
    let mut given = raw(1920, 1080, vec![0u8; 1920 * 1080 * 3]);
    given.windows = vec![
        RawWindow { visible: true, style: 0, left: 100, top: 100, right: 500, bottom: 400 },
        RawWindow { visible: true, style: WS_POPUP, left: 0, top: 0, right: 50, bottom: 50 },
        RawWindow { visible: false, style: 0, left: 0, top: 0, right: 60, bottom: 60 },
    ];
    let shot = Screenshot::take(given).unwrap();
    assert_eq!(shot.dimensions(), (1920, 1080));
    assert_eq!(
        shot.windows(),
        &vec![Window { bounds: Rectangle { x: 100, y: 100, w: 400, h: 300 } }]
    );
}

#[test]
fn capture_keeps_the_size_whatever_the_origin() {
    let mut given = raw(3, 2, vec![0u8; 24]);
    given.screen.x = -1920;
    given.screen.y = -300;
    let shot = Screenshot::take(given).unwrap();
    assert_eq!(shot.dimensions(), (3, 2));
    assert_eq!(shot.data().len(), 18);
}

#[test]
fn screenshot_owns_the_three_handles() {
    let shot = Screenshot::take(raw(1, 1, vec![0u8; 4])).unwrap();
    assert_eq!(shot.handles(), (0xa1, 0xa2, 0xa3));
}

#[test]
fn screenshot_gives_its_handles_back_last_acquired_first() {
    let shot = Screenshot::take(raw(1, 1, vec![0u8; 4])).unwrap();
    assert_eq!(
        shot.release(),
        vec![
            Release { handle: 0xa3, disposal: Disposal::DeleteObject },
            Release { handle: 0xa2, disposal: Disposal::DeleteContext },
            Release { handle: 0xa1, disposal: Disposal::ReleaseContext },
        ]
    );
}

#[test]
fn null_screen_context_is_display_unavailable() {
    let mut given = raw(1, 1, vec![0u8; 4]);
    given.h_screen = 0;
    let failure = Screenshot::take(given).unwrap_err();
    assert_eq!(failure.error, CaptureError::DisplayUnavailable);
    assert_eq!(
        failure.releases,
        vec![
            Release { handle: 0xa3, disposal: Disposal::DeleteObject },
            Release { handle: 0xa2, disposal: Disposal::DeleteContext },
        ]
    );
}

#[test]
fn null_memory_context_is_display_unavailable() {
    let mut given = raw(1, 1, vec![0u8; 4]);
    given.h_dc = 0;
    let failure = Screenshot::take(given).unwrap_err();
    assert_eq!(failure.error, CaptureError::DisplayUnavailable);
    assert_eq!(
        failure.releases,
        vec![
            Release { handle: 0xa3, disposal: Disposal::DeleteObject },
            Release { handle: 0xa1, disposal: Disposal::ReleaseContext },
        ]
    );
}

#[test]
fn null_bitmap_is_display_unavailable() {
    let mut given = raw(1, 1, vec![0u8; 4]);
    given.h_bitmap = 0;
    let failure = Screenshot::take(given).unwrap_err();
    assert_eq!(failure.error, CaptureError::DisplayUnavailable);
    assert_eq!(
        failure.releases,
        vec![
            Release { handle: 0xa2, disposal: Disposal::DeleteContext },
            Release { handle: 0xa1, disposal: Disposal::ReleaseContext },
        ]
    );
}

#[test]
fn no_handle_at_all_leaves_nothing_to_release() {
    let mut given = raw(1, 1, vec![0u8; 4]);
    given.h_screen = 0;
    given.h_dc = 0;
    given.h_bitmap = 0;
    let failure = Screenshot::take(given).unwrap_err();
    assert_eq!(failure.error, CaptureError::DisplayUnavailable);
    assert!(failure.releases.is_empty());
}

#[test]
fn screen_without_extent_is_display_unavailable() {
    for (width, height) in [(0, 0), (0, 5), (5, 0), (-1, 5), (5, -1), (i32::MIN, i32::MIN)] {
        let failure = Screenshot::take(raw(width, height, Vec::new())).unwrap_err();
        assert_eq!(failure.error, CaptureError::DisplayUnavailable);
        assert_eq!(
            failure.releases,
            vec![
                Release { handle: 0xa3, disposal: Disposal::DeleteObject },
                Release { handle: 0xa2, disposal: Disposal::DeleteContext },
                Release { handle: 0xa1, disposal: Disposal::ReleaseContext },
            ]
        );
    }
}

#[test]
fn short_or_long_pixel_buffer_is_incomplete_read() {
    for len in [0usize, 1, 18, 23, 25, 48] {
        let failure = Screenshot::take(raw(3, 2, vec![0u8; len])).unwrap_err();
        assert_eq!(failure.error, CaptureError::IncompleteRead);
        assert_eq!(
            failure.releases,
            vec![
                Release { handle: 0xa3, disposal: Disposal::DeleteObject },
                Release { handle: 0xa2, disposal: Disposal::DeleteContext },
                Release { handle: 0xa1, disposal: Disposal::ReleaseContext },
            ]
        );
    }
}

#[test]
fn failed_capture_gives_each_acquired_handle_back_once() {
    for mask in 0u8..8 {
        let mut given = raw(2, 2, Vec::new());
        given.h_screen = if mask & 1 != 0 { 0xb1 } else { 0 };
        given.h_dc = if mask & 2 != 0 { 0xb2 } else { 0 };
        given.h_bitmap = if mask & 4 != 0 { 0xb3 } else { 0 };
        let failure = Screenshot::take(given).unwrap_err();
        assert_eq!(failure.releases.len() as u32, mask.count_ones());
        for (bit, handle) in [(1u8, 0xb1usize), (2, 0xb2), (4, 0xb3)] {
            let times = failure.releases.iter().filter(|r| r.handle == handle).count();
            assert_eq!(times, if mask & bit != 0 { 1 } else { 0 });
        }
    }
}

#[test]
fn buffer_length_is_padded_row_times_height() {
    assert_eq!(pixel_buffer_len(Rectangle { x: 0, y: 0, w: 1920, h: 1080 }), Some(6_220_800));
    assert_eq!(pixel_buffer_len(Rectangle { x: -1920, y: 0, w: 3840, h: 1080 }), Some(12_441_600));
    assert_eq!(pixel_buffer_len(Rectangle { x: 0, y: 0, w: 1, h: 1 }), Some(4));
    assert_eq!(pixel_buffer_len(Rectangle { x: 0, y: 0, w: 2, h: 3 }), Some(24));
    assert_eq!(pixel_buffer_len(Rectangle { x: 0, y: 0, w: 1366, h: 768 }), Some(3_148_800));
}

#[test]
fn buffer_length_of_a_screen_without_extent_is_none() {
    assert_eq!(pixel_buffer_len(Rectangle { x: 0, y: 0, w: 0, h: 1080 }), None);
    assert_eq!(pixel_buffer_len(Rectangle { x: 0, y: 0, w: 1920, h: 0 }), None);
    assert_eq!(pixel_buffer_len(Rectangle { x: 0, y: 0, w: -1, h: -1 }), None);
}

#[test]
fn buffer_length_of_the_largest_screen_fits_sixty_four_bits() {
    let len = pixel_buffer_len(Rectangle { x: 0, y: 0, w: i32::MAX, h: i32::MAX });
    if usize::BITS >= 64 {
        assert_eq!(len, Some(13_835_058_048_839_712_768));
    } else {
        assert_eq!(len, None);
    }
}
