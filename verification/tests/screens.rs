use cursor_poller::capture::{
    capture_desktop, decimal_text, retain_captured, screen_by_id, CaptureError,
};
use cursor_poller::region::{region_area, CaptureRegion};
use cursor_poller::screens::{
    all_in_range, bounding_desktop, clamp_area, find_screen, listed_desktop, virtual_desktop,
    CaptureArea, ScreenRect, VirtualDesktop,
};

fn rect(id: u32, x: i32, y: i32, width: u32, height: u32) -> ScreenRect {
    ScreenRect { id, x, y, width, height }
}

#[test]
fn desktop_of_one_screen_is_the_screen() {
    let d = virtual_desktop(&vec![rect(1, 0, 0, 1920, 1080)]);
    assert_eq!(
        d,
        VirtualDesktop { virtual_x: 0, virtual_y: 0, virtual_width: 1920, virtual_height: 1080 }
    );
}

#[test]
fn desktop_spans_all_screens() {
    let screens = vec![
        rect(1, 0, 0, 1920, 1080),
        rect(2, -1280, 56, 1280, 1024),
        rect(3, 1920, -400, 1080, 1920),
    ];
    let d = virtual_desktop(&screens);
    assert_eq!(
        d,
        VirtualDesktop {
            virtual_x: -1280,
            virtual_y: -400,
            virtual_width: 4280,
            virtual_height: 1920,
        }
    );
}

#[test]
fn desktop_reaches_the_ends_of_the_coordinate_range() {
    let screens = vec![rect(1, i32::MIN, i32::MIN, 10, 10), rect(2, i32::MAX - 5, i32::MAX, 5, 0)];
    assert!(all_in_range(&screens));
    let d = virtual_desktop(&screens);
    assert_eq!(d.virtual_x, i32::MIN);
    assert_eq!(d.virtual_y, i32::MIN);
    assert_eq!(d.virtual_width, u32::MAX);
    assert_eq!(d.virtual_height, u32::MAX);
}

#[test]
fn in_range_tells_edges_beyond_the_coordinates() {
    assert!(rect(1, 0, 0, i32::MAX as u32, i32::MAX as u32).in_range());
    assert!(!rect(1, 1, 0, i32::MAX as u32, 5).in_range());
    assert!(!rect(1, 0, 1, 5, i32::MAX as u32).in_range());
    assert!(!rect(1, 0, 0, u32::MAX, 0).in_range());
    assert!(rect(1, i32::MIN, i32::MIN, u32::MAX, u32::MAX).in_range());
    assert!(all_in_range(&vec![]));
    assert!(!all_in_range(&vec![rect(1, 0, 0, 1, 1), rect(2, i32::MAX, 0, 1, 1)]));
}

#[test]
fn area_inside_the_screen_is_kept() {
    let screen = rect(1, 100, 200, 800, 600);
    let area = clamp_area(150, 260, 300, 200, &screen);
    assert_eq!(area, CaptureArea { rel_x: 50, rel_y: 60, width: 300, height: 200 });
}

#[test]
fn area_is_cut_off_at_the_screen_edge() {
    let screen = rect(1, 100, 200, 800, 600);
    let area = clamp_area(700, 700, 300, 200, &screen);
    assert_eq!(area, CaptureArea { rel_x: 600, rel_y: 500, width: 200, height: 100 });
}

#[test]
fn area_left_of_the_screen_starts_at_its_origin() {
    let screen = rect(1, 100, 200, 800, 600);
    let area = clamp_area(0, -50, 300, 2000, &screen);
    assert_eq!(area, CaptureArea { rel_x: 0, rel_y: 0, width: 300, height: 600 });
}

#[test]
fn area_beyond_the_screen_is_empty() {
    let screen = rect(1, 0, 0, 800, 600);
    let area = clamp_area(900, 600, 10, 10, &screen);
    assert_eq!(area, CaptureArea { rel_x: 900, rel_y: 600, width: 0, height: 0 });
    let far = clamp_area(i32::MAX, i32::MAX, u32::MAX, 1, &rect(1, i32::MIN, i32::MIN, 5, 5));
    assert_eq!(far, CaptureArea { rel_x: u32::MAX, rel_y: u32::MAX, width: 0, height: 0 });
}

#[test]
fn find_screen_returns_the_first_match() {
    let screens = vec![rect(7, 0, 0, 1, 1), rect(9, 1, 0, 1, 1), rect(9, 2, 0, 1, 1)];
    assert_eq!(find_screen(&screens, 7), Some(0));
    assert_eq!(find_screen(&screens, 9), Some(1));
    assert_eq!(find_screen(&screens, 8), None);
    assert_eq!(find_screen(&vec![], 0), None);
}

#[test]
fn screen_by_id_reports_the_missing_identifier() {
    let screens = vec![rect(7, 0, 0, 1, 1), rect(9, 1, 0, 1, 1)];
    assert_eq!(screen_by_id(&screens, 9), Ok(1));
    assert_eq!(screen_by_id(&screens, 3), Err(CaptureError::ScreenNotFound(3)));
}

#[test]
fn capture_error_messages() {
    assert_eq!(CaptureError::NoScreens.message(), "No screens found");
    assert_eq!(CaptureError::NothingCaptured.message(), "Failed to capture any screen");
    assert_eq!(CaptureError::ScreenNotFound(3).message(), "Screen 3 not found");
    assert_eq!(CaptureError::ScreenNotFound(0).message(), format!("Screen {} not found", 0));
    assert_eq!(
        CaptureError::ScreenNotFound(u32::MAX).message(),
        format!("Screen {} not found", u32::MAX)
    );
}

#[test]
fn decimal_text_matches_the_standard_rendering() {
    for n in [0u32, 1, 9, 10, 11, 99, 100, 101, 12345, 1_000_000, 4294967295] {
        assert_eq!(decimal_text(n), n.to_string());
    }
    assert_eq!(decimal_text(4294967295), "4294967295");
    assert_eq!(decimal_text(70), "70");
}

#[test]
fn retain_keeps_successful_captures_in_order() {
    let kept = retain_captured(vec![Some("a"), None, Some("b"), Some("c"), None]);
    assert_eq!(kept, Ok(vec!["a", "b", "c"]));
    let all = retain_captured(vec![Some(1), Some(2)]);
    assert_eq!(all, Ok(vec![1, 2]));
}

#[test]
fn retain_fails_without_screens() {
    let kept: Result<Vec<u8>, CaptureError> = retain_captured(vec![]);
    assert_eq!(kept, Err(CaptureError::NoScreens));
}

#[test]
fn retain_fails_when_every_capture_failed() {
    let kept: Result<Vec<u8>, CaptureError> = retain_captured(vec![None, None, None]);
    assert_eq!(kept, Err(CaptureError::NothingCaptured));
}

#[test]
fn capture_desktop_needs_a_screen() {
    assert_eq!(capture_desktop(&vec![]), Err(CaptureError::NoScreens));
    let screens = vec![rect(1, 0, 0, 800, 600), rect(2, 800, 100, 640, 480)];
    assert_eq!(
        capture_desktop(&screens),
        Ok(VirtualDesktop { virtual_x: 0, virtual_y: 0, virtual_width: 1440, virtual_height: 600 })
    );
}

#[test]
fn desktop_agrees_with_folding_over_the_edges() {
    let layouts = vec![
        vec![rect(1, 0, 0, 1, 1)],
        vec![rect(1, 5, 5, 0, 0), rect(2, 5, 5, 0, 0)],
        vec![rect(1, -10, 20, 30, 40), rect(2, 15, -5, 5, 100), rect(3, 0, 0, 10, 10)],
        vec![rect(1, 100, 100, 50, 50), rect(2, 0, 0, 10, 10), rect(3, 140, 20, 20, 200)],
        vec![rect(1, -3000, -2000, 1000, 500), rect(2, -2500, -1800, 100, 100)],
    ];
    for screens in layouts {
        let min_x = screens.iter().map(|s| s.x).min().unwrap();
        let min_y = screens.iter().map(|s| s.y).min().unwrap();
        let max_x = screens.iter().map(|s| s.x + s.width as i32).max().unwrap();
        let max_y = screens.iter().map(|s| s.y + s.height as i32).max().unwrap();
        let d = virtual_desktop(&screens);
        assert_eq!(
            d,
            VirtualDesktop {
                virtual_x: min_x,
                virtual_y: min_y,
                virtual_width: (max_x - min_x) as u32,
                virtual_height: (max_y - min_y) as u32,
            }
        );
    }
}

#[test]
fn area_agrees_with_saturating_arithmetic() {
    let screen = rect(1, -200, 100, 1000, 700);
    for (x, y, width, height) in [
        (-200, 100, 1000, 700),
        (-201, 99, 1000, 700),
        (0, 0, 5000, 5000),
        (799, 799, 1, 1),
        (800, 800, 1, 1),
        (300, 400, 0, 0),
        (5000, 5000, 10, 10),
        (-5000, -5000, 10, 10),
    ] {
        let rel_x = (x - screen.x).max(0) as u32;
        let rel_y = (y - screen.y).max(0) as u32;
        let expected = CaptureArea {
            rel_x,
            rel_y,
            width: width.min(screen.width.saturating_sub(rel_x)),
            height: height.min(screen.height.saturating_sub(rel_y)),
        };
        assert_eq!(clamp_area(x, y, width, height, &screen), expected);
    }
}

#[test]
fn listing_no_screens_gives_the_empty_desktop() {
    assert_eq!(bounding_desktop(&vec![]), None);
    assert_eq!(
        listed_desktop(&vec![]),
        VirtualDesktop { virtual_x: 0, virtual_y: 0, virtual_width: 0, virtual_height: 0 }
    );
}

#[test]
fn listing_screens_gives_their_bounding_box() {
    let screens = vec![rect(1, -5, 10, 20, 20), rect(2, 15, 0, 10, 10)];
    let expected =
        VirtualDesktop { virtual_x: -5, virtual_y: 0, virtual_width: 30, virtual_height: 30 };
    assert_eq!(bounding_desktop(&screens), Some(expected));
    assert_eq!(listed_desktop(&screens), expected);
    assert_eq!(listed_desktop(&screens), virtual_desktop(&screens));
}

#[test]
fn region_is_clamped_to_the_screen() {
    let screen = rect(1, 100, 200, 800, 600);
    let inside = CaptureRegion { x: 150, y: 260, width: 300, height: 200 };
    assert_eq!(
        region_area(&inside, &screen),
        CaptureArea { rel_x: 50, rel_y: 60, width: 300, height: 200 }
    );
    let over = CaptureRegion { x: 700, y: 700, width: 5000, height: 5000 };
    assert_eq!(
        region_area(&over, &screen),
        CaptureArea { rel_x: 600, rel_y: 500, width: 200, height: 100 }
    );
    let origin = CaptureRegion { x: 100, y: 200, width: 800, height: 600 };
    assert_eq!(
        region_area(&origin, &screen),
        clamp_area(100, 200, 800, 600, &screen)
    );
}
