use elevo_messenger::layout::{clamp_to_i32, side_panel_geometry, side_panel_prepare, ScreenInfo};
use elevo_messenger::tray::{
    badge_layout, badge_text, badge_x, composite_width, glyph_pixels, tray_badge_plan, tray_tooltip, BaseIcon,
    GlyphBox, GlyphPlacement, TrayBadgePlan,
};

fn screen(maximized: bool, fullscreen: bool) -> ScreenInfo {
    ScreenInfo {
        monitor_x: 0,
        monitor_w: 2560,
        work_x: 0,
        work_y: 25,
        work_w: 1920,
        work_h: 1055,
        was_fullscreen: fullscreen,
        was_maximized: maximized,
    }
}

#[test]
fn wide_main_window_is_shrunk_and_moved() {
    let info = screen(false, false);
    let steps = side_panel_prepare(&info);
    assert!(!steps.exit_fullscreen && !steps.settle && steps.unmaximize_to.is_none());
    let g = side_panel_geometry(&info, 100, 50, 1800, 1000);
    assert_eq!(g.main_resize, Some((1280, 1000)));
    assert_eq!(g.main_move, Some((0, 50)));
    assert_eq!((g.panel_x, g.panel_y, g.panel_w, g.panel_h), (1280, 50, 1280, 1000));
}

#[test]
fn narrow_main_window_stays() {
    let info = screen(false, true);
    let steps = side_panel_prepare(&info);
    assert!(steps.exit_fullscreen && steps.settle);
    let g = side_panel_geometry(&info, 200, 40, 800, 700);
    assert_eq!(g.main_resize, None);
    assert_eq!(g.main_move, None);
    assert_eq!((g.panel_x, g.panel_y, g.panel_w, g.panel_h), (1000, 40, 1280, 700));
}

#[test]
fn narrow_main_window_too_far_right_moves_left() {
    let info = screen(false, false);
    let g = side_panel_geometry(&info, 1500, 40, 800, 700);
    assert_eq!(g.main_move, Some((480, 40)));
    assert_eq!(g.panel_x, 1280);
}

#[test]
fn maximized_window_takes_left_half_of_work_area() {
    let info = screen(true, false);
    let steps = side_panel_prepare(&info);
    assert_eq!(steps.unmaximize_to, Some((0, 25, 960, 1055)));
    let g = side_panel_geometry(&info, 7, 9, 1920, 1055);
    assert_eq!(g.main_resize, Some((960, 1055)));
    assert_eq!(g.main_move, None);
    assert_eq!((g.panel_x, g.panel_y, g.panel_w, g.panel_h), (960, 25, 960, 1055));
}

#[test]
fn odd_width_rounds_half_up() {
    let mut info = screen(true, false);
    info.work_w = 1921;
    assert_eq!(side_panel_prepare(&info).unmaximize_to, Some((0, 25, 961, 1055)));
    assert_eq!(side_panel_geometry(&info, 0, 0, 1, 1).panel_w, 961);
}

#[test]
fn clamping_like_a_float_cast() {
    assert_eq!(clamp_to_i32(5_000_000_000), i32::MAX);
    assert_eq!(clamp_to_i32(-5_000_000_000), i32::MIN);
    assert_eq!(clamp_to_i32(-7), -7);
}

#[test]
fn badge_texts() {
    assert_eq!(badge_text(0), "0");
    assert_eq!(badge_text(7), "7");
    assert_eq!(badge_text(42), "42");
    assert_eq!(badge_text(99), "99");
    assert_eq!(badge_text(100), "99+");
    assert_eq!(badge_text(u32::MAX), "99+");
}

#[test]
fn tooltips() {
    assert_eq!(tray_tooltip(0, false), "Elevo Messenger");
    assert_eq!(tray_tooltip(3, false), "Elevo Messenger (3)");
    assert_eq!(tray_tooltip(120, false), "Elevo Messenger (120)");
    assert_eq!(tray_tooltip(0, true), "Elevo Messenger - Disconnected");
    assert_eq!(tray_tooltip(5, true), "Elevo Messenger (5) - Disconnected");
}

#[test]
fn plan_restores_plain_icon() {
    match tray_badge_plan(0, None) {
        TrayBadgePlan::Restore { tooltip } => assert_eq!(tooltip, "Elevo Messenger"),
        _ => panic!("expected restore"),
    }
    assert!(matches!(tray_badge_plan(0, Some("syncing")), TrayBadgePlan::Restore { .. }));
}

#[test]
fn plan_restores_plain_icon_at_zero_even_when_disconnected() {
    match tray_badge_plan(0, Some("disconnected")) {
        TrayBadgePlan::Restore { tooltip } => assert_eq!(tooltip, "Elevo Messenger - Disconnected"),
        _ => panic!("expected restore"),
    }
}

#[test]
fn plan_renders_count_and_status() {
    match tray_badge_plan(150, Some("disconnected")) {
        TrayBadgePlan::Render { base, badge, tooltip } => {
            assert!(matches!(base, BaseIcon::Disconnected));
            assert_eq!(badge, "99+");
            assert_eq!(tooltip, "Elevo Messenger (150) - Disconnected");
        }
        _ => panic!("expected render"),
    }
    match tray_badge_plan(4, None) {
        TrayBadgePlan::Render { base, badge, tooltip } => {
            assert!(matches!(base, BaseIcon::Default));
            assert_eq!(badge, "4");
            assert_eq!(tooltip, "Elevo Messenger (4)");
        }
        _ => panic!("expected render"),
    }
}

#[test]
fn composite_sizes() {
    assert_eq!(composite_width(64, 0), 64);
    assert_eq!(composite_width(64, 30), 106);
    assert_eq!(badge_x(64), 76);
}

#[test]
fn badge_layout_places_characters() {
    let glyphs = vec![
        GlyphBox { advance: 28, xmin: 2, width: 24, height: 36 },
        GlyphBox { advance: 28, xmin: -1, width: 26, height: 36 },
        GlyphBox { advance: 30, xmin: 3, width: 25, height: 30 },
    ];
    let (w, xs) = badge_layout(&glyphs);
    assert_eq!(w, 28 + 28 + 30 + 2 + 4);
    assert_eq!(xs, vec![4, 31, 63]);
    let (w1, xs1) = badge_layout(&vec![GlyphBox { advance: 10, xmin: 0, width: 9, height: 9 }]);
    assert_eq!(w1, 14);
    assert_eq!(xs1, vec![2]);
    assert_eq!(badge_layout(&vec![]).0, 4);
}

#[test]
fn glyph_pixels_skip_blank_and_outside() {
    let bitmap = vec![0u8, 10, 20, 30, 0, 40];
    let g = GlyphPlacement { x: 1, y: 2, width: 3, height: 2, image_w: 3, image_h: 4 };
    let w = glyph_pixels(&bitmap, &g);
    let got: Vec<(u32, u32, u8)> = w.iter().map(|p| (p.x, p.y, p.alpha)).collect();
    assert_eq!(got, vec![(2, 2, 10), (1, 3, 30)]);
    let short = glyph_pixels(&vec![5u8], &GlyphPlacement { x: 0, y: 0, width: 2, height: 2, image_w: 9, image_h: 9 });
    assert_eq!(short.len(), 1);
}
