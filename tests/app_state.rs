use eframe::egui::scroll_area::ScrollBarVisibility;
use eframe::egui::CursorIcon;
use scroll_canvas::state::{clamp_multiplier, Input, ScrollAreaApp};

#[test]
fn new_state_enables_every_source() {
    let app = ScrollAreaApp::new();
    assert!(app.drag_enabled);
    assert!(app.wheel_enabled);
    assert!(app.bar_enabled);
    assert!(!app.clicked_within);
    assert_eq!(app.wheel_scroll_multiplier.x, 10);
    assert_eq!(app.wheel_scroll_multiplier.y, 10);
}

#[test]
fn each_toggle_flips_only_its_flag() {
    let mut app = ScrollAreaApp::new();
    app.apply(Input::ToggleDrag);
    assert!(!app.drag_enabled);
    assert!(app.wheel_enabled && app.bar_enabled);
    app.apply(Input::ToggleWheel);
    assert!(!app.wheel_enabled);
    app.apply(Input::ToggleBar);
    assert!(!app.bar_enabled);
    assert!(!app.clicked_within);
}

#[test]
fn double_toggle_restores_each_flag() {
    for input in [Input::ToggleDrag, Input::ToggleWheel, Input::ToggleBar] {
        for start in [ScrollAreaApp::new(), {
            let mut s = ScrollAreaApp::new();
            s.apply_all(&vec![Input::ToggleDrag, Input::ToggleWheel, Input::ToggleBar]);
            s
        }] {
            let mut app = start;
            app.apply(input);
            assert_ne!(app, start);
            app.apply(input);
            assert_eq!(app, start);
        }
    }
}

#[test]
fn multiplier_is_clamped_to_two() {
    assert_eq!(clamp_multiplier(35), 20);
    assert_eq!(clamp_multiplier(-100), -20);
    assert_eq!(clamp_multiplier(20), 20);
    assert_eq!(clamp_multiplier(-20), -20);
    assert_eq!(clamp_multiplier(15), 15);
    assert_eq!(clamp_multiplier(i64::MIN), -20);
    assert_eq!(clamp_multiplier(i64::MAX), 20);
}

#[test]
fn multiplier_stays_in_range_over_inputs() {
    let mut app = ScrollAreaApp::new();
    let inputs = vec![
        Input::SetMultiplierX(25),
        Input::SetMultiplierY(-7),
        Input::ToggleWheel,
        Input::SetMultiplierY(-300),
        Input::SetMultiplierX(-5),
        Input::CanvasClick,
        Input::SetMultiplierX(i64::MAX),
    ];
    for input in inputs.iter() {
        app.apply(*input);
        assert!(-20 <= app.wheel_scroll_multiplier.x && app.wheel_scroll_multiplier.x <= 20);
        assert!(-20 <= app.wheel_scroll_multiplier.y && app.wheel_scroll_multiplier.y <= 20);
    }
    assert_eq!(app.wheel_scroll_multiplier.x, 20);
    assert_eq!(app.wheel_scroll_multiplier.y, -20);
    let mut batch = ScrollAreaApp::new();
    batch.apply_all(&inputs);
    assert_eq!(batch, app);
}

#[test]
fn multiplier_axes_are_independent() {
    let mut app = ScrollAreaApp::new();
    app.apply(Input::SetMultiplierX(-15));
    assert_eq!(app.wheel_scroll_multiplier.x, -15);
    assert_eq!(app.wheel_scroll_multiplier.y, 10);
}

#[test]
fn canvas_clicks_flip_by_parity() {
    for n in 0..7usize {
        let mut app = ScrollAreaApp::new();
        app.apply_all(&vec![Input::CanvasClick; n]);
        assert_eq!(app.clicked_within, n % 2 == 1);
        assert!(app.drag_enabled && app.wheel_enabled && app.bar_enabled);
    }
}

#[test]
fn empty_input_sequence_changes_nothing() {
    let mut app = ScrollAreaApp::new();
    app.apply_all(&Vec::new());
    assert_eq!(app, ScrollAreaApp::new());
}

#[test]
fn scroll_source_follows_flags() {
    let mut app = ScrollAreaApp::new();
    let s = app.scroll_source();
    assert!(s.drag && s.mouse_wheel && s.scroll_bar);
    app.apply(Input::ToggleWheel);
    let s = app.scroll_source();
    assert!(s.drag && !s.mouse_wheel && s.scroll_bar);
    app.apply(Input::ToggleDrag);
    app.apply(Input::ToggleBar);
    let s = app.scroll_source();
    assert!(!s.drag && !s.mouse_wheel && !s.scroll_bar);
}

#[test]
fn bar_flag_sets_scroll_bar_visibility() {
    let mut app = ScrollAreaApp::new();
    assert_eq!(app.scroll_bar_visibility(), ScrollBarVisibility::VisibleWhenNeeded);
    assert_eq!(app.scroll_bar_visibility(), ScrollBarVisibility::default());
    app.apply(Input::ToggleBar);
    assert_eq!(app.scroll_bar_visibility(), ScrollBarVisibility::AlwaysHidden);
    app.apply(Input::SetMultiplierY(3));
    app.apply(Input::ToggleDrag);
    assert_eq!(app.scroll_bar_visibility(), ScrollBarVisibility::AlwaysHidden);
    app.apply(Input::ToggleBar);
    assert_eq!(app.scroll_bar_visibility(), ScrollBarVisibility::VisibleWhenNeeded);
}

#[test]
fn crosshair_after_odd_clicks() {
    let mut app = ScrollAreaApp::new();
    assert_eq!(app.canvas_hover_cursor(), None);
    app.apply(Input::CanvasClick);
    assert_eq!(app.canvas_hover_cursor(), Some(CursorIcon::Crosshair));
    app.apply(Input::CanvasClick);
    assert_eq!(app.canvas_hover_cursor(), None);
}
