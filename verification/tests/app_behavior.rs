use tour_app::frame::{
    frame_step, slider_clamp, FrameAction, UiConfig, UiEvent, INCREMENT_STEP, SLIDER_MAX,
    SLIDER_MIN,
};
use tour_app::layout::{central_widgets, footer_fragments, menu_bar_items, Fragment, MenuItem, Widget};
use tour_app::persist::PersistedRecord;
use tour_app::state::{TourApp, DEFAULT_FONT_SIZE, DEFAULT_VALUE};
use tour_app::style::{
    load_fonts, set_font_color, set_style, text_color, FontFamily, FontRegistry, FontSpec, Rgb,
    TextStyle, Theme, Visuals,
};

const NATIVE: UiConfig = UiConfig { is_web: false };
const WEB: UiConfig = UiConfig { is_web: true };

#[test]
fn missing_snapshot_yields_defaults() {
    let app = TourApp::new(None);
    assert_eq!(app.label, "Hello World!");
    assert_eq!(app.value, DEFAULT_VALUE);
    assert_eq!(app.value, 27);
    assert_eq!(app.font_size, DEFAULT_FONT_SIZE);
    assert_eq!(app.font_size, 320);
}

#[test]
fn default_matches_startup_without_snapshot() {
    let d = TourApp::default();
    let app = TourApp::new(None);
    assert_eq!(d.label, app.label);
    assert_eq!(d.value, app.value);
    assert_eq!(d.font_size, app.font_size);
}

#[test]
fn partial_snapshot_defaults_each_missing_field() {
    let app = TourApp::new(Some(PersistedRecord {
        label: None,
        font_size: Some(110),
    }));
    assert_eq!(app.label, "Hello World!");
    assert_eq!(app.font_size, 110);
    assert_eq!(app.value, DEFAULT_VALUE);

    let app = TourApp::new(Some(PersistedRecord {
        label: Some("kept".to_string()),
        font_size: None,
    }));
    assert_eq!(app.label, "kept");
    assert_eq!(app.font_size, DEFAULT_FONT_SIZE);
    assert_eq!(app.value, DEFAULT_VALUE);
}

#[test]
fn save_writes_label_and_font_size_only() {
    let mut app = TourApp::new(None);
    app.label = "noted".to_string();
    app.font_size = 180;
    app.value = 99;
    let rec = app.save();
    assert_eq!(rec.label, Some("noted".to_string()));
    assert_eq!(rec.font_size, Some(180));
}

#[test]
fn persist_round_trip_keeps_label_and_font_size_resets_value() {
    let mut app = TourApp::new(None);
    app.label = "round trip".to_string();
    app.font_size = 200;
    app.value = 84;
    let again = TourApp::new(Some(app.save()));
    assert_eq!(again.label, "round trip");
    assert_eq!(again.font_size, 200);
    assert_eq!(again.value, DEFAULT_VALUE);
    assert_ne!(again.value, 84);
}

#[test]
fn n_clicks_raise_value_by_n_units() {
    let mut app = TourApp::new(None);
    for _ in 0..3 {
        let a = frame_step(&mut app, &NATIVE, UiEvent::IncrementClicked);
        assert_eq!(a, FrameAction::Continue);
    }
    assert_eq!(app.value, 27 + 3 * INCREMENT_STEP);
    assert_eq!(app.label, "Hello World!");
    assert_eq!(app.font_size, DEFAULT_FONT_SIZE);
}

#[test]
fn increment_button_has_no_upper_bound_of_its_own() {
    let mut app = TourApp::new(None);
    for _ in 0..8 {
        frame_step(&mut app, &NATIVE, UiEvent::IncrementClicked);
    }
    assert_eq!(app.value, 107);
    assert!(app.value > SLIDER_MAX);
}

#[test]
fn slider_clamps_to_its_range() {
    assert_eq!(slider_clamp(-5), SLIDER_MIN);
    assert_eq!(slider_clamp(-1), 0);
    assert_eq!(slider_clamp(0), 0);
    assert_eq!(slider_clamp(42), 42);
    assert_eq!(slider_clamp(100), 100);
    assert_eq!(slider_clamp(101), SLIDER_MAX);
    assert_eq!(slider_clamp(i64::MIN), SLIDER_MIN);
    assert_eq!(slider_clamp(i64::MAX), SLIDER_MAX);
}

#[test]
fn slider_drag_clamps_value() {
    let mut app = TourApp::new(None);
    frame_step(&mut app, &NATIVE, UiEvent::SliderDragged(2000));
    assert_eq!(app.value, SLIDER_MAX);
    frame_step(&mut app, &NATIVE, UiEvent::SliderDragged(-7));
    assert_eq!(app.value, SLIDER_MIN);
    frame_step(&mut app, &NATIVE, UiEvent::SliderDragged(63));
    assert_eq!(app.value, 63);
}

#[test]
fn label_edit_replaces_text_and_nothing_else() {
    let mut app = TourApp::new(None);
    let a = frame_step(&mut app, &NATIVE, UiEvent::LabelEdited("typed".to_string()));
    assert_eq!(a, FrameAction::Continue);
    assert_eq!(app.label, "typed");
    assert_eq!(app.value, DEFAULT_VALUE);
    assert_eq!(app.font_size, DEFAULT_FONT_SIZE);
}

#[test]
fn idle_frame_changes_nothing() {
    let mut app = TourApp::new(None);
    let a = frame_step(&mut app, &NATIVE, UiEvent::Idle);
    assert_eq!(a, FrameAction::Continue);
    assert_eq!(app.label, "Hello World!");
    assert_eq!(app.value, DEFAULT_VALUE);
    assert_eq!(app.font_size, DEFAULT_FONT_SIZE);
}

#[test]
fn quit_requests_close_only_outside_web() {
    let mut app = TourApp::new(None);
    assert_eq!(
        frame_step(&mut app, &NATIVE, UiEvent::QuitClicked),
        FrameAction::RequestClose
    );
    assert_eq!(
        frame_step(&mut app, &WEB, UiEvent::QuitClicked),
        FrameAction::Continue
    );
    assert_eq!(app.value, DEFAULT_VALUE);
}

#[test]
fn menu_has_quit_only_outside_web() {
    let native = menu_bar_items(&NATIVE);
    assert_eq!(native, vec![MenuItem::FileQuit, MenuItem::ThemeToggle]);
    let web = menu_bar_items(&WEB);
    assert_eq!(web, vec![MenuItem::ThemeToggle]);
    assert!(!web.contains(&MenuItem::FileQuit));
}

#[test]
fn central_panel_declares_widgets_in_order() {
    let w = central_widgets();
    assert_eq!(w.len(), 8);
    match &w[0] {
        Widget::Heading(t) => assert_eq!(t, "EGUI Tour"),
        _ => panic!("expected the heading first"),
    }
    match &w[1] {
        Widget::Label(t) => assert_eq!(t, "Write something: "),
        _ => panic!("expected the prompt label"),
    }
    match &w[2] {
        Widget::TextInput { letter_spacing } => assert_eq!(*letter_spacing, 20),
        _ => panic!("expected the text input"),
    }
    match &w[3] {
        Widget::Slider { min, max } => {
            assert_eq!(*min, SLIDER_MIN);
            assert_eq!(*max, SLIDER_MAX);
        }
        _ => panic!("expected the slider"),
    }
    match &w[4] {
        Widget::Button(t) => assert_eq!(t, "Increment"),
        _ => panic!("expected the increment button"),
    }
    assert!(matches!(w[5], Widget::Separator));
    match &w[6] {
        Widget::Hyperlink(l) => {
            assert_eq!(l.text, "Source code.");
            assert_eq!(l.url, "https://github.com/emilk/eframe_template/blob/main/");
        }
        _ => panic!("expected the source link"),
    }
    assert!(matches!(w[7], Widget::Footer));
}

#[test]
fn footer_names_both_frameworks() {
    let f = footer_fragments();
    assert_eq!(f.len(), 5);
    match &f[0] {
        Fragment::Text(t) => assert_eq!(t, "Powered by "),
        _ => panic!("expected leading text"),
    }
    match &f[1] {
        Fragment::Link(l) => {
            assert_eq!(l.text, "egui");
            assert_eq!(l.url, "https://github.com/emilk/egui");
        }
        _ => panic!("expected the first link"),
    }
    match &f[2] {
        Fragment::Text(t) => assert_eq!(t, " and "),
        _ => panic!("expected joining text"),
    }
    match &f[3] {
        Fragment::Link(l) => {
            assert_eq!(l.text, "eframe");
            assert_eq!(l.url, "https://github.com/emilk/egui/tree/master/crates/eframe");
        }
        _ => panic!("expected the second link"),
    }
    match &f[4] {
        Fragment::Text(t) => assert_eq!(t, "."),
        _ => panic!("expected the closing text"),
    }
}

#[test]
fn style_table_sets_every_text_role() {
    let styles = set_style();
    assert_eq!(
        styles,
        vec![
            (TextStyle::Heading, FontSpec { size: 240, family: FontFamily::Proportional }),
            (TextStyle::Body, FontSpec { size: 160, family: FontFamily::Proportional }),
            (TextStyle::Monospace, FontSpec { size: 160, family: FontFamily::Monospace }),
            (TextStyle::Button, FontSpec { size: 160, family: FontFamily::Proportional }),
            (TextStyle::Small, FontSpec { size: 120, family: FontFamily::Proportional }),
        ]
    );
}

#[test]
fn custom_font_ranks_first_proportional_last_monospace() {
    let mut reg = FontRegistry {
        proportional: vec!["ubuntu".to_string(), "emoji".to_string()],
        monospace: vec!["hack".to_string()],
    };
    load_fonts(&mut reg);
    assert_eq!(
        reg.proportional,
        vec!["my_font".to_string(), "ubuntu".to_string(), "emoji".to_string()]
    );
    assert_eq!(reg.monospace, vec!["hack".to_string(), "my_font".to_string()]);
}

#[test]
fn text_color_follows_theme() {
    assert_eq!(text_color(Theme::Dark), Rgb { r: 255, g: 255, b: 255 });
    assert_eq!(text_color(Theme::Light), Rgb { r: 0, g: 0, b: 0 });
    let mut visuals = Visuals { override_text_color: None };
    set_font_color(&mut visuals, Theme::Dark);
    assert_eq!(visuals.override_text_color, Some(Rgb { r: 255, g: 255, b: 255 }));
    set_font_color(&mut visuals, Theme::Light);
    assert_eq!(visuals.override_text_color, Some(Rgb { r: 0, g: 0, b: 0 }));
}
