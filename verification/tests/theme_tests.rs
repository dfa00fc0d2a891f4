use rustmusic::theme::{ColorRole, Rgb, Theme};

#[test]
fn all_lists_every_theme_once_in_order() {
    let all = Theme::all();
    assert_eq!(
        all,
        &[Theme::Dark, Theme::Light, Theme::Midnight, Theme::Ocean, Theme::Forest]
    );
}

#[test]
fn names_of_themes() {
    assert_eq!(Theme::Dark.name(), "Dark");
    assert_eq!(Theme::Light.name(), "Light");
    assert_eq!(Theme::Midnight.name(), "Midnight");
    assert_eq!(Theme::Ocean.name(), "Ocean");
    assert_eq!(Theme::Forest.name(), "Forest");
}

#[test]
fn name_round_trip() {
    for t in Theme::all() {
        assert_eq!(Theme::from_name(t.name()), *t);
    }
}

#[test]
fn unknown_names_select_dark() {
    assert_eq!(Theme::from_name(""), Theme::Dark);
    assert_eq!(Theme::from_name("light"), Theme::Dark);
    assert_eq!(Theme::from_name("Ocean "), Theme::Dark);
    assert_eq!(Theme::from_name("Solarized"), Theme::Dark);
    assert_eq!(Theme::from_name("Dark"), Theme::Dark);
}

#[test]
fn dark_mode_for_all_but_light() {
    assert!(Theme::Dark.is_dark_mode());
    assert!(!Theme::Light.is_dark_mode());
    assert!(Theme::Midnight.is_dark_mode());
    assert!(Theme::Ocean.is_dark_mode());
    assert!(Theme::Forest.is_dark_mode());
}

#[test]
fn palette_samples() {
    assert_eq!(Theme::Dark.bg_main(), Rgb { r: 18, g: 18, b: 18 });
    assert_eq!(Theme::Light.text_primary(), Rgb { r: 0, g: 0, b: 0 });
    assert_eq!(Theme::Dark.text_primary(), Rgb { r: 255, g: 255, b: 255 });
    assert_eq!(Theme::Midnight.accent(), Rgb { r: 80, g: 140, b: 255 });
    assert_eq!(Theme::Ocean.settings_bg(), Rgb { r: 30, g: 45, b: 60 });
    assert_eq!(Theme::Forest.btn_play(), Rgb { r: 60, g: 180, b: 60 });
    assert_eq!(Theme::Light.bg_row_current(), Rgb { r: 180, g: 230, b: 210 });
    assert_eq!(Theme::Ocean.color(ColorRole::SearchBg), Theme::Ocean.search_bg());
}

#[test]
fn row_backgrounds_alternate() {
    let t = Theme::Dark;
    assert_eq!(t.row_background(true, 3), t.bg_row_current());
    assert_eq!(t.row_background(false, 0), t.bg_row_even());
    assert_eq!(t.row_background(false, 1), t.bg_row_odd());
    assert_eq!(t.row_background(false, 4), Rgb { r: 25, g: 25, b: 25 });
}
