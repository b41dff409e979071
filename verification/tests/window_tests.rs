use wolf_engine::{FullscreenMode, WindowSettings};

#[test]
fn lib_should_implement_default_trait() {
    let window_settings = WindowSettings::default();
    assert_eq!(
        window_settings,
        WindowSettings {
            title: "Wolf Engine - Untitled Window".to_string(),
            width: 1280,
            height: 720,
            fullscreen_mode: None,
            is_resizable: true,
        }
    );
}

#[test]
fn should_set_title() {
    let settings = WindowSettings::new().with_title("Test Title");
    assert_eq!(settings.title, "Test Title");
}

#[test]
fn should_set_size() {
    let settings = WindowSettings::new().with_size((800, 600));
    assert_eq!(settings.width, 800);
    assert_eq!(settings.height, 600);
}

#[test]
fn should_set_fullscreen_mode() {
    let settings = WindowSettings::new().with_fullscreen_mode(Some(FullscreenMode::Fullscreen));
    assert_eq!(settings.fullscreen_mode, Some(FullscreenMode::Fullscreen));
}

#[test]
fn should_set_fullscreen() {
    let settings = WindowSettings::new().with_fullscreen();
    assert_eq!(settings.fullscreen_mode, Some(FullscreenMode::Fullscreen));
}

#[test]
fn should_set_to_borderless_fullscreen() {
    let settings = WindowSettings::new().with_borderless_fullscreen();
    assert_eq!(settings.fullscreen_mode, Some(FullscreenMode::Borderless));
}

#[test]
fn should_set_to_window_mode() {
    let settings = WindowSettings::new().with_fullscreen();
    assert_eq!(settings.fullscreen_mode, Some(FullscreenMode::Fullscreen));

    let settings = settings.with_windowed();
    assert_eq!(settings.fullscreen_mode, None);
}

#[test]
fn should_set_to_resizable() {
    let settings = WindowSettings::new().with_resizable(false);
    assert_eq!(settings.is_resizable, false);
}
