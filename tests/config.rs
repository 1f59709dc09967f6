use presence_lsp::config::{
    get_config_dir, get_config_path, replace_placeholders, ActivityConfig, Config, TimeTracking,
    DEFAULT_APPLICATION_ID,
};
use presence_lsp::language::{detect_language, LanguageInfo};

fn rust() -> LanguageInfo {
    LanguageInfo::new("Rust", "rust")
}

fn config_with(activity: ActivityConfig) -> Config {
    let mut config = Config::default();
    config.activity = Some(activity);
    config
}

#[test]
fn default_templates_give_editing_and_workspace() {
    let config = Config::default();
    let (details, state) =
        config.build_details_and_state("main.rs", "myproj", &detect_language("main.rs"));
    assert_eq!(details, "Editing: main.rs");
    assert_eq!(state, "in myproj");
}

#[test]
fn text_without_placeholders_is_unchanged_twice() {
    let text = "plain {text} with {braces} and {FILENAME}";
    let once = replace_placeholders(text, "a.rs", "ws", &rust(), "Helix");
    assert_eq!(once, text);
    let twice = replace_placeholders(&once, "a.rs", "ws", &rust(), "Helix");
    assert_eq!(twice, text);
}

#[test]
fn all_placeholders_are_replaced() {
    let r = replace_placeholders(
        "{editor}: {filename} ({language}) in {workspace}, {filename} again",
        "lib.rs",
        "demo",
        &rust(),
        "Helix",
    );
    assert_eq!(r, "Helix: lib.rs (Rust) in demo, lib.rs again");
}

#[test]
fn substituted_values_are_not_searched_again() {
    let r = replace_placeholders("{filename} / {workspace}", "{workspace}", "ws", &rust(), "ed");
    assert_eq!(r, "{workspace} / ws");
    let r2 = replace_placeholders("{work{filename}space}", "", "ws", &rust(), "ed");
    assert_eq!(r2, "{workspace}");
}

#[test]
fn getters_fall_back_to_defaults() {
    let config = Config::default();
    assert_eq!(config.get_application_id(), DEFAULT_APPLICATION_ID);
    assert_eq!(config.get_application_id(), 1470506076574187745);
    assert_eq!(config.get_time_tracking(), TimeTracking::File);
    assert_eq!(config.get_editor_name(), "Helix");
    assert!(config.show_language_images());
    assert_eq!(TimeTracking::default(), TimeTracking::File);
}

#[test]
fn getters_read_the_configuration() {
    let mut activity = ActivityConfig::default();
    activity.language_images = Some(false);
    let mut config = config_with(activity);
    config.application_id = Some(42);
    config.time_tracking = Some(TimeTracking::Workspace);
    config.editor_name = Some("Zed".to_string());
    assert_eq!(config.get_application_id(), 42);
    assert_eq!(config.get_time_tracking(), TimeTracking::Workspace);
    assert_eq!(config.get_editor_name(), "Zed");
    assert!(!config.show_language_images());
}

#[test]
fn custom_templates_are_used() {
    let mut activity = ActivityConfig::default();
    activity.details = Some("{language} file {filename}".to_string());
    activity.state = Some("{editor} @ {workspace}".to_string());
    let mut config = config_with(activity);
    config.editor_name = Some("Zed".to_string());
    let (details, state) = config.build_details_and_state("x.rs", "w", &rust());
    assert_eq!(details, "Rust file x.rs");
    assert_eq!(state, "Zed @ w");
}

#[test]
fn activity_without_images_has_no_assets() {
    let config = Config::default();
    let payload = config.build_activity("notes.txt", "w", &detect_language("notes.txt"), None);
    assert_eq!(payload.details, "Editing: notes.txt");
    assert_eq!(payload.state, "in w");
    assert_eq!(payload.start, None);
    assert!(payload.assets.is_none());
}

#[test]
fn activity_has_the_language_icon() {
    let config = Config::default();
    let payload = config.build_activity("main.rs", "w", &rust(), Some(1234));
    assert_eq!(payload.start, Some(1234));
    let assets = payload.assets.expect("assets");
    assert_eq!(assets.small_image.as_deref(), Some("rust"));
    assert_eq!(assets.small_text.as_deref(), Some("Rust"));
    assert_eq!(assets.large_image, None);
    assert_eq!(assets.large_text, None);
}

#[test]
fn language_icon_can_be_switched_off() {
    let mut activity = ActivityConfig::default();
    activity.language_images = Some(false);
    let config = config_with(activity);
    let payload = config.build_activity("main.rs", "w", &rust(), None);
    assert!(payload.assets.is_none());
}

#[test]
fn editor_image_wins_over_large_image() {
    let mut activity = ActivityConfig::default();
    activity.large_image_key = Some("generic".to_string());
    activity.large_image_text = Some("generic text".to_string());
    activity.editor_image_key = Some("helix".to_string());
    activity.editor_image_text = Some("{editor} on {workspace}".to_string());
    let config = config_with(activity);
    let payload = config.build_activity("a.foobar", "demo", &detect_language("a.foobar"), None);
    let assets = payload.assets.expect("assets");
    assert_eq!(assets.large_image.as_deref(), Some("helix"));
    assert_eq!(assets.large_text.as_deref(), Some("Helix on demo"));
    assert_eq!(assets.small_image, None);
    assert_eq!(assets.small_text, None);
}

#[test]
fn large_image_falls_back_to_generic_key() {
    let mut activity = ActivityConfig::default();
    activity.large_image_key = Some("generic".to_string());
    activity.large_image_text = Some("in {workspace}".to_string());
    let config = config_with(activity);
    let payload = config.build_activity("a.rs", "demo", &rust(), None);
    let assets = payload.assets.expect("assets");
    assert_eq!(assets.large_image.as_deref(), Some("generic"));
    assert_eq!(assets.large_text.as_deref(), Some("in demo"));
    assert_eq!(assets.small_image.as_deref(), Some("rust"));
}

#[test]
fn label_without_key_is_dropped() {
    let mut activity = ActivityConfig::default();
    activity.large_image_text = Some("label".to_string());
    activity.language_images = Some(false);
    let config = config_with(activity);
    let payload = config.build_activity("a.rs", "demo", &rust(), None);
    assert!(payload.assets.is_none());
}

#[test]
fn config_path_is_under_home() {
    assert_eq!(
        get_config_dir(Some("/home/user")).as_deref(),
        Some("/home/user/.config/discord-presence-lsp")
    );
    assert_eq!(
        get_config_path(Some("/home/user/")).as_deref(),
        Some("/home/user/.config/discord-presence-lsp/config.toml")
    );
    assert_eq!(get_config_path(None), None);
}
