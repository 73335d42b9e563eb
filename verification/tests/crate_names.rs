use desktop_music_widget::{
    CLASS_NAME, HOMEPAGE, MUTEX_NAME, REPOSITORY, SETTINGS_CLASS_NAME, VERSION, WINDOW_TITLE,
};

#[test]
fn class_names_are_distinct_and_versioned() {
    let (card, settings) = (CLASS_NAME.to_string(), SETTINGS_CLASS_NAME.to_string());
    assert_ne!(card, settings, "the two windows need separate classes");
    assert!(card.contains("DesktopMusicWidget"));
    assert!(settings.contains("DesktopMusicWidget"));
}

#[test]
fn the_single_instance_mutex_is_not_the_legacy_name() {
    // Keeping these distinct lets the old build keep running side by side
    // with a new one.
    let name = MUTEX_NAME.to_string();
    assert!(name.starts_with("DesktopMusicWidget"));
    assert!(!name.contains("Horiz"));
}

#[test]
fn names_and_version_are_the_published_ones() {
    assert_eq!(WINDOW_TITLE, "DesktopMusicWidget");
    assert!(HOMEPAGE.ends_with("/DesktopMusicWidget"));
    assert_eq!(VERSION, "1.0.5");
}

#[test]
fn homepage_matches_the_package_repository() {
    assert!(REPOSITORY.contains(HOMEPAGE));
}
