use paper_plane::media::{
    dark_theme_changed, follow_system_colors_changed, follows_system_colors, last_updated,
    photo_size_index, ColorScheme, LastUpdated, SchemeSetting,
};

fn types(t: &[&str]) -> Vec<String> {
    t.iter().map(|s| s.to_string()).collect()
}

#[test]
fn photo_sizes() {
    let sizes = types(&["s", "m", "x", "y", "w"]);
    assert_eq!(photo_size_index(&sizes, 1), 2);
    assert_eq!(photo_size_index(&sizes, 2), 3);
    assert_eq!(photo_size_index(&sizes, 3), 4);
    assert_eq!(photo_size_index(&types(&["s", "m"]), 1), 1);
    assert_eq!(photo_size_index(&types(&["x", "x"]), 1), 0);
}

#[test]
fn live_location_updates() {
    assert_eq!(last_updated(0), LastUpdated::JustNow);
    assert_eq!(last_updated(1), LastUpdated::JustNow);
    assert_eq!(last_updated(2), LastUpdated::Minutes(2));
    assert_eq!(last_updated(59), LastUpdated::Minutes(59));
    assert_eq!(last_updated(60), LastUpdated::AnHour);
    assert_eq!(last_updated(135), LastUpdated::HoursAndMinutes { hours: 2, minutes: 15 });
}

#[test]
fn color_schemes() {
    assert_eq!(follow_system_colors_changed(true), (ColorScheme::PreferLight, SchemeSetting::Default));
    assert_eq!(follow_system_colors_changed(false), (ColorScheme::ForceLight, SchemeSetting::Light));
    assert_eq!(dark_theme_changed(true, true), None);
    assert_eq!(dark_theme_changed(false, true), Some((ColorScheme::ForceDark, SchemeSetting::Dark)));
    assert_eq!(dark_theme_changed(false, false), Some((ColorScheme::ForceLight, SchemeSetting::Light)));
    assert_eq!(SchemeSetting::Dark.value(), "dark");
    assert_eq!(SchemeSetting::Default.value(), "default");
    assert_eq!(follows_system_colors(false, "default"), None);
    assert_eq!(follows_system_colors(true, "default"), Some(true));
    assert_eq!(follows_system_colors(true, "dark"), Some(false));
}
