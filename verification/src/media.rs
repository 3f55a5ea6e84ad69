//! Choices of the media rows and of the preferences: which size of a photo
//! is loaded, how long ago a live location was updated, and which color
//! scheme the preferences apply.

use vstd::prelude::*;

verus! {

/// The type of photo size loaded at a screen scale factor: "y" (up to
/// 1280 pixels) on double-density screens, "x" (up to 800 pixels) below.
pub open spec fn wanted_size_type(scale_factor: int) -> Seq<char> {
    if scale_factor > 1 { seq!['y'] } else { seq!['x'] }
}

/// Which of a photo's sizes, listed by their type from the smallest up, is
/// loaded at a screen scale factor: the largest above double density, else
/// the first of the wanted type, or the largest when there is none.
pub fn photo_size_index(size_types: &Vec<String>, scale_factor: i32) -> (i: usize)
    requires
        size_types.len() > 0,
    ensures
        i < size_types.len(),
        scale_factor > 2 ==> i == size_types.len() - 1,
        scale_factor <= 2 && (exists|j: int| 0 <= j < size_types.len() && size_types@[j]@ == wanted_size_type(scale_factor as int)) ==> {
            &&& size_types@[i as int]@ == wanted_size_type(scale_factor as int)
            &&& forall|j: int| 0 <= j < i ==> size_types@[j]@ != wanted_size_type(scale_factor as int)
        },
        scale_factor <= 2 && !(exists|j: int| 0 <= j < size_types.len() && size_types@[j]@ == wanted_size_type(scale_factor as int)) ==> i == size_types.len() - 1,
{
    let last: usize = size_types.len() - 1;
    if scale_factor > 2 {
        return last;
    }
    let wanted: String = if scale_factor > 1 { "y".to_owned() } else { "x".to_owned() };
    proof {
        reveal_strlit("y");
        reveal_strlit("x");
        assert(wanted@ == wanted_size_type(scale_factor as int));
    }
    let mut k: usize = 0;
    while k < size_types.len()
        invariant
            k <= size_types.len(),
            scale_factor <= 2,
            wanted@ == wanted_size_type(scale_factor as int),
            forall|j: int| 0 <= j < k ==> size_types@[j]@ != wanted@,
        decreases size_types.len() - k,
    {
        if size_types[k] == wanted {
            return k;
        }
        k = k + 1;
    }
    last
}

/// How long ago the position of a live location was last updated.
#[derive(PartialEq, Eq, Structural, Clone, Copy, Debug)]
pub enum LastUpdated {
    /// "updated just now"
    JustNow,
    /// "updated {} minutes ago"
    Minutes(i64),
    /// "updated an hour ago"
    AnHour,
    /// "updated {hours} hours and {minutes} minutes ago"
    HoursAndMinutes { hours: i64, minutes: i64 },
}

/// The label of a live location updated `minutes` whole minutes ago: just
/// now up to a minute, in minutes below an hour, an hour at sixty minutes,
/// in hours and minutes beyond.
pub fn last_updated(minutes: i64) -> (r: LastUpdated)
    ensures
        minutes <= 1 ==> r == LastUpdated::JustNow,
        1 < minutes < 60 ==> r == LastUpdated::Minutes(minutes),
        minutes == 60 ==> r == LastUpdated::AnHour,
        minutes > 60 ==> r == (LastUpdated::HoursAndMinutes { hours: (minutes / 60) as i64, minutes: (minutes % 60) as i64 }),
{
    if minutes <= 1 {
        LastUpdated::JustNow
    } else if minutes < 60 {
        LastUpdated::Minutes(minutes)
    } else if minutes == 60 {
        LastUpdated::AnHour
    } else {
        LastUpdated::HoursAndMinutes { hours: minutes / 60, minutes: minutes % 60 }
    }
}

/// The color schemes the application asks for.
#[derive(PartialEq, Eq, Structural, Clone, Copy, Debug)]
pub enum ColorScheme {
    /// Light, unless the system prefers dark colors.
    PreferLight,
    ForceLight,
    ForceDark,
}

/// The color scheme to apply and the value of the "color-scheme" setting
/// to store.
#[derive(PartialEq, Eq, Structural, Clone, Copy, Debug)]
pub enum SchemeSetting {
    /// "default": the system's colors are followed.
    Default,
    /// "light"
    Light,
    /// "dark"
    Dark,
}

impl SchemeSetting {
    /// The stored value.
    pub fn value(&self) -> (s: &'static str)
        ensures
            *self == SchemeSetting::Default ==> s@ == "default"@,
            *self == SchemeSetting::Light ==> s@ == "light"@,
            *self == SchemeSetting::Dark ==> s@ == "dark"@,
    {
        match self {
            SchemeSetting::Default => "default",
            SchemeSetting::Light => "light",
            SchemeSetting::Dark => "dark",
        }
    }
}

/// What turning the "Follow system colors" switch on or off applies: the
/// preferred light scheme stored as "default", or the forced light scheme
/// stored as "light".
pub fn follow_system_colors_changed(active: bool) -> (r: (ColorScheme, SchemeSetting))
    ensures
        active ==> r == (ColorScheme::PreferLight, SchemeSetting::Default),
        !active ==> r == (ColorScheme::ForceLight, SchemeSetting::Light),
{
    if active {
        (ColorScheme::PreferLight, SchemeSetting::Default)
    } else {
        (ColorScheme::ForceLight, SchemeSetting::Light)
    }
}

/// What turning the "Dark theme" switch on or off applies: nothing while
/// the system's colors are followed, else the forced dark or light scheme.
pub fn dark_theme_changed(follow_system_colors: bool, dark: bool) -> (r: Option<(ColorScheme, SchemeSetting)>)
    ensures
        follow_system_colors ==> r is None,
        !follow_system_colors && dark ==> r == Some((ColorScheme::ForceDark, SchemeSetting::Dark)),
        !follow_system_colors && !dark ==> r == Some((ColorScheme::ForceLight, SchemeSetting::Light)),
{
    if follow_system_colors {
        None
    } else if dark {
        Some((ColorScheme::ForceDark, SchemeSetting::Dark))
    } else {
        Some((ColorScheme::ForceLight, SchemeSetting::Light))
    }
}

/// Whether the "Follow system colors" switch starts on: when the system
/// has color schemes and the stored setting is "default"; `None` when the
/// system has none, and the switch is then disabled.
pub fn follows_system_colors(system_supports_color_schemes: bool, setting: &str) -> (r: Option<bool>)
    ensures
        !system_supports_color_schemes ==> r is None,
        system_supports_color_schemes ==> r == Some(setting@ == "default"@),
{
    if !system_supports_color_schemes {
        return None;
    }
    let stored: String = setting.to_owned();
    let default: String = "default".to_owned();
    Some(stored == default)
}

} // verus!
