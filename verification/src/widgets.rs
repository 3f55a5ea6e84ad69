//! Smaller widgets and views: the snow of the holidays, the circular
//! progress bar's size, file status icons, chat backgrounds, the archive
//! row, the chat info window and the choice of the session to open.

use vstd::prelude::*;
use crate::text::{chars_of, string_from_chars, push_str, push_chars, same_chars};

verus! {

/// Whether snow falls on this date: from December 24 to January 5.
pub open spec fn spec_is_snow_season(month: i32, day: i32) -> bool {
    if month == 12 {
        day >= 24
    } else if month == 1 {
        day <= 5
    } else {
        false
    }
}

/// Whether snow falls on the given local date (month 1 to 12).
pub fn is_snow_season(month: i32, day: i32) -> (b: bool)
    ensures
        b == spec_is_snow_season(month, day),
{
    if month == 12 {
        day >= 24
    } else if month == 1 {
        day <= 5
    } else {
        false
    }
}

/// The snow that falls over the window during the holidays.
pub struct Snow {
    /// Whether the snow shows.
    pub visible: bool,
    /// The frame time (in microseconds) at which the snow started falling,
    /// once its shader is in place.
    pub time_start: Option<i64>,
    /// Whether the shader compiled.
    pub has_shader: bool,
}

impl Snow {
    /// Snow for a window opened on the given date (`None` when the local
    /// date is not known): it shows only in the season.
    pub fn new(date: Option<(i32, i32)>) -> (s: Self)
        ensures
            s.visible == (match date {
                Some((month, day)) => spec_is_snow_season(month, day),
                None => false,
            }),
            s.time_start is None,
            !s.has_shader,
    {
        let visible = match date {
            Some((month, day)) => is_snow_season(month, day),
            None => false,
        };
        Snow { visible, time_start: None, has_shader: false }
    }

    /// Whether drawing still has to set up the shader.
    pub fn needs_shader(&self) -> (b: bool)
        ensures
            b == (self.time_start is None),
    {
        self.time_start.is_none()
    }

    /// Sets up the shader at frame time `frame_time`: the snow starts
    /// falling then; if the shader did not compile, the snow hides.
    pub fn shader_ready(&mut self, frame_time: i64, compiled: bool)
        requires
            old(self).time_start is None,
        ensures
            final(self).time_start == Some(frame_time),
            final(self).has_shader == compiled,
            final(self).visible == (old(self).visible && compiled),
    {
        self.time_start = Some(frame_time);
        self.has_shader = compiled;
        if !compiled {
            self.visible = false;
        }
    }

    /// How long (in microseconds) the snow has been falling at frame time
    /// `frame_time`, if its shader is in place.
    pub fn elapsed(&self, frame_time: i64) -> (r: Option<i64>)
        ensures
            match self.time_start {
                Some(t) => if self.has_shader && i64::MIN <= frame_time - t <= i64::MAX {
                    r == Some((frame_time - t) as i64)
                } else {
                    r is None
                },
                None => r is None,
            },
    {
        match self.time_start {
            Some(t) => if self.has_shader {
                frame_time.checked_sub(t)
            } else {
                None
            },
            None => None,
        }
    }
}

/// The size of the circular progress bar for a requested width and
/// height: the smaller of the two, but at least 16.
pub fn circular_progress_size(width: i32, height: i32) -> (size: i32)
    ensures
        size == (if width < height { if width > 16 { width } else { 16 } } else { if height > 16 { height } else { 16 } }),
{
    let smaller = if width < height { width } else { height };
    if smaller > 16 {
        smaller
    } else {
        16
    }
}

/// The state of a file of a document message.
#[derive(PartialEq, Eq, Structural, Clone, Copy, Debug)]
pub enum FileStatus {
    /// Being downloaded; the share done, in percent.
    Downloading(i32),
    /// Being uploaded; the share done, in percent.
    Uploading(i32),
    CanBeDownloaded,
    Downloaded,
}

/// The icon on a document: stop while it moves, save when it can be
/// downloaded, open once it is there.
pub fn file_status_icon(status: FileStatus) -> (s: &'static str)
    ensures
        (status is Downloading || status is Uploading) ==> s@ == "media-playback-stop-symbolic"@,
        status is CanBeDownloaded ==> s@ == "document-save-symbolic"@,
        status is Downloaded ==> s@ == "folder-documents-symbolic"@,
{
    match status {
        FileStatus::Downloading(_) | FileStatus::Uploading(_) => "media-playback-stop-symbolic",
        FileStatus::CanBeDownloaded => "document-save-symbolic",
        FileStatus::Downloaded => "folder-documents-symbolic",
    }
}

/// The red, green and blue bytes of a color written as `0xRRGGBB`.
pub open spec fn spec_color_bytes(c: i32) -> (u8, u8, u8) {
    (((c >> 16u32) & 0xff) as u8, ((c >> 8u32) & 0xff) as u8, (c & 0xff) as u8)
}

/// The four corner colors of a freeform gradient background, as bytes.
pub fn gradient_colors(colors: &Vec<i32>) -> (r: Vec<(u8, u8, u8)>)
    requires
        colors.len() == 4,
    ensures
        r@.len() == 4,
        forall|i: int| 0 <= i < 4 ==> #[trigger] r@[i] == spec_color_bytes(colors@[i]),
{
    let mut r: Vec<(u8, u8, u8)> = Vec::new();
    let mut i: usize = 0;
    while i < 4
        invariant
            i <= 4,
            colors.len() == 4,
            r@.len() == i,
            forall|j: int| 0 <= j < i ==> #[trigger] r@[j] == spec_color_bytes(colors@[j]),
        decreases 4 - i,
    {
        let c = colors[i];
        let red = ((c >> 16u32) & 0xff) as u8;
        let green = ((c >> 8u32) & 0xff) as u8;
        let blue = (c & 0xff) as u8;
        r.push((red, green, blue));
        i = i + 1;
    }
    r
}

/// The gradient colors of the built-in chat backgrounds, for the dark and
/// the light style.
pub fn default_background_colors(dark: bool) -> (r: Vec<i32>)
    ensures
        dark ==> r@ == seq![0xd6932ei32, 0xbc40db, 0x4280d7, 0x614ed5],
        !dark ==> r@ == seq![0x94dae9i32, 0x9aeddb, 0x94c3f6, 0xac96f7],
{
    if dark {
        vec![0xd6932e, 0xbc40db, 0x4280d7, 0x614ed5]
    } else {
        vec![0x94dae9, 0x9aeddb, 0x94c3f6, 0xac96f7]
    }
}

/// The names joined, with `", "` between two names.
pub open spec fn joined(names: Seq<Seq<char>>) -> Seq<char>
    decreases names.len(),
{
    if names.len() == 0 {
        Seq::empty()
    } else if names.len() == 1 {
        names[0]
    } else {
        joined(names.drop_last()) + ", "@ + names.last()
    }
}

/// The names of the chats of the archive, as the archive row lists them.
pub fn archive_chats_label(names: &Vec<String>) -> (s: String)
    ensures
        s@ == joined(names@.map_values(|n: String| n@)),
{
    let ghost views = names@.map_values(|n: String| n@);
    let mut out: Vec<char> = Vec::new();
    let mut i: usize = 0;
    while i < names.len()
        invariant
            i <= names.len(),
            views == names@.map_values(|n: String| n@),
            out@ == joined(views.take(i as int)),
        decreases names.len() - i,
    {
        if i > 0 {
            push_str(&mut out, ", ");
        }
        push_str(&mut out, names[i].as_str());
        assert(views.take((i + 1) as int).drop_last() =~= views.take(i as int));
        i = i + 1;
        proof {
            if i == 1 {
                assert(out@ =~= views.take(1)[0]);
            }
        }
    }
    assert(views.take(i as int) =~= views);
    string_from_chars(&out)
}

/// `prefix` followed by `value`, when `value` is not empty.
pub open spec fn prefixed_unless_empty(prefix: Seq<char>, value: Seq<char>) -> Option<Seq<char>> {
    if value.len() == 0 {
        None
    } else {
        Some(prefix + value)
    }
}

fn prefix_unless_empty(prefix: &str, value: &str) -> (r: Option<String>)
    ensures
        r matches Some(s) ==> prefixed_unless_empty(prefix@, value@) == Some(s@),
        r is None ==> prefixed_unless_empty(prefix@, value@) is None,
{
    let v = chars_of(value);
    if v.len() == 0 {
        None
    } else {
        let mut out = chars_of(prefix);
        push_chars(&mut out, &v);
        Some(string_from_chars(&out))
    }
}

/// The "Mobile" row of a user's info: `+` and the phone number, if known.
pub fn phone_number_row(phone_number: &str) -> (r: Option<String>)
    ensures
        r matches Some(s) ==> prefixed_unless_empty("+"@, phone_number@) == Some(s@),
        r is None ==> phone_number@.len() == 0,
{
    prefix_unless_empty("+", phone_number)
}

/// The "Username" row of a user's info: `@` and the username, if any.
pub fn username_row(username: &str) -> (r: Option<String>)
    ensures
        r matches Some(s) ==> prefixed_unless_empty("@"@, username@) == Some(s@),
        r is None ==> username@.len() == 0,
{
    prefix_unless_empty("@", username)
}

/// The "Link" row of a supergroup's info: its public link, if it has a
/// username.
pub fn group_link_row(username: &str) -> (r: Option<String>)
    ensures
        r matches Some(s) ==> prefixed_unless_empty("https://t.me/"@, username@) == Some(s@),
        r is None ==> username@.len() == 0,
{
    prefix_unless_empty("https://t.me/", username)
}

/// The "Description" row of a group's full info: the description, if it is
/// not empty.
pub fn description_row(description: &str) -> (r: Option<String>)
    ensures
        r matches Some(s) ==> s@ == description@ && description@.len() > 0,
        r is None ==> description@.len() == 0,
{
    let r = prefix_unless_empty("", description);
    proof {
        reveal_strlit("");
        assert(""@ + description@ =~= description@);
    }
    r
}

/// Which session the window opens at start.
#[derive(PartialEq, Eq, Structural, Clone, Copy, Debug)]
pub enum SessionChoice {
    /// The session at this index.
    Existing(usize),
    /// A new session (there is none).
    NewClient,
}

/// The session to open: the one last used, found by its directory's name,
/// or else the first; a new one when there is none.
pub fn restore_session(directory_names: &Vec<String>, last_used: &str) -> (c: SessionChoice)
    ensures
        directory_names@.len() == 0 ==> c == SessionChoice::NewClient,
        directory_names@.len() > 0 ==> (c matches SessionChoice::Existing(i) && i < directory_names@.len()
            && ((directory_names@[i as int]@ == last_used@ && forall|j: int| 0 <= j < i ==> directory_names@[j]@ != last_used@)
                || (i == 0 && forall|j: int| 0 <= j < directory_names@.len() ==> directory_names@[j]@ != last_used@))),
{
    if directory_names.len() == 0 {
        return SessionChoice::NewClient;
    }
    let wanted = chars_of(last_used);
    let mut i: usize = 0;
    while i < directory_names.len()
        invariant
            i <= directory_names.len(),
            wanted@ == last_used@,
            forall|j: int| 0 <= j < i ==> directory_names@[j]@ != last_used@,
        decreases directory_names.len() - i,
    {
        let name = chars_of(directory_names[i].as_str());
        if same_chars(&name, &wanted) {
            return SessionChoice::Existing(i);
        }
        i = i + 1;
    }
    SessionChoice::Existing(0)
}

/// A chat to select by a notification is selected only in the session it
/// belongs to, if that session is the active one.
pub fn should_select_chat(active_client_id: Option<i32>, client_id: i32) -> (b: bool)
    ensures
        b == (active_client_id == Some(client_id)),
{
    match active_client_id {
        Some(id) => id == client_id,
        None => false,
    }
}


/// The pixel layouts of decoded images, as far as textures are concerned.
#[derive(PartialEq, Eq, Structural, Clone, Copy, Debug)]
pub enum ImageKind {
    Luma8,
    LumaA8,
    Rgb8,
    Rgba8,
    /// Any other layout (16-bit or floating point channels, say).
    Other,
}

/// The memory formats of textures that decoded images become.
#[derive(PartialEq, Eq, Structural, Clone, Copy, Debug)]
pub enum TextureFormat {
    R8g8b8,
    R8g8b8a8,
}

/// How a decoded image becomes a texture: its memory format, and whether
/// its pixels are first converted to that format.
#[derive(PartialEq, Eq, Structural, Clone, Copy, Debug)]
pub struct TextureConversion {
    pub format: TextureFormat,
    pub convert: bool,
}

/// Gray images become RGB (with alpha, when they have one) after a
/// conversion; RGB and RGBA images are taken as they are; other layouts
/// are not supported.
pub fn texture_conversion(kind: ImageKind) -> (r: Option<TextureConversion>)
    ensures
        kind == ImageKind::Luma8 ==> r == Some(TextureConversion { format: TextureFormat::R8g8b8, convert: true }),
        kind == ImageKind::LumaA8 ==> r == Some(TextureConversion { format: TextureFormat::R8g8b8a8, convert: true }),
        kind == ImageKind::Rgb8 ==> r == Some(TextureConversion { format: TextureFormat::R8g8b8, convert: false }),
        kind == ImageKind::Rgba8 ==> r == Some(TextureConversion { format: TextureFormat::R8g8b8a8, convert: false }),
        kind == ImageKind::Other ==> r is None,
{
    match kind {
        ImageKind::Luma8 => Some(TextureConversion { format: TextureFormat::R8g8b8, convert: true }),
        ImageKind::LumaA8 => Some(TextureConversion { format: TextureFormat::R8g8b8a8, convert: true }),
        ImageKind::Rgb8 => Some(TextureConversion { format: TextureFormat::R8g8b8, convert: false }),
        ImageKind::Rgba8 => Some(TextureConversion { format: TextureFormat::R8g8b8a8, convert: false }),
        ImageKind::Other => None,
    }
}

} // verus!
