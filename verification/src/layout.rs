//! The size requests and placements of the client's own widgets: message
//! bubbles and labels, the chat folder icon, map markers, the map and the
//! position of its license label.

use vstd::prelude::*;
use crate::message::{Direction, OBJECT_REPLACEMENT_CHARACTER};
use crate::phone::{index_of, utf8_count, find_char, utf8_len_of};
use crate::duration::div_toward_zero;
use crate::text::chars_of;

verus! {

/// The orientation a size is requested for.
#[derive(PartialEq, Eq, Structural, Clone, Copy, Debug)]
pub enum Orientation {
    Horizontal,
    Vertical,
}

/// A size request: minimum and natural size, and their baselines (`-1`
/// when there is none).
#[derive(PartialEq, Eq, Structural, Clone, Copy, Debug)]
pub struct Measurement {
    pub minimum: i32,
    pub natural: i32,
    pub minimum_baseline: i32,
    pub natural_baseline: i32,
}

/// A rectangle handed to a child widget.
#[derive(PartialEq, Eq, Structural, Clone, Copy, Debug)]
pub struct Rect {
    pub x: i32,
    pub y: i32,
    pub width: i32,
    pub height: i32,
}

pub open spec fn imax(a: int, b: int) -> int {
    if a >= b { a } else { b }
}

pub open spec fn imin(a: int, b: int) -> int {
    if a <= b { a } else { b }
}

/// Whether `x` can be held in an `i32`.
pub open spec fn fits_i32(x: int) -> bool {
    i32::MIN <= x <= i32::MAX
}

fn max_i32(a: i32, b: i32) -> (r: i32)
    ensures
        r == imax(a as int, b as int),
{
    if a >= b { a } else { b }
}

fn min_i32(a: i32, b: i32) -> (r: i32)
    ensures
        r == imin(a as int, b as int),
{
    if a <= b { a } else { b }
}

/// The widest a message bubble grows.
pub const BUBBLE_MAX_WIDTH: i32 = 400;

/// The size a message bubble asks its content for: a height is asked for
/// at most the bubble's widest width.
pub fn bubble_for_size(orientation: Orientation, for_size: i32) -> (r: i32)
    ensures
        orientation == Orientation::Horizontal ==> r == for_size,
        orientation == Orientation::Vertical ==> r == imin(for_size as int, BUBBLE_MAX_WIDTH as int),
{
    match orientation {
        Orientation::Horizontal => for_size,
        Orientation::Vertical => min_i32(for_size, BUBBLE_MAX_WIDTH),
    }
}

/// The size request of a message bubble from that of its content: its
/// widths are limited to the bubble's widest width.
pub fn bubble_measure(orientation: Orientation, content: Measurement) -> (r: Measurement)
    ensures
        orientation == Orientation::Vertical ==> r == content,
        orientation == Orientation::Horizontal ==> {
            &&& r.minimum == imin(content.minimum as int, BUBBLE_MAX_WIDTH as int)
            &&& r.natural == imin(content.natural as int, BUBBLE_MAX_WIDTH as int)
            &&& r.minimum_baseline == content.minimum_baseline
            &&& r.natural_baseline == content.natural_baseline
        },
{
    match orientation {
        Orientation::Horizontal => Measurement {
            minimum: min_i32(content.minimum, BUBBLE_MAX_WIDTH),
            natural: min_i32(content.natural, BUBBLE_MAX_WIDTH),
            minimum_baseline: content.minimum_baseline,
            natural_baseline: content.natural_baseline,
        },
        Orientation::Vertical => content,
    }
}

/// Whether a message label puts its indicators under the text rather than
/// at its end: when measuring a height for text that runs against the
/// widget.
pub open spec fn indicators_stacked(orientation: Orientation, opposite_direction: bool) -> bool {
    orientation == Orientation::Vertical && opposite_direction
}

/// The size a message label requests, from its text's request and that of
/// its indicators, if it carries any: at least the larger of the two, and
/// the two stacked when the indicators go under the text.
pub fn label_measure(
    orientation: Orientation,
    opposite_direction: bool,
    label: Measurement,
    indicators: Option<Measurement>,
) -> (r: Measurement)
    requires
        indicators_stacked(orientation, opposite_direction) ==> (indicators matches Some(ind) ==> {
            &&& fits_i32(imax(label.minimum as int, ind.minimum as int) + ind.minimum)
            &&& fits_i32(imax(label.natural as int, ind.natural as int) + ind.natural)
        }),
    ensures
        indicators is None ==> r == label,
        indicators matches Some(ind) ==> {
            let extra_min: int = if indicators_stacked(orientation, opposite_direction) { ind.minimum as int } else { 0 };
            let extra_nat: int = if indicators_stacked(orientation, opposite_direction) { ind.natural as int } else { 0 };
            &&& r.minimum == imax(label.minimum as int, ind.minimum as int) + extra_min
            &&& r.natural == imax(label.natural as int, ind.natural as int) + extra_nat
            &&& r.minimum_baseline == label.minimum_baseline
            &&& r.natural_baseline == label.natural_baseline
        },
{
    match indicators {
        None => label,
        Some(ind) => {
            let mut minimum: i32 = max_i32(label.minimum, ind.minimum);
            let mut natural: i32 = max_i32(label.natural, ind.natural);
            if orientation == Orientation::Vertical && opposite_direction {
                minimum = minimum + ind.minimum;
                natural = natural + ind.natural;
            }
            Measurement {
                minimum,
                natural,
                minimum_baseline: label.minimum_baseline,
                natural_baseline: label.natural_baseline,
            }
        },
    }
}

/// The room kept between a message's text and its indicators.
pub const INDICATORS_SPACING: i32 = 6;

/// The number of text layout units in a pixel.
pub const PANGO_SCALE: i32 = 1024;

/// The shape that reserves the room of the indicators over the placeholder
/// character of a label: the byte range of the placeholder, and the
/// rectangle it stands for, in layout units.
#[derive(PartialEq, Eq, Structural, Clone, Copy, Debug)]
pub struct ShapeAttribute {
    pub start_index: u32,
    pub end_index: u32,
    pub y: i32,
    pub width: i32,
    pub height: i32,
}

/// The height of the indicators that stands above the text's baseline.
pub open spec fn raised_height(height: int) -> int {
    height - div_toward_zero(height, 4)
}

/// Whether the shape of indicators of this size can be computed in `i32`.
pub open spec fn shape_fits(width: int, height: int) -> bool {
    &&& fits_i32((width + INDICATORS_SPACING) * PANGO_SCALE)
    &&& fits_i32(-raised_height(height) * PANGO_SCALE)
    &&& fits_i32(height * PANGO_SCALE)
}

fn quarter(h: i32) -> (q: i32)
    ensures
        q == div_toward_zero(h as int, 4),
{
    if h >= 0 {
        h / 4
    } else {
        let m: i64 = (-(h as i64)) / 4;
        assert(0 <= m <= 0x2000_0000);
        -(m as i32)
    }
}

/// The shape over the placeholder character of a label's text that makes
/// room for indicators of the given size, or none when the text has no
/// placeholder.
pub fn indicators_shape(label: &str, indicators_width: i32, indicators_height: i32) -> (r: Option<ShapeAttribute>)
    requires
        label@.len() <= usize::MAX / 4 - 1,
        shape_fits(indicators_width as int, indicators_height as int),
    ensures
        index_of(label@, OBJECT_REPLACEMENT_CHARACTER) is None ==> r is None,
        index_of(label@, OBJECT_REPLACEMENT_CHARACTER) matches Some(i) ==> r matches Some(shape) && {
            let start = utf8_count(label@.take(i));
            &&& shape.start_index == start as u32
            &&& shape.end_index == (start + 3) as u32
            &&& shape.y == -raised_height(indicators_height as int) * PANGO_SCALE
            &&& shape.width == (indicators_width + INDICATORS_SPACING) * PANGO_SCALE
            &&& shape.height == indicators_height * PANGO_SCALE
        },
{
    let cs = chars_of(label);
    match find_char(&cs, OBJECT_REPLACEMENT_CHARACTER) {
        None => None,
        Some(i) => {
            let mut k: usize = 0;
            let mut start: usize = 0;
            while k < i
                invariant
                    k <= i < cs.len(),
                    cs.len() <= usize::MAX / 4 - 1,
                    start == utf8_count(cs@.take(k as int)),
                    start <= 4 * k,
                decreases i - k,
            {
                start = start + utf8_len_of(cs[k]);
                k = k + 1;
                assert(cs@.take(k as int).drop_last() =~= cs@.take(k - 1));
            }
            let height: i32 = indicators_height;
            let raised: i32 = height - quarter(height);
            let end: usize = start + 3;
            Some(ShapeAttribute {
                start_index: start as u32,
                end_index: end as u32,
                y: -raised * PANGO_SCALE,
                width: (indicators_width + INDICATORS_SPACING) * PANGO_SCALE,
                height: height * PANGO_SCALE,
            })
        },
    }
}

/// The sizes of the unread count that the chat folder icon remembers from
/// its last measures, to cut the count's room out of the icon.
#[derive(PartialEq, Eq, Structural, Clone, Copy, Debug)]
pub struct FolderIcon {
    pub unread_label_width: i32,
    pub unread_label_height: i32,
}

impl FolderIcon {
    /// The icon's size request: the largest of those of the icon, the mask
    /// and the unread count, taken value by value. The unread count's
    /// minimum is remembered as its width or height.
    pub fn measure(&mut self, orientation: Orientation, icon: Measurement, mask: Measurement, unread: Measurement) -> (r: Measurement)
        ensures
            r.minimum == imax(imax(icon.minimum as int, mask.minimum as int), unread.minimum as int),
            r.natural == imax(imax(icon.natural as int, mask.natural as int), unread.natural as int),
            r.minimum_baseline == imax(imax(icon.minimum_baseline as int, mask.minimum_baseline as int), unread.minimum_baseline as int),
            r.natural_baseline == imax(imax(icon.natural_baseline as int, mask.natural_baseline as int), unread.natural_baseline as int),
            orientation == Orientation::Horizontal ==> final(self).unread_label_width == unread.minimum
                && final(self).unread_label_height == old(self).unread_label_height,
            orientation == Orientation::Vertical ==> final(self).unread_label_height == unread.minimum
                && final(self).unread_label_width == old(self).unread_label_width,
    {
        match orientation {
            Orientation::Horizontal => self.unread_label_width = unread.minimum,
            Orientation::Vertical => self.unread_label_height = unread.minimum,
        }
        Measurement {
            minimum: max_i32(max_i32(icon.minimum, mask.minimum), unread.minimum),
            natural: max_i32(max_i32(icon.natural, mask.natural), unread.natural),
            minimum_baseline: max_i32(max_i32(icon.minimum_baseline, mask.minimum_baseline), unread.minimum_baseline),
            natural_baseline: max_i32(max_i32(icon.natural_baseline, mask.natural_baseline), unread.natural_baseline),
        }
    }

    /// Where the mask behind the unread count goes in an icon of the given
    /// width: two pixels larger than the count, at the end of a
    /// left-to-right icon and at the start otherwise.
    pub fn mask_allocation(&self, direction: Direction, width: i32) -> (r: Rect)
        requires
            direction == Direction::LeftToRight ==> fits_i32(width - self.unread_label_width)
                && fits_i32(width - self.unread_label_width - 2),
            fits_i32(self.unread_label_width + 2),
            fits_i32(self.unread_label_height + 2),
        ensures
            r.x == (if direction == Direction::LeftToRight { width - self.unread_label_width - 2 } else { 0 }),
            r.y == 0,
            r.width == self.unread_label_width + 2,
            r.height == self.unread_label_height + 2,
    {
        let x: i32 = match direction {
            Direction::LeftToRight => width - self.unread_label_width - 2,
            _ => 0,
        };
        Rect { x, y: 0, width: self.unread_label_width + 2, height: self.unread_label_height + 2 }
    }
}

/// The size request of a map marker: twice its widget's height, so that the
/// marker's tip stands at the center; nothing when it has no widget.
pub fn marker_measure(orientation: Orientation, widget: Option<Measurement>) -> (r: Measurement)
    requires
        orientation == Orientation::Vertical ==> (widget matches Some(m) ==> fits_i32(m.minimum * 2) && fits_i32(m.natural * 2)),
    ensures
        widget is None ==> r == (Measurement { minimum: 0i32, natural: 0i32, minimum_baseline: -1i32, natural_baseline: -1i32 }),
        orientation == Orientation::Horizontal ==> (widget matches Some(m) ==> r == m),
        orientation == Orientation::Vertical ==> (widget matches Some(m) ==> {
            &&& r.minimum == m.minimum * 2
            &&& r.natural == m.natural * 2
            &&& r.minimum_baseline == m.minimum_baseline
            &&& r.natural_baseline == m.natural_baseline
        }),
{
    match widget {
        None => Measurement { minimum: 0, natural: 0, minimum_baseline: -1, natural_baseline: -1 },
        Some(m) => match orientation {
            Orientation::Vertical => Measurement {
                minimum: m.minimum * 2,
                natural: m.natural * 2,
                minimum_baseline: m.minimum_baseline,
                natural_baseline: m.natural_baseline,
            },
            Orientation::Horizontal => m,
        },
    }
}

/// The smallest height of a map.
pub const MAP_MIN_HEIGHT: i32 = 150;
/// The largest height of a map.
pub const MAP_MAX_HEIGHT: i32 = 225;
/// The smallest width of a map: its smallest height times the golden
/// ratio, truncated.
pub const MAP_MIN_WIDTH: i32 = 242;
/// The largest width of a map: its largest height times the golden ratio,
/// truncated.
pub const MAP_MAX_WIDTH: i32 = 364;

/// The minimum and natural size of a map in one orientation: with no size
/// given for the other orientation (`-1`) the largest size, else the given
/// size kept within the bounds.
pub fn map_measure(for_size: i32, min_size: i32, max_size: i32) -> (r: (i32, i32))
    ensures
        r.0 == min_size,
        for_size == -1 ==> r.1 == max_size,
        for_size != -1 ==> r.1 == imax(imin(for_size as int, max_size as int), min_size as int),
{
    let natural: i32 = if for_size == -1 {
        max_size
    } else {
        max_i32(min_i32(for_size, max_size), min_size)
    };
    (min_size, natural)
}

/// The width request of a map for a given height (`-1` for none).
pub fn map_width_measure(for_height: i32) -> (r: Measurement)
    ensures
        r.minimum == MAP_MIN_WIDTH,
        for_height == -1 ==> r.natural == MAP_MAX_WIDTH,
        for_height != -1 ==> r.natural == imax(imin(for_height as int, MAP_MAX_WIDTH as int), MAP_MIN_WIDTH as int),
        r.minimum_baseline == -1,
        r.natural_baseline == -1,
{
    let sizes: (i32, i32) = map_measure(for_height, MAP_MIN_WIDTH, MAP_MAX_WIDTH);
    Measurement { minimum: sizes.0, natural: sizes.1, minimum_baseline: -1, natural_baseline: -1 }
}

/// How a widget is aligned along one axis.
#[derive(PartialEq, Eq, Structural, Clone, Copy, Debug)]
pub enum Align {
    Fill,
    Start,
    End,
    Center,
    Baseline,
}

/// The corner of a map that holds its license label.
#[derive(PartialEq, Eq, Structural, Clone, Copy, Debug)]
pub enum LicensePosition {
    TopLeft,
    TopRight,
    BottomLeft,
    BottomRight,
}

/// The alignment of a map's license label.
#[derive(PartialEq, Eq, Structural, Clone, Copy, Debug)]
pub struct LicenseLabel {
    pub valign: Align,
    pub halign: Align,
}

/// The corner that a license label's alignment reads as: the top corners by
/// its horizontal alignment when it is aligned to the top; any other
/// alignment reads as the bottom right corner.
pub open spec fn spec_license_position(label: LicenseLabel) -> LicensePosition {
    if label.valign == Align::Start {
        if label.halign == Align::Start { LicensePosition::TopLeft } else { LicensePosition::TopRight }
    } else {
        LicensePosition::BottomRight
    }
}

/// The alignment that puts the license label in a corner.
pub open spec fn placed(position: LicensePosition) -> LicenseLabel {
    match position {
        LicensePosition::TopLeft => LicenseLabel { valign: Align::Start, halign: Align::Start },
        LicensePosition::TopRight => LicenseLabel { valign: Align::Start, halign: Align::End },
        LicensePosition::BottomRight => LicenseLabel { valign: Align::End, halign: Align::End },
        LicensePosition::BottomLeft => LicenseLabel { valign: Align::End, halign: Align::Start },
    }
}

impl LicenseLabel {
    /// The corner the label is in.
    pub fn license_position(&self) -> (r: LicensePosition)
        ensures
            r == spec_license_position(*self),
    {
        if self.valign == Align::Start {
            if self.halign == Align::Start {
                LicensePosition::TopLeft
            } else {
                LicensePosition::TopRight
            }
        } else if self.valign == Align::Start {
            LicensePosition::BottomLeft
        } else {
            LicensePosition::BottomRight
        }
    }

    /// Moves the label to a corner; returns whether a change of the
    /// position is announced, which happens when the label then reads as
    /// another corner than the one asked for.
    pub fn set_license_position(&mut self, position: LicensePosition) -> (notified: bool)
        ensures
            *final(self) == placed(position),
            notified == (spec_license_position(placed(position)) != position),
    {
        let (valign, halign) = match position {
            LicensePosition::TopLeft => (Align::Start, Align::Start),
            LicensePosition::TopRight => (Align::Start, Align::End),
            LicensePosition::BottomRight => (Align::End, Align::End),
            LicensePosition::BottomLeft => (Align::End, Align::Start),
        };
        self.valign = valign;
        self.halign = halign;
        self.license_position() != position
    }
}

/// A license label put in a corner reads as that corner (the bottom left
/// corner excepted: it reads as the bottom right one).
pub proof fn lemma_license_position_round_trip(position: LicensePosition)
    requires
        position != LicensePosition::BottomLeft,
    ensures
        spec_license_position(placed(position)) == position,
{
}

/// The alignment of the menu of a sidebar row: at the end of a
/// right-to-left sidebar, at the start otherwise.
pub fn row_menu_halign(direction: Direction) -> (r: Align)
    ensures
        r == (if direction == Direction::RightToLeft { Align::End } else { Align::Start }),
{
    match direction {
        Direction::RightToLeft => Align::End,
        _ => Align::Start,
    }
}

/// The icon of a chat folder by the name of its icon.
pub open spec fn folder_icon(icon: Seq<char>) -> Seq<char> {
    if icon == "Airplane"@ {
        "airplane-mode-symbolic"@
    } else if icon == "All"@ {
        "all-chats-symbolic"@
    } else if icon == "Game"@ {
        "applications-games-symbolic"@
    } else if icon == "Home"@ {
        "user-home-symbolic"@
    } else if icon == "Love"@ {
        "emote-love-symbolic"@
    } else if icon == "Travel"@ {
        "emoji-travel-symbolic"@
    } else if icon == "Unread"@ {
        "mail-unread-symbolic"@
    } else {
        "folder-symbolic"@
    }
}

fn same_str(a: &str, b: &str) -> (r: bool)
    ensures
        r == (a@ == b@),
{
    let a: String = a.to_owned();
    let b: String = b.to_owned();
    a == b
}

/// The icon of a chat list in the folder bar: all chats for the main list,
/// none for the archive, and for a folder the icon named by the folder
/// ("folder-symbolic" for the names without an icon of their own).
pub fn chat_list_icon_name(list: crate::sidebar::ChatListType, icon: &str) -> (s: &'static str)
    ensures
        list is Main ==> s@ == "all-chats-symbolic"@,
        list is Archive ==> s@ == ""@,
        list is Folder ==> s@ == folder_icon(icon@),
{
    match list {
        crate::sidebar::ChatListType::Main => "all-chats-symbolic",
        crate::sidebar::ChatListType::Archive => "",
        crate::sidebar::ChatListType::Folder(_) => {
            proof {
                reveal_strlit("Airplane");
                reveal_strlit("All");
                reveal_strlit("Custom");
                reveal_strlit("Game");
                reveal_strlit("Home");
                reveal_strlit("Love");
                reveal_strlit("Travel");
                reveal_strlit("Unread");
                reveal_strlit("airplane-mode-symbolic");
                reveal_strlit("all-chats-symbolic");
                reveal_strlit("folder-symbolic");
                reveal_strlit("applications-games-symbolic");
                reveal_strlit("user-home-symbolic");
                reveal_strlit("emote-love-symbolic");
                reveal_strlit("emoji-travel-symbolic");
                reveal_strlit("mail-unread-symbolic");
                assert("Airplane"@.len() == 8 && "Airplane"@[0] == 'A');
                assert("All"@.len() == 3 && "All"@[0] == 'A');
                assert("Custom"@.len() == 6 && "Custom"@[0] == 'C');
                assert("Game"@.len() == 4 && "Game"@[0] == 'G');
                assert("Home"@.len() == 4 && "Home"@[0] == 'H');
                assert("Love"@.len() == 4 && "Love"@[0] == 'L');
                assert("Travel"@.len() == 6 && "Travel"@[0] == 'T');
                assert("Unread"@.len() == 6 && "Unread"@[0] == 'U');
            }
            if same_str(icon, "Airplane") {
                "airplane-mode-symbolic"
            } else if same_str(icon, "All") {
                "all-chats-symbolic"
            } else if same_str(icon, "Custom") {
                "folder-symbolic"
            } else if same_str(icon, "Game") {
                "applications-games-symbolic"
            } else if same_str(icon, "Home") {
                "user-home-symbolic"
            } else if same_str(icon, "Love") {
                "emote-love-symbolic"
            } else if same_str(icon, "Travel") {
                "emoji-travel-symbolic"
            } else if same_str(icon, "Unread") {
                "mail-unread-symbolic"
            } else {
                "folder-symbolic"
            }
        },
    }
}

/// The alignment of the menu of a chat folder: at the start of a
/// left-to-right bar, at the end otherwise.
pub fn folder_menu_halign(direction: Direction) -> (r: Align)
    ensures
        r == (if direction == Direction::LeftToRight { Align::Start } else { Align::End }),
{
    match direction {
        Direction::LeftToRight => Align::Start,
        _ => Align::End,
    }
}

/// The title of a chat list in the folder bar.
#[derive(PartialEq, Eq, Clone, Debug)]
pub enum ChatListTitle {
    /// "All Chats"
    AllChats,
    /// "Archived Chats"
    ArchivedChats,
    /// The folder's own title.
    Folder(String),
}

/// The title of a chat list: its own for a folder, the titles of the main
/// list and of the archive otherwise.
pub fn chat_list_title(list: crate::sidebar::ChatListType, title: String) -> (r: ChatListTitle)
    ensures
        list is Main ==> r == ChatListTitle::AllChats,
        list is Archive ==> r == ChatListTitle::ArchivedChats,
        list is Folder ==> r == ChatListTitle::Folder(title),
{
    match list {
        crate::sidebar::ChatListType::Main => ChatListTitle::AllChats,
        crate::sidebar::ChatListType::Archive => ChatListTitle::ArchivedChats,
        crate::sidebar::ChatListType::Folder(_) => ChatListTitle::Folder(title),
    }
}

/// What the map window lets one do while it centers its marker.
#[derive(PartialEq, Eq, Structural, Clone, Copy, Debug)]
pub struct CenterMarkerControls {
    /// Whether the map takes input.
    pub map_interactive: bool,
    /// Whether the "center marker" action is enabled.
    pub center_enabled: bool,
}

/// The controls of the map window from its three centering animations
/// (zoom, latitude, longitude) that still run, and whether the view is off
/// the marker (another zoom level or position): the map takes input only
/// once all animations are finished, and centering is offered only then,
/// and only off the marker.
pub fn center_marker_controls(zoom_running: bool, latitude_running: bool, longitude_running: bool, off_center: bool) -> (r: CenterMarkerControls)
    ensures
        r.map_interactive == (!zoom_running && !latitude_running && !longitude_running),
        r.center_enabled == (off_center && !zoom_running && !latitude_running && !longitude_running),
{
    let finished: bool = !zoom_running && !latitude_running && !longitude_running;
    CenterMarkerControls { map_interactive: finished, center_enabled: off_center && finished }
}

} // verus!
