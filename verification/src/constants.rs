//! The characters that borders and brackets are drawn with, and the paths of
//! the user's data.
use vstd::prelude::*;

verus! {

/// North-west corner, square.
pub const A_SQR: char = '\u{250C}';
/// North-east corner, square.
pub const B_SQR: char = '\u{2510}';
/// South-west corner, square.
pub const C_SQR: char = '\u{2514}';
/// South-east corner, square.
pub const D_SQR: char = '\u{2518}';
/// North-west corner, round.
pub const A_RND: char = '\u{256D}';
/// North-east corner, round.
pub const B_RND: char = '\u{256E}';
/// South-west corner, round.
pub const C_RND: char = '\u{2570}';
/// South-east corner, round.
pub const D_RND: char = '\u{256F}';
/// Horizontal line.
pub const X_LINE: char = '\u{2500}';
/// Vertical line.
pub const Y_LINE: char = '\u{2502}';
/// Tortoise shell brackets.
pub const OPEN_TORT: char = '\u{2997}';
pub const CLOSE_TORT: char = '\u{2998}';
/// White square brackets.
pub const OPEN_SQR: char = '\u{27E6}';
pub const CLOSE_SQR: char = '\u{27E7}';
/// Square brackets with quill.
pub const OPEN_E: char = '\u{2045}';
pub const CLOSE_E: char = '\u{2046}';
/// Integral halves.
pub const OPEN_INT: char = '\u{2320}';
pub const CLOSE_INT: char = '\u{2321}';
/// Ceiling and floor.
pub const OPEN_L: char = '\u{2308}';
pub const CLOSE_L: char = '\u{230B}';

/// The menu's entries.
pub const MANUAL: &'static str = "User manual";
pub const CHANGE_KEYS: &'static str = "Change keys";
pub const CHANGE_STYLE: &'static str = "Change style";
pub const VIEW_SETTINGS: &'static str = "View settings";

/// Where the user's data lies.
pub const DATA_PATH: &'static str = "gdata";
pub const SAVE_FILE: &'static str = "gdata/urls";
pub const INIT_FILE: &'static str = "gdata/init";
pub const STYLES_PATH: &'static str = "gdata/styles";
pub const KEYS_PATH: &'static str = "gdata/keys";

/// What a menu entry asks for.
#[derive(Copy, Clone, Debug, PartialEq, Eq, Structural)]
pub enum MenuEntry {
    Manual,
    ChangeKeys,
    ChangeStyle,
    ViewSettings,
}

/// The menu's entries, in order.
pub open spec fn menu_texts() -> Seq<Seq<char>> {
    seq![MANUAL@, CHANGE_KEYS@, CHANGE_STYLE@, VIEW_SETTINGS@]
}

/// The menu's entries, in order, as the options of a dialog.
pub fn menu() -> (r: Vec<String>)
    ensures
        r@.len() == 4,
        forall|i: int| 0 <= i < 4 ==> (#[trigger] r@[i])@ == menu_texts()[i],
{
    let mut v: Vec<String> = Vec::new();
    v.push(MANUAL.to_string());
    v.push(CHANGE_KEYS.to_string());
    v.push(CHANGE_STYLE.to_string());
    v.push(VIEW_SETTINGS.to_string());
    v
}

/// The menu entry at `index`, if there is one.
pub fn menu_entry(index: usize) -> (r: Option<MenuEntry>)
    ensures
        index == 0 <==> r == Some(MenuEntry::Manual),
        index == 1 <==> r == Some(MenuEntry::ChangeKeys),
        index == 2 <==> r == Some(MenuEntry::ChangeStyle),
        index == 3 <==> r == Some(MenuEntry::ViewSettings),
        index >= 4 <==> r is None,
{
    if index == 0 {
        Some(MenuEntry::Manual)
    } else if index == 1 {
        Some(MenuEntry::ChangeKeys)
    } else if index == 2 {
        Some(MenuEntry::ChangeStyle)
    } else if index == 3 {
        Some(MenuEntry::ViewSettings)
    } else {
        None
    }
}

} // verus!
