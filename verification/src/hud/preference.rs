//! The reduced-motion preference of the running desktop, and of no other installed
//! settings service. Unknown desktops can use the explicit configuration.

use crate::json::{parse_json, parsed_json, Json, JsonView};
use crate::text::{chars_of, pieces, same, split, texts, trim, trimmed};
use vstd::prelude::*;
use vstd::string::*;

verus! {

/// A desktop whose preference can be asked for.
#[derive(Clone, Copy, Debug, PartialEq, Eq, Structural)]
pub enum DesktopKind {
    Hyprland,
    Gnome,
}

/// An ASCII letter in lower case; any other character as it is.
pub open spec fn lowered(c: char) -> char {
    if 'A' <= c <= 'Z' {
        ((c as u8 - 'A' as u8 + 'a' as u8) as u8) as char
    } else {
        c
    }
}

/// Whether a list of names with colons between them holds a name, in any case.
pub open spec fn lists_desktop(names: Seq<char>, name: Seq<char>) -> bool {
    pieces(names.map_values(|c: char| lowered(c)), ':').contains(name)
}

/// The desktop that a list of names tells of.
pub open spec fn named_desktop(names: Seq<char>) -> Option<DesktopKind> {
    if lists_desktop(names, "hyprland"@) {
        Some(DesktopKind::Hyprland)
    } else if lists_desktop(names, "gnome"@) {
        Some(DesktopKind::Gnome)
    } else {
        None
    }
}

fn lower_text(text: &str) -> (result: String)
    ensures
        result@ == text@.map_values(|c: char| lowered(c)),
{
    let chars = chars_of(text);
    let mut result: String = String::new();
    let mut index: usize = 0;
    while index < chars.len()
        invariant
            index <= chars@.len(),
            chars@ == text@,
            result@ == text@.take(index as int).map_values(|c: char| lowered(c)),
        decreases chars@.len() - index,
    {
        let c: char = chars[index];
        if 'A' <= c && c <= 'Z' {
            result.push((c as u8 - 'A' as u8 + 'a' as u8) as char);
        } else {
            result.push(c);
        }
        index += 1;
        assert(result@ =~= text@.take(index as int).map_values(|c: char| lowered(c)));
    }
    assert(text@.take(index as int) =~= text@);
    result
}

fn holds(list: &Vec<String>, name: &str) -> (result: bool)
    ensures
        result == texts(list@).contains(name@),
{
    let mut index: usize = 0;
    while index < list.len()
        invariant
            index <= list@.len(),
            forall|i: int| 0 <= i < index ==> texts(list@)[i] != name@,
        decreases list@.len() - index,
    {
        assert(texts(list@)[index as int] == list@[index as int]@);
        if same(list[index].as_str(), name) {
            return true;
        }
        index += 1;
    }
    false
}

/// Tell the desktop from the list of its names.
pub fn desktop_kind(names: &str) -> (result: Option<DesktopKind>)
    ensures
        result == named_desktop(names@),
{
    let lowered = lower_text(names);
    let list = split(lowered.as_str(), ':');
    if holds(&list, "hyprland") {
        Some(DesktopKind::Hyprland)
    } else if holds(&list, "gnome") {
        Some(DesktopKind::Gnome)
    } else {
        None
    }
}

/// What Hyprland's option document says: animations that are off, as a truth value
/// or as a number, mean reduced motion.
pub open spec fn hyprland_preference(option: JsonView) -> Option<bool> {
    match option.bool_member("bool"@) {
        Some(enabled) => Some(!enabled),
        None => match option.get("int"@) {
            Some(JsonView::Unsigned(value)) if value <= i64::MAX => Some(value == 0),
            Some(JsonView::Negative(_)) => Some(false),
            _ => None,
        },
    }
}

/// What GNOME's setting says.
pub open spec fn gnome_preference(output: Seq<char>) -> Option<bool> {
    if trimmed(output) == "false"@ {
        Some(true)
    } else if trimmed(output) == "true"@ {
        Some(false)
    } else {
        None
    }
}

/// Judge Hyprland's option, given its document.
pub fn judge_hyprland(option: Option<Json>) -> (result: Option<bool>)
    ensures
        result == match option {
            Some(option) => hyprland_preference(option.tree()),
            None => None,
        },
{
    let Some(option) = option else {
        return None;
    };
    if let Some(enabled) = option.bool_member("bool") {
        return Some(!enabled);
    }
    match option.get("int") {
        Some(Json::Unsigned(value)) => {
            if *value <= i64::MAX as u64 {
                Some(*value == 0)
            } else {
                None
            }
        },
        Some(Json::Negative(_)) => Some(false),
        _ => None,
    }
}

/// The preference that a desktop's answer tells.
pub fn reduced_motion(kind: DesktopKind, output: &str) -> (result: Option<bool>)
    ensures
        result == match kind {
            DesktopKind::Hyprland => match parsed_json(output.spec_bytes()) {
                Some(option) => hyprland_preference(option),
                None => None,
            },
            DesktopKind::Gnome => gnome_preference(output@),
        },
{
    match kind {
        DesktopKind::Hyprland => judge_hyprland(parse_json(output.as_bytes())),
        DesktopKind::Gnome => {
            let setting = trim(output);
            if same(setting, "false") {
                Some(true)
            } else if same(setting, "true") {
                Some(false)
            } else {
                None
            }
        },
    }
}

} // verus!
