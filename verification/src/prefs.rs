//! Window preferences: what a caller may ask of a new window, the values
//! used where nothing is asked, and the JSON text that carries the
//! preferences to the hosted UI.

use vstd::prelude::*;
use vstd::string::*;
use crate::json::{json_of_string, string_to_json};
use crate::text::{decimal_string, decimal_text, join, joined, texts};

verus! {

/// The width, in pixels, of a window whose preferences name none.
pub const DEFAULT_WIDTH: u32 = 1280;

/// The height, in pixels, of a window whose preferences name none.
pub const DEFAULT_HEIGHT: u32 = 960;

/// The title of a window whose preferences name none: the product name.
pub open spec fn default_title() -> Seq<char> {
    "Kui"@
}

/// Window preferences for subwindows. Every field is optional.
#[derive(Debug, PartialEq, Eq)]
pub struct SubwindowPrefs {
    pub title: Option<String>,
    pub width: Option<u32>,
    pub height: Option<u32>,
    pub fullscreen: Option<bool>,
    pub initial_tab_title: Option<String>,
    pub quiet_exec_command: Option<bool>,
}

/// What window preferences hold, with each text as a sequence of characters.
pub struct PrefsView {
    pub title: Option<Seq<char>>,
    pub width: Option<u32>,
    pub height: Option<u32>,
    pub fullscreen: Option<bool>,
    pub initial_tab_title: Option<Seq<char>>,
    pub quiet_exec_command: Option<bool>,
}

/// The text of an optional string.
pub open spec fn optional_text(field: Option<String>) -> Option<Seq<char>> {
    match field {
        Some(text) => Some(text@),
        None => None,
    }
}

impl View for SubwindowPrefs {
    type V = PrefsView;

    open spec fn view(&self) -> PrefsView {
        PrefsView {
            title: optional_text(self.title),
            width: self.width,
            height: self.height,
            fullscreen: self.fullscreen,
            initial_tab_title: optional_text(self.initial_tab_title),
            quiet_exec_command: self.quiet_exec_command,
        }
    }
}

/// What optional window preferences hold.
pub open spec fn optional_prefs(prefs: Option<SubwindowPrefs>) -> Option<PrefsView> {
    match prefs {
        Some(p) => Some(p@),
        None => None,
    }
}

/// The width of a window with these preferences.
pub open spec fn resolved_width(prefs: Option<PrefsView>) -> u32 {
    match prefs {
        Some(PrefsView { width: Some(w), .. }) => w,
        _ => DEFAULT_WIDTH,
    }
}

/// The height of a window with these preferences.
pub open spec fn resolved_height(prefs: Option<PrefsView>) -> u32 {
    match prefs {
        Some(PrefsView { height: Some(h), .. }) => h,
        _ => DEFAULT_HEIGHT,
    }
}

/// The title of a window with these preferences.
pub open spec fn resolved_title(prefs: Option<PrefsView>) -> Seq<char> {
    match prefs {
        Some(PrefsView { title: Some(t), .. }) => t,
        _ => default_title(),
    }
}

/// The JSON text of a flag.
pub open spec fn flag_text(flag: bool) -> Seq<char> {
    if flag {
        "true"@
    } else {
        "false"@
    }
}

/// One member of a JSON object: the quoted name, a colon, and the value.
pub open spec fn member_text(name: Seq<char>, value: Seq<char>) -> Seq<char> {
    "\""@ + name + "\":"@ + value
}

/// The members that a text field contributes: one if it is set, none if not.
pub open spec fn text_members(name: Seq<char>, field: Option<Seq<char>>) -> Seq<Seq<char>> {
    match field {
        Some(text) => seq![member_text(name, json_of_string(text).unwrap())],
        None => Seq::empty(),
    }
}

/// The members that a number field contributes: one if it is set, none if not.
pub open spec fn number_members(name: Seq<char>, field: Option<u32>) -> Seq<Seq<char>> {
    match field {
        Some(n) => seq![member_text(name, decimal_text(n as nat))],
        None => Seq::empty(),
    }
}

/// The members that a flag field contributes: one if it is set, none if not.
pub open spec fn flag_members(name: Seq<char>, field: Option<bool>) -> Seq<Seq<char>> {
    match field {
        Some(flag) => seq![member_text(name, flag_text(flag))],
        None => Seq::empty(),
    }
}

/// Whether a text field can be written: it is unset, or the serializer
/// accepts its text.
pub open spec fn text_encodable(field: Option<Seq<char>>) -> bool {
    match field {
        Some(text) => json_of_string(text) is Some,
        None => true,
    }
}

/// Whether every text field of the preferences can be written.
pub open spec fn encodable(prefs: PrefsView) -> bool {
    text_encodable(prefs.title) && text_encodable(prefs.initial_tab_title)
}

/// The members of the JSON object for the preferences: the fields that are
/// set, in the order in which the type declares them.
pub open spec fn prefs_members(prefs: PrefsView) -> Seq<Seq<char>> {
    text_members("title"@, prefs.title) + number_members("width"@, prefs.width) + number_members(
        "height"@,
        prefs.height,
    ) + flag_members("fullscreen"@, prefs.fullscreen) + text_members(
        "initial_tab_title"@,
        prefs.initial_tab_title,
    ) + flag_members("quiet_exec_command"@, prefs.quiet_exec_command)
}

/// The JSON text of the preferences: an object with one member per field
/// that is set, or the empty text if a field cannot be written.
pub open spec fn prefs_json(prefs: PrefsView) -> Seq<char> {
    if encodable(prefs) {
        "{"@ + joined(prefs_members(prefs), ","@) + "}"@
    } else {
        Seq::empty()
    }
}

/// Builds one member of a JSON object.
fn write_member(name: &str, value: &str) -> (r: String)
    ensures
        r@ == member_text(name@, value@),
{
    let mut out = String::from_str("\"");
    out.append(name);
    out.append("\":");
    out.append(value);
    out
}

/// Adds the member of a text field, if the field is set. Returns whether
/// the field could be written.
fn push_text_member(members: &mut Vec<String>, name: &str, field: &Option<String>) -> (ok: bool)
    ensures
        ok == text_encodable(optional_text(*field)),
        ok ==> texts(final(members)@) == texts(old(members)@) + text_members(name@, optional_text(*field)),
{
    match field {
        Some(text) => {
            match string_to_json(text.as_str()) {
                Ok(encoded) => {
                    members.push(write_member(name, encoded.as_str()));
                    assert(texts(members@) =~= texts(old(members)@) + text_members(name@, optional_text(*field)));
                    true
                },
                Err(_) => false,
            }
        },
        None => {
            assert(texts(members@) =~= texts(old(members)@) + text_members(name@, optional_text(*field)));
            true
        },
    }
}

/// Adds the member of a number field, if the field is set.
fn push_number_member(members: &mut Vec<String>, name: &str, field: &Option<u32>)
    ensures
        texts(final(members)@) == texts(old(members)@) + number_members(name@, *field),
{
    match field {
        Some(n) => {
            let digits = decimal_string(*n as usize);
            members.push(write_member(name, digits.as_str()));
        },
        None => {},
    }
    assert(texts(members@) =~= texts(old(members)@) + number_members(name@, *field));
}

/// Adds the member of a flag field, if the field is set.
fn push_flag_member(members: &mut Vec<String>, name: &str, field: &Option<bool>)
    ensures
        texts(final(members)@) == texts(old(members)@) + flag_members(name@, *field),
{
    match field {
        Some(flag) => {
            let value = if *flag {
                "true"
            } else {
                "false"
            };
            members.push(write_member(name, value));
        },
        None => {},
    }
    assert(texts(members@) =~= texts(old(members)@) + flag_members(name@, *field));
}

/// Writes the preferences as a JSON object that holds the fields that are
/// set and leaves out the others.
pub fn prefs_to_json(prefs: &SubwindowPrefs) -> (r: String)
    ensures
        r@ == prefs_json(prefs@),
{
    let mut members: Vec<String> = Vec::new();
    assert(texts(members@) =~= Seq::<Seq<char>>::empty());
    if !push_text_member(&mut members, "title", &prefs.title) {
        return String::new();
    }
    push_number_member(&mut members, "width", &prefs.width);
    push_number_member(&mut members, "height", &prefs.height);
    push_flag_member(&mut members, "fullscreen", &prefs.fullscreen);
    if !push_text_member(&mut members, "initial_tab_title", &prefs.initial_tab_title) {
        return String::new();
    }
    push_flag_member(&mut members, "quiet_exec_command", &prefs.quiet_exec_command);
    assert(texts(members@) =~= prefs_members(prefs@));
    let mut out = String::from_str("{");
    let body = join(&members, ",");
    out.append(body.as_str());
    out.append("}");
    out
}

/// The width of a window with these preferences.
pub fn width_of(prefs: &Option<SubwindowPrefs>) -> (r: u32)
    ensures
        r == resolved_width(optional_prefs(*prefs)),
{
    match prefs {
        Some(p) => match p.width {
            Some(w) => w,
            None => DEFAULT_WIDTH,
        },
        None => DEFAULT_WIDTH,
    }
}

/// The height of a window with these preferences.
pub fn height_of(prefs: &Option<SubwindowPrefs>) -> (r: u32)
    ensures
        r == resolved_height(optional_prefs(*prefs)),
{
    match prefs {
        Some(p) => match p.height {
            Some(h) => h,
            None => DEFAULT_HEIGHT,
        },
        None => DEFAULT_HEIGHT,
    }
}

/// The title of a window with these preferences.
pub fn title_of(prefs: &Option<SubwindowPrefs>) -> (r: String)
    ensures
        r@ == resolved_title(optional_prefs(*prefs)),
{
    match prefs {
        Some(p) => match &p.title {
            Some(t) => t.clone(),
            None => String::from_str("Kui"),
        },
        None => String::from_str("Kui"),
    }
}

} // verus!
