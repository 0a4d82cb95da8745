//! What the windowing service is asked to build when a window is created.

use vstd::prelude::*;
use vstd::string::*;
use crate::prefs::{
    height_of, optional_prefs, optional_text, resolved_height, resolved_title, resolved_width,
    title_of, width_of, PrefsView, SubwindowPrefs,
};
use crate::state::{count_after_create, window_label, AppState};
use crate::url::{launch_url, launch_url_text, optional_texts};

verus! {

/// A request to the windowing service for one new window.
#[derive(Debug, PartialEq, Eq)]
pub struct WindowRequest {
    /// The unique identifier of the window.
    pub label: String,
    /// The title shown on the window.
    pub title: String,
    /// The inner width, in pixels.
    pub width: u32,
    /// The inner height, in pixels.
    pub height: u32,
    /// The launch URL, relative to the document root of the hosted UI.
    pub url: String,
    /// Whether the window starts centered on the screen.
    pub centered: bool,
    /// Whether the user may resize the window.
    pub resizable: bool,
}

/// What a window request holds, with each text as a sequence of characters.
pub struct WindowRequestView {
    pub label: Seq<char>,
    pub title: Seq<char>,
    pub width: u32,
    pub height: u32,
    pub url: Seq<char>,
    pub centered: bool,
    pub resizable: bool,
}

impl View for WindowRequest {
    type V = WindowRequestView;

    open spec fn view(&self) -> WindowRequestView {
        WindowRequestView {
            label: self.label@,
            title: self.title@,
            width: self.width,
            height: self.height,
            url: self.url@,
            centered: self.centered,
            resizable: self.resizable,
        }
    }
}

/// The request for a window with the given label, argument vector and
/// preferences: defaults stand in for what the preferences leave out, and
/// every window starts centered and can be resized.
pub open spec fn resolved_window(
    label: Seq<char>,
    argv: Option<Seq<Seq<char>>>,
    prefs: Option<PrefsView>,
) -> WindowRequestView {
    WindowRequestView {
        label,
        title: resolved_title(prefs),
        width: resolved_width(prefs),
        height: resolved_height(prefs),
        url: launch_url_text(argv, prefs),
        centered: true,
        resizable: true,
    }
}

/// The preferences that a request for a new window carries: the caller
/// chooses title and size, and nothing else.
pub open spec fn requested_prefs(
    width: Option<u32>,
    height: Option<u32>,
    title: Option<Seq<char>>,
) -> PrefsView {
    PrefsView {
        title,
        width,
        height,
        fullscreen: None,
        initial_tab_title: None,
        quiet_exec_command: None,
    }
}

/// Resolves the configuration of a window from its label, the argument
/// vector to replay in it and its preferences.
pub fn resolve_window(
    label: String,
    argv: &Option<Vec<String>>,
    prefs: &Option<SubwindowPrefs>,
) -> (window: WindowRequest)
    ensures
        window@ == resolved_window(label@, optional_texts(*argv), optional_prefs(*prefs)),
{
    WindowRequest {
        label,
        title: title_of(prefs),
        width: width_of(prefs),
        height: height_of(prefs),
        url: launch_url(argv, prefs),
        centered: true,
        resizable: true,
    }
}

/// Create a new window with specified arguments: reserves the next label
/// and resolves what the windowing service is to build under it.
///
/// The label stays reserved whether or not the service then builds the window.
pub fn create_window_internal(
    state: &mut AppState,
    argv: Option<Vec<String>>,
    prefs: Option<SubwindowPrefs>,
) -> (window: WindowRequest)
    requires
        old(state).window_count < usize::MAX,
        old(state).labels_issued < usize::MAX,
    ensures
        final(state).window_count == count_after_create(old(state).window_count as int),
        final(state).labels_issued == count_after_create(old(state).labels_issued as int),
        final(state).fixed_windows == old(state).fixed_windows,
        window@ == resolved_window(
            window_label(final(state).labels_issued as nat),
            optional_texts(argv),
            optional_prefs(prefs),
        ),
{
    let label = state.allocate_label();
    resolve_window(label, &argv, &prefs)
}

/// Create a new window on behalf of the hosted UI, which may choose the
/// title and the size and nothing else.
pub fn create_new_window(
    state: &mut AppState,
    argv: Option<Vec<String>>,
    width: Option<u32>,
    height: Option<u32>,
    title: Option<String>,
) -> (window: WindowRequest)
    requires
        old(state).window_count < usize::MAX,
        old(state).labels_issued < usize::MAX,
    ensures
        final(state).window_count == count_after_create(old(state).window_count as int),
        final(state).labels_issued == count_after_create(old(state).labels_issued as int),
        final(state).fixed_windows == old(state).fixed_windows,
        window@ == resolved_window(
            window_label(final(state).labels_issued as nat),
            optional_texts(argv),
            Some(requested_prefs(width, height, optional_text(title))),
        ),
{
    let prefs = Some(
        SubwindowPrefs {
            title,
            width,
            height,
            fullscreen: None,
            initial_tab_title: None,
            quiet_exec_command: None,
        },
    );
    create_window_internal(state, argv, prefs)
}

} // verus!
