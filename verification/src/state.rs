//! The application state: how many windows are open, and the labels that
//! new windows are given.

use std::collections::HashMap;
use vstd::prelude::*;
use vstd::string::*;
use crate::text::{decimal_string, decimal_text, lemma_decimal_text_injective};

verus! {

/// The text that every window label starts with.
pub open spec fn label_prefix() -> Seq<char> {
    seq!['m', 'a', 'i', 'n', '-']
}

/// The label that carries the number `n`.
pub open spec fn window_label(n: nat) -> Seq<char> {
    label_prefix() + decimal_text(n)
}

/// A counter after a window has been created: one more.
pub open spec fn count_after_create(count: int) -> int {
    count + 1
}

/// The number of open windows after one has been closed: one less, but
/// never below zero.
pub open spec fn count_after_close(count: int) -> int {
    if count > 0 {
        count - 1
    } else {
        0
    }
}

/// What can happen to a window, as far as the counters are concerned.
pub enum WindowEvent {
    /// A window was created.
    Created,
    /// A window was closed.
    Closed,
}

/// The number of open windows after one event.
pub open spec fn open_after_event(open: int, event: WindowEvent) -> int {
    match event {
        WindowEvent::Created => count_after_create(open),
        WindowEvent::Closed => count_after_close(open),
    }
}

/// The number of labels issued after one event. Only a create issues a
/// label; a close gives none back.
pub open spec fn issued_after_event(issued: int, event: WindowEvent) -> int {
    match event {
        WindowEvent::Created => count_after_create(issued),
        WindowEvent::Closed => issued,
    }
}

/// The number of open windows after the events, in their order.
pub open spec fn open_after(open: int, events: Seq<WindowEvent>) -> int
    decreases events.len(),
{
    if events.len() == 0 {
        open
    } else {
        open_after_event(open_after(open, events.drop_last()), events.last())
    }
}

/// The number of labels issued after the events, in their order.
pub open spec fn issued_after(issued: int, events: Seq<WindowEvent>) -> int
    decreases events.len(),
{
    if events.len() == 0 {
        issued
    } else {
        issued_after_event(issued_after(issued, events.drop_last()), events.last())
    }
}

/// The label of the window that the `k`-th event creates, counted from
/// zero: it carries the number of labels issued once that event is over.
pub open spec fn label_at(issued: int, events: Seq<WindowEvent>, k: int) -> Seq<char> {
    window_label(issued_after(issued, events.take(k + 1)) as nat)
}

/// `n` creates in a row.
pub open spec fn creates(n: nat) -> Seq<WindowEvent> {
    Seq::new(n, |i: int| WindowEvent::Created)
}

/// `n` closes in a row.
pub open spec fn closes(n: nat) -> Seq<WindowEvent> {
    Seq::new(n, |i: int| WindowEvent::Closed)
}

/// Two numbers give the same label only if they are the same number.
pub proof fn lemma_labels_distinct(a: nat, b: nat)
    ensures
        window_label(a) == window_label(b) <==> a == b,
{
    if window_label(a) == window_label(b) {
        let skip = label_prefix().len() as int;
        assert(window_label(a).subrange(skip, window_label(a).len() as int) =~= decimal_text(a));
        assert(window_label(b).subrange(skip, window_label(b).len() as int) =~= decimal_text(b));
        lemma_decimal_text_injective(a, b);
    }
}

/// The counters after two runs of events are those after the second run,
/// started where the first run ended.
pub proof fn lemma_events_in_two_runs(
    open: int,
    issued: int,
    first: Seq<WindowEvent>,
    second: Seq<WindowEvent>,
)
    ensures
        open_after(open, first + second) == open_after(open_after(open, first), second),
        issued_after(issued, first + second) == issued_after(issued_after(issued, first), second),
    decreases second.len(),
{
    if second.len() == 0 {
        assert(first + second =~= first);
    } else {
        assert((first + second).drop_last() =~= first + second.drop_last());
        assert((first + second).last() == second.last());
        lemma_events_in_two_runs(open, issued, first, second.drop_last());
    }
}

/// The number of labels issued never goes down, whatever the events, and
/// the number of open windows never goes below zero.
pub proof fn lemma_counters_keep_their_bounds(
    open: int,
    issued: int,
    events: Seq<WindowEvent>,
    j: int,
    k: int,
)
    requires
        0 <= j <= k <= events.len(),
        open >= 0,
    ensures
        issued_after(issued, events.take(j)) <= issued_after(issued, events.take(k)),
        open_after(open, events.take(k)) >= 0,
    decreases k,
{
    if k > 0 {
        assert(events.take(k).drop_last() =~= events.take(k - 1));
        if j < k {
            lemma_counters_keep_their_bounds(open, issued, events, j, k - 1);
        } else {
            lemma_counters_keep_their_bounds(open, issued, events, k - 1, k - 1);
        }
    }
}

/// No label is ever given twice. Whatever creates and closes happen, and
/// in whatever order, a window created later gets a label with a larger
/// number than every window created before it, closed or not.
pub proof fn lemma_labels_never_reused(issued: int, events: Seq<WindowEvent>, j: int, k: int)
    requires
        issued >= 0,
        0 <= j < k < events.len(),
        events[j] is Created,
        events[k] is Created,
    ensures
        0 <= issued_after(issued, events.take(j + 1)) < issued_after(issued, events.take(k + 1)),
        label_at(issued, events, j) != label_at(issued, events, k),
{
    lemma_counters_keep_their_bounds(0, issued, events, j + 1, k);
    lemma_counters_keep_their_bounds(0, issued, events, 0, j + 1);
    assert(events.take(0) =~= Seq::<WindowEvent>::empty());
    assert(events.take(k + 1).drop_last() =~= events.take(k));
    assert(events.take(k + 1).last() == events[k]);
    lemma_labels_distinct(
        issued_after(issued, events.take(j + 1)) as nat,
        issued_after(issued, events.take(k + 1)) as nat,
    );
}

/// `n` creates in a row raise both counters by `n`.
pub proof fn lemma_counters_after_creates(open: int, issued: int, n: nat)
    ensures
        open_after(open, creates(n)) == open + n,
        issued_after(issued, creates(n)) == issued + n,
    decreases n,
{
    if n > 0 {
        assert(creates(n).drop_last() =~= creates((n - 1) as nat));
        lemma_counters_after_creates(open, issued, (n - 1) as nat);
    }
}

/// `n` closes in a row lower the number of open windows by `n`, or to zero
/// where fewer than `n` were open, and issue no label.
pub proof fn lemma_counters_after_closes(open: int, issued: int, n: nat)
    requires
        open >= 0,
    ensures
        open_after(open, closes(n)) == if n <= open {
            open - n
        } else {
            0
        },
        issued_after(issued, closes(n)) == issued,
    decreases n,
{
    if n > 0 {
        assert(closes(n).drop_last() =~= closes((n - 1) as nat));
        lemma_counters_after_closes(open, issued, (n - 1) as nat);
    }
}

/// Starting with no window, `n` creates in a row bring both counters to
/// `n`, and the `k`-th of them, counted from zero, gives the label
/// `main-<k + 1>`.
pub proof fn lemma_labels_of_creates(n: nat)
    ensures
        open_after(0, creates(n)) == n,
        issued_after(0, creates(n)) == n,
        forall|k: int|
            0 <= k < n ==> #[trigger] label_at(0, creates(n), k) == window_label((k + 1) as nat),
        forall|j: int, k: int|
            0 <= j < k < n ==> #[trigger] label_at(0, creates(n), j) != #[trigger] label_at(
                0,
                creates(n),
                k,
            ),
{
    lemma_counters_after_creates(0, 0, n);
    assert forall|k: int| 0 <= k < n implies #[trigger] label_at(0, creates(n), k) == window_label(
        (k + 1) as nat,
    ) by {
        assert(creates(n).take(k + 1) =~= creates((k + 1) as nat));
        lemma_counters_after_creates(0, 0, (k + 1) as nat);
    }
    assert forall|j: int, k: int| 0 <= j < k < n implies #[trigger] label_at(0, creates(n), j)
        != #[trigger] label_at(0, creates(n), k) by {
        lemma_labels_never_reused(0, creates(n), j, k);
    }
}

/// Creates followed by closes never drive the number of open windows
/// below zero: after `opened` creates and `closed` closes it is the number
/// of windows still open, and zero where more were closed than opened.
pub proof fn lemma_creates_then_closes(opened: nat, closed: nat)
    ensures
        open_after(0, creates(opened) + closes(closed)) == if closed <= opened {
            opened - closed
        } else {
            0
        },
        issued_after(0, creates(opened) + closes(closed)) == opened,
        forall|k: int|
            0 <= k <= opened + closed ==> open_after(
                0,
                #[trigger] (creates(opened) + closes(closed)).take(k),
            ) >= 0,
{
    let events = creates(opened) + closes(closed);
    lemma_events_in_two_runs(0, 0, creates(opened), closes(closed));
    lemma_counters_after_creates(0, 0, opened);
    lemma_counters_after_closes(opened as int, opened as int, closed);
    assert forall|k: int| 0 <= k <= opened + closed implies open_after(
        0,
        #[trigger] events.take(k),
    ) >= 0 by {
        lemma_counters_keep_their_bounds(0, 0, events, k, k);
    }
}

/// Application state to track open windows.
pub struct AppState {
    /// How many windows are accounted open.
    pub window_count: usize,
    /// How many labels have been given out since the application started.
    /// A close does not lower it, so that no label comes back.
    pub labels_issued: usize,
    /// Fixed windows by label. Kept for later use; nothing reads it yet.
    pub fixed_windows: HashMap<String, String>,
}

impl AppState {
    /// The state of an application that has opened no window yet.
    pub fn new() -> (state: AppState)
        ensures
            state.window_count == 0,
            state.labels_issued == 0,
            state.fixed_windows@ == Map::<String, String>::empty(),
    {
        AppState { window_count: 0, labels_issued: 0, fixed_windows: HashMap::new() }
    }

    /// How many windows are accounted open.
    pub fn open_windows(&self) -> (n: usize)
        ensures
            n == self.window_count,
    {
        self.window_count
    }

    /// Counts one more window and returns the label reserved for it: the
    /// next of a sequence that only ever goes up.
    pub fn allocate_label(&mut self) -> (label: String)
        requires
            old(self).window_count < usize::MAX,
            old(self).labels_issued < usize::MAX,
        ensures
            final(self).window_count == open_after_event(
                old(self).window_count as int,
                WindowEvent::Created,
            ),
            final(self).labels_issued == issued_after_event(
                old(self).labels_issued as int,
                WindowEvent::Created,
            ),
            final(self).window_count == old(self).window_count + 1,
            final(self).labels_issued == old(self).labels_issued + 1,
            final(self).fixed_windows == old(self).fixed_windows,
            label@ == window_label(final(self).labels_issued as nat),
    {
        self.window_count = self.window_count + 1;
        self.labels_issued = self.labels_issued + 1;
        let digits = decimal_string(self.labels_issued);
        let mut label = String::from_str("main-");
        proof {
            reveal_strlit("main-");
            assert("main-"@ =~= label_prefix());
        }
        label.append(digits.as_str());
        label
    }

    /// Accounts for a closed window. A close that arrives when no window is
    /// accounted open leaves the counter at zero. The label of the closed
    /// window is not given out again.
    pub fn release(&mut self)
        ensures
            final(self).window_count == open_after_event(
                old(self).window_count as int,
                WindowEvent::Closed,
            ),
            final(self).labels_issued == issued_after_event(
                old(self).labels_issued as int,
                WindowEvent::Closed,
            ),
            final(self).labels_issued == old(self).labels_issued,
            final(self).fixed_windows == old(self).fixed_windows,
    {
        if self.window_count > 0 {
            self.window_count = self.window_count - 1;
        }
    }
}

} // verus!
