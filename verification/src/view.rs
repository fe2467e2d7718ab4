use vstd::prelude::*;
use crate::history::{Entry, filter_history, lemma_search_sound_and_complete, search_results};
use crate::text::matches_query;

verus! {

/// Label of the theme button while the dark theme is on.
pub const DARK_LABEL: &'static str = "🌙 Dark";

/// Label of the theme button while the light theme is on.
pub const LIGHT_LABEL: &'static str = "☀️ Light";

/// A click in the history window.
pub enum UiEvent {
    /// The theme button.
    ToggleTheme,
    /// The export button.
    Export,
    /// The copy button of the shown entry at this position.
    Copy(usize),
    /// The delete button of the shown entry at this position.
    Delete(usize),
}

/// What the window asks the rest of the program to do after a click.
pub enum UiAction {
    Nothing,
    /// Write the whole history to the export file.
    ExportHistory,
    /// Put this text on the clipboard.
    CopyToClipboard(String),
    /// Delete the entry with this id and refresh the history.
    DeleteEntry(i32),
}

/// The state of the history window.
pub struct HistoryView {
    /// The latest copy of the stored history, newest first.
    pub local_history: Vec<Entry>,
    /// The entries of `local_history` that match `search_query`.
    pub filtered_history: Vec<Entry>,
    /// The text typed in the search bar.
    pub search_query: String,
    pub dark_mode: bool,
}

/// The window after a click.
pub open spec fn after_event(v: HistoryView, e: UiEvent) -> HistoryView {
    match e {
        UiEvent::ToggleTheme => HistoryView { dark_mode: !v.dark_mode, ..v },
        _ => v,
    }
}

/// What a click asks for.
pub open spec fn event_action(v: HistoryView, e: UiEvent) -> UiAction {
    match e {
        UiEvent::ToggleTheme => UiAction::Nothing,
        UiEvent::Export => UiAction::ExportHistory,
        UiEvent::Copy(i) => UiAction::CopyToClipboard(v.filtered_history@[i as int].1),
        UiEvent::Delete(i) => UiAction::DeleteEntry(v.filtered_history@[i as int].0),
    }
}

/// A click refers to an entry that the window shows.
pub open spec fn event_in_range(v: HistoryView, e: UiEvent) -> bool {
    match e {
        UiEvent::Copy(i) => i < v.filtered_history@.len(),
        UiEvent::Delete(i) => i < v.filtered_history@.len(),
        _ => true,
    }
}

impl HistoryView {
    /// The window at start: no history, an empty search, the dark theme.
    pub fn new() -> (v: HistoryView)
        ensures
            v.local_history@ == Seq::<Entry>::empty(),
            v.filtered_history@ == Seq::<Entry>::empty(),
            v.search_query@ == Seq::<char>::empty(),
            v.dark_mode,
    {
        HistoryView {
            local_history: Vec::new(),
            filtered_history: Vec::new(),
            search_query: String::new(),
            dark_mode: true,
        }
    }

    /// Takes a copy of the stored history where one could be had (`None`
    /// where the shared history was busy): the window then shows the entries
    /// of that copy that match the search. Without a copy nothing changes.
    pub fn refresh(&mut self, snapshot: Option<Vec<Entry>>)
        ensures
            final(self).search_query == old(self).search_query,
            final(self).dark_mode == old(self).dark_mode,
            match snapshot {
                Some(h) => {
                    &&& final(self).local_history@ == h@
                    &&& final(self).filtered_history@ == search_results(h@, old(self).search_query@)
                },
                None => *final(self) == *old(self),
            },
    {
        match snapshot {
            Some(h) => {
                let filtered = filter_history(&h, self.search_query.as_str());
                self.local_history = h;
                self.filtered_history = filtered;
            },
            None => {},
        }
    }

    /// The label of the theme button.
    pub fn theme_label(&self) -> (label: &'static str)
        ensures
            label@ == (if self.dark_mode {
                DARK_LABEL@
            } else {
                LIGHT_LABEL@
            }),
    {
        if self.dark_mode {
            DARK_LABEL
        } else {
            LIGHT_LABEL
        }
    }

    /// Handles a click: the theme button switches the theme; the others
    /// leave the window as it is and ask for an export, a copy of the
    /// entry's text, or the deletion of the entry's id.
    pub fn handle(&mut self, event: UiEvent) -> (action: UiAction)
        requires
            event_in_range(*old(self), event),
        ensures
            *final(self) == after_event(*old(self), event),
            action == event_action(*old(self), event),
            event matches UiEvent::Delete(i) ==> action == UiAction::DeleteEntry(
                old(self).filtered_history@[i as int].0,
            ),
            event matches UiEvent::Copy(i) ==> action == UiAction::CopyToClipboard(
                old(self).filtered_history@[i as int].1,
            ),
    {
        match event {
            UiEvent::ToggleTheme => {
                self.dark_mode = !self.dark_mode;
                UiAction::Nothing
            },
            UiEvent::Export => UiAction::ExportHistory,
            UiEvent::Copy(i) => UiAction::CopyToClipboard(self.filtered_history[i].1.clone()),
            UiEvent::Delete(i) => UiAction::DeleteEntry(self.filtered_history[i].0),
        }
    }
}

/// Switching the theme twice gives back the window as it was.
pub proof fn lemma_toggle_twice(v: HistoryView)
    ensures
        after_event(after_event(v, UiEvent::ToggleTheme), UiEvent::ToggleTheme) == v,
{
}

/// No click changes the history, the search or what is shown.
pub proof fn lemma_clicks_keep_history(v: HistoryView, e: UiEvent)
    ensures
        after_event(v, e).local_history == v.local_history,
        after_event(v, e).filtered_history == v.filtered_history,
        after_event(v, e).search_query == v.search_query,
{
}

/// The copy and delete buttons at position `i` act on the entry shown at
/// position `i`: its text is copied, its id deleted, whatever the full
/// history holds.
pub proof fn lemma_clicks_act_on_shown_entry(v: HistoryView, i: usize)
    requires
        i < v.filtered_history@.len(),
    ensures
        event_action(v, UiEvent::Delete(i)) == UiAction::DeleteEntry(v.filtered_history@[i as int].0),
        event_action(v, UiEvent::Copy(i)) == UiAction::CopyToClipboard(v.filtered_history@[i as int].1),
{
}

/// After a refresh, a delete click asks to delete the id of an entry of the
/// history that matches the search, and a copy click copies its text.
pub proof fn lemma_clicked_entry_matches_search(v: HistoryView, history: Seq<Entry>, i: usize)
    requires
        v.filtered_history@ == search_results(history, v.search_query@),
        i < v.filtered_history@.len(),
    ensures
        exists|e: Entry|
            #![trigger history.contains(e)]
            history.contains(e) && matches_query(e.1@, v.search_query@)
                && event_action(v, UiEvent::Delete(i)) == UiAction::DeleteEntry(e.0)
                && event_action(v, UiEvent::Copy(i)) == UiAction::CopyToClipboard(e.1),
{
    lemma_search_sound_and_complete(history, v.search_query@);
    let e = v.filtered_history@[i as int];
    assert(search_results(history, v.search_query@).contains(e));
    assert(history.contains(e));
}

} // verus!
