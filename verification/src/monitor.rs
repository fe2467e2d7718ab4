use vstd::prelude::*;

verus! {

/// What the watcher of the clipboard does after one look at it.
pub enum MonitorAction {
    /// The clipboard holds a new text: store it and refresh the history.
    Store(String),
    /// Nothing new: wait for the next look.
    Wait,
}

/// The text that an action stores, if any.
pub open spec fn stored_text(action: MonitorAction) -> Option<Seq<char>> {
    match action {
        MonitorAction::Store(s) => Some(s@),
        MonitorAction::Wait => None,
    }
}

/// A look at the clipboard as a plain value: the text read, or `None` where
/// the clipboard held no text.
pub open spec fn read_view(read: Option<String>) -> Option<Seq<char>> {
    match read {
        Some(s) => Some(s@),
        None => None,
    }
}

/// One step of the watcher: from the last text seen and a look at the
/// clipboard, the next last text seen and the text to store.
pub open spec fn monitor_step(last: Seq<char>, read: Option<Seq<char>>) -> (Seq<char>, Option<Seq<char>>) {
    match read {
        Some(c) => if c != last {
            (c, Some(c))
        } else {
            (last, None)
        },
        None => (last, None),
    }
}

/// The watcher over a run of looks: the last text seen at the end, and the
/// texts stored, in order.
pub open spec fn monitor_run(last: Seq<char>, reads: Seq<Option<Seq<char>>>) -> (Seq<char>, Seq<Seq<char>>)
    decreases reads.len(),
{
    if reads.len() == 0 {
        (last, Seq::empty())
    } else {
        let first = monitor_step(last, reads[0]);
        let rest = monitor_run(first.0, reads.drop_first());
        match first.1 {
            Some(c) => (rest.0, seq![c] + rest.1),
            None => (rest.0, rest.1),
        }
    }
}

/// No stored text equals the one stored just before it, nor, for the first,
/// the text seen before the run.
pub open spec fn no_repeats(last: Seq<char>, stored: Seq<Seq<char>>) -> bool {
    forall|i: int|
        0 <= i < stored.len() ==> #[trigger] stored[i] != (if i == 0 {
            last
        } else {
            stored[i - 1]
        })
}

/// Watches the clipboard and decides when its text is new.
pub struct ClipboardMonitor {
    last: String,
}

impl View for ClipboardMonitor {
    type V = Seq<char>;

    /// The last clipboard text seen.
    closed spec fn view(&self) -> Seq<char> {
        self.last@
    }
}

impl ClipboardMonitor {
    /// A watcher that has seen nothing yet (the last text seen is empty).
    pub fn new() -> (m: ClipboardMonitor)
        ensures
            m@ == Seq::<char>::empty(),
    {
        ClipboardMonitor { last: String::new() }
    }

    /// Takes one look at the clipboard: a text that differs from the last
    /// one seen is to be stored and becomes the last one seen; a text equal to
    /// it, or no text, changes nothing.
    pub fn observe(&mut self, read: Option<String>) -> (action: MonitorAction)
        ensures
            (final(self)@, stored_text(action)) == monitor_step(old(self)@, read_view(read)),
            match read {
                Some(c) => if c@ != old(self)@ {
                    stored_text(action) == Some(c@) && final(self)@ == c@
                } else {
                    action is Wait && final(self)@ == old(self)@
                },
                None => action is Wait && final(self)@ == old(self)@,
            },
    {
        match read {
            Some(content) => {
                if content != self.last {
                    self.last = content.clone();
                    MonitorAction::Store(content)
                } else {
                    MonitorAction::Wait
                }
            },
            None => MonitorAction::Wait,
        }
    }
}

/// Reading the same text twice in a row stores it at most once.
pub proof fn lemma_repeat_read_stores_nothing(last: Seq<char>, c: Seq<char>)
    ensures
        monitor_step(monitor_step(last, Some(c)).0, Some(c)).1 is None,
{
}

/// A look that finds no text leaves the watcher as it was and stores nothing.
pub proof fn lemma_failed_read_changes_nothing(last: Seq<char>)
    ensures
        monitor_step(last, None) == (last, Option::<Seq<char>>::None),
{
}

/// Over any run of looks, no text is stored twice in a row, and the first
/// text stored differs from the one seen before the run.
pub proof fn lemma_run_has_no_repeats(last: Seq<char>, reads: Seq<Option<Seq<char>>>)
    ensures
        no_repeats(last, monitor_run(last, reads).1),
    decreases reads.len(),
{
    if reads.len() > 0 {
        let first = monitor_step(last, reads[0]);
        lemma_run_has_no_repeats(first.0, reads.drop_first());
        let rest = monitor_run(first.0, reads.drop_first()).1;
        match first.1 {
            Some(c) => {
                let all = seq![c] + rest;
                assert forall|i: int| 0 <= i < all.len() implies #[trigger] all[i] != (if i == 0 {
                    last
                } else {
                    all[i - 1]
                }) by {
                    if i > 0 {
                        assert(all[i] == rest[i - 1]);
                        if i > 1 {
                            assert(all[i - 1] == rest[i - 2]);
                        }
                        assert(rest[i - 1] != (if i - 1 == 0 { first.0 } else { rest[i - 2] }));
                    }
                }
            },
            None => {},
        }
    }
}

/// A look that finds a text different from the last one seen stores exactly
/// that text and makes it the last one seen, whatever the two texts hold in
/// common.
pub proof fn lemma_different_text_is_stored(last: Seq<char>, c: Seq<char>)
    requires
        c != last,
    ensures
        monitor_step(last, Some(c)).0 == c,
        monitor_step(last, Some(c)).1 == Some(c),
{
}

/// A look that finds the last text seen again stores nothing and changes
/// nothing.
pub proof fn lemma_same_text_is_not_stored(last: Seq<char>)
    ensures
        monitor_step(last, Some(last)).0 == last,
        monitor_step(last, Some(last)).1 is None,
{
}

} // verus!
