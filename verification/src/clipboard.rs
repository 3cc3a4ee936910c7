//! The clipboard side: the provider that the platform implements, the
//! rule that tells a change from a repeat, and what the manager makes of
//! remote updates and of its own polls.

use crate::text::option_text;
use vstd::prelude::*;

verus! {

/// The platform's clipboard.
pub trait ClipboardProvider {
    /// The current text.
    fn get_text(&mut self) -> Result<String, String>;

    /// Replaces the text.
    fn set_text(&mut self, text: String) -> Result<(), String>;

    /// The text, if it changed since it was last looked at.
    fn check_changed(&mut self) -> Option<String>;
}

/// What the clipboard manager reports.
#[derive(Debug, Clone, PartialEq, Eq)]
pub enum ClipboardEvent {
    /// The local clipboard changed; the text goes out to every peer.
    LocalChange(String),
    /// A peer's text was written to the local clipboard.
    RemoteChange(String),
    /// The manager stops.
    Shutdown,
}

pub ghost enum ClipboardEventView {
    LocalChange(Seq<char>),
    RemoteChange(Seq<char>),
    Shutdown,
}

impl View for ClipboardEvent {
    type V = ClipboardEventView;

    open spec fn view(&self) -> ClipboardEventView {
        match *self {
            ClipboardEvent::LocalChange(s) => ClipboardEventView::LocalChange(s@),
            ClipboardEvent::RemoteChange(s) => ClipboardEventView::RemoteChange(s@),
            ClipboardEvent::Shutdown => ClipboardEventView::Shutdown,
        }
    }
}

pub open spec fn view_clipboard_event(e: Option<ClipboardEvent>) -> Option<ClipboardEventView> {
    match e {
        Some(ev) => Some(ev@),
        None => None,
    }
}

/// Remembers the text last seen, to tell a change from a repeat.
#[derive(Debug, Clone)]
pub struct ChangeDetector {
    last_content: String,
}

/// Whether `current` counts as a change after `last`: it differs and is
/// not empty.
pub open spec fn is_change(last: Seq<char>, current: Seq<char>) -> bool {
    current != last && current.len() > 0
}

impl ChangeDetector {
    /// The text last seen.
    pub closed spec fn last(&self) -> Seq<char> {
        self.last_content@
    }

    /// A detector that has seen nothing.
    pub fn new() -> (d: ChangeDetector)
        ensures
            d.last() == Seq::<char>::empty(),
    {
        ChangeDetector { last_content: String::new() }
    }

    /// Looks at the current text. It is a change when it differs from the
    /// text last seen and is not empty; a change is handed out and
    /// remembered.
    pub fn observe(&mut self, current: String) -> (changed: Option<String>)
        ensures
            option_text(changed) == if is_change(old(self).last(), current@) {
                Some(current@)
            } else {
                None
            },
            final(self).last() == if is_change(old(self).last(), current@) {
                current@
            } else {
                old(self).last()
            },
    {
        if !(current == self.last_content) && !current.as_str().is_empty() {
            self.last_content = current.clone();
            Some(current)
        } else {
            None
        }
    }

    /// Remembers a text that was written to the clipboard, so that it is
    /// not taken for a local change.
    pub fn record(&mut self, text: &str)
        ensures
            final(self).last() == text@,
    {
        self.last_content = text.to_string();
    }
}

/// What the manager is woken by.
#[derive(Debug, Clone)]
pub enum ClipboardInput {
    /// A peer sent a text.
    Remote(String),
    /// Nothing came within the polling interval.
    Tick,
    /// The stream of remote updates ended.
    Closed,
}

/// What a remote text leads to once the provider was asked to write it:
/// a report if it was written, nothing if not.
pub fn after_write(content: String, written: bool) -> (e: Option<ClipboardEvent>)
    ensures
        view_clipboard_event(e) == if written {
            Some(ClipboardEventView::RemoteChange(content@))
        } else {
            None
        },
{
    if written {
        Some(ClipboardEvent::RemoteChange(content))
    } else {
        None
    }
}

/// What a poll leads to: a changed text goes out as a local change.
pub fn after_poll(changed: Option<String>) -> (e: Option<ClipboardEvent>)
    ensures
        view_clipboard_event(e) == match changed {
            Some(content) => Some(ClipboardEventView::LocalChange(content@)),
            None => None,
        },
{
    match changed {
        Some(content) => Some(ClipboardEvent::LocalChange(content)),
        None => None,
    }
}

/// Drives a provider.
pub struct ClipboardManager<P: ClipboardProvider> {
    provider: P,
}

impl<P: ClipboardProvider> ClipboardManager<P> {
    /// The provider that the manager drives.
    pub closed spec fn inner(&self) -> P {
        self.provider
    }

    pub fn new(provider: P) -> (m: ClipboardManager<P>)
        ensures
            m.inner() == provider,
    {
        ClipboardManager { provider }
    }

    /// The provider, to look into.
    pub fn provider(&self) -> (p: &P)
        ensures
            *p == self.inner(),
    {
        &self.provider
    }

    /// One turn of the manager. A remote text is written to the provider,
    /// once, and reported if the write went well. A tick polls the
    /// provider, once, and reports a change. The end of the updates shuts
    /// the manager down.
    pub fn step(&mut self, input: ClipboardInput) -> (e: Option<ClipboardEvent>)
        ensures
            match input {
                ClipboardInput::Remote(content) => e is None || view_clipboard_event(e) == Some(
                    ClipboardEventView::RemoteChange(content@),
                ),
                ClipboardInput::Tick => e is None || (e matches Some(ev) && ev is LocalChange),
                ClipboardInput::Closed => view_clipboard_event(e) == Some(
                    ClipboardEventView::Shutdown,
                ),
            },
    {
        match input {
            ClipboardInput::Remote(content) => {
                let written = self.provider.set_text(content.clone()).is_ok();
                after_write(content, written)
            },
            ClipboardInput::Tick => {
                let changed = self.provider.check_changed();
                after_poll(changed)
            },
            ClipboardInput::Closed => Some(ClipboardEvent::Shutdown),
        }
    }
}

} // verus!
