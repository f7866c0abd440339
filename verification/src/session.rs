//! One turn of the main loop: what arrived from the capture and from the
//! keyboard is applied to the view, and the caller learns what to paint and
//! whether to stop. The loop itself, which waits for neither source, is the
//! caller's.

use crate::command::{action_for, next_state, Action, ActionView, Commands, CommandsView};
use crate::draw::LogEntry;
use crate::text::string_views;
use crate::ui::{closing, frame_text, opening, EncodingView, UI};
use vstd::prelude::*;

verus! {

/// The view and the state of the keyboard commands.
pub struct Session<T: LogEntry> {
    ui: UI<T>,
    commands: Commands,
}

/// The entries after a turn: one more where something was captured.
pub open spec fn entries_after<T>(entries: Seq<T>, captured: Option<T>) -> Seq<T> {
    match captured {
        Some(datum) => entries.push(datum),
        None => entries,
    }
}

/// What a turn's key asks for; nothing where there was no key.
pub open spec fn action_of(commands: CommandsView, key: Option<char>) -> ActionView {
    match key {
        Some(k) => action_for(commands, k),
        None => ActionView::Idle,
    }
}

/// The state of the commands after a turn.
pub open spec fn commands_after(commands: CommandsView, key: Option<char>) -> CommandsView {
    match key {
        Some(k) => next_state(commands, k),
        None => commands,
    }
}

/// The encoding after a turn.
pub open spec fn encoding_after(encoding: EncodingView, action: ActionView) -> EncodingView {
    match action {
        ActionView::SetEncoding(chosen) => chosen,
        _ => encoding,
    }
}

impl<T: LogEntry> Session<T> {
    /// The view.
    pub closed spec fn ui(&self) -> UI<T> {
        self.ui
    }

    /// The state of the commands.
    pub closed spec fn commands(&self) -> CommandsView {
        self.commands@
    }

    /// What a turn gives to paint: a frame with the new entry where
    /// something was captured, then a frame in the new encoding where the
    /// key chose one.
    pub open spec fn painted(&self, captured: Option<T>, key: Option<char>) -> Seq<Seq<char>> {
        let rows = self.ui().rows();
        let cols = self.ui().cols();
        let entries = entries_after(self.ui().entries(), captured);
        let action = action_of(self.commands(), key);
        (if captured is Some {
            frame_text(rows, cols, entries, self.ui().encoding())
        } else {
            Seq::empty()
        }) + (if action is SetEncoding {
            frame_text(rows, cols, entries, encoding_after(self.ui().encoding(), action))
        } else {
            Seq::empty()
        })
    }

    /// A session on the given view, with no key typed yet.
    pub fn new(ui: UI<T>) -> (session: Self)
        ensures
            session.ui() == ui,
            session.commands() == (CommandsView { collecting: false, name: Seq::empty() }),
    {
        Session { ui, commands: Commands::new() }
    }

    /// What is written when the display opens.
    pub fn start(&self) -> (out: Vec<String>)
        ensures
            string_views(out@) == opening() + self.ui().frame(),
    {
        self.ui.start()
    }

    /// What is written when the display closes.
    pub fn stop(&self) -> (out: Vec<String>)
        ensures
            string_views(out@) == closing(),
    {
        self.ui.stop()
    }

    /// One turn. A captured entry is appended to the view first; then the
    /// key, where there is one, is taken as a command. The result is what to
    /// paint, and whether the key asked to quit.
    pub fn turn(&mut self, captured: Option<T>, key: Option<char>) -> (r: (Vec<String>, bool))
        ensures
            final(self).ui().rows() == old(self).ui().rows(),
            final(self).ui().cols() == old(self).ui().cols(),
            final(self).ui().entries() == entries_after(old(self).ui().entries(), captured),
            final(self).ui().encoding() == encoding_after(
                old(self).ui().encoding(),
                action_of(old(self).commands(), key),
            ),
            final(self).commands() == commands_after(old(self).commands(), key),
            string_views(r.0@) == old(self).painted(captured, key),
            r.1 == (action_of(old(self).commands(), key) is Quit),
    {
        let mut out: Vec<String> = Vec::new();
        let mut quit = false;
        if let Some(datum) = captured {
            out = self.ui.add_data(datum);
        }
        if let Some(k) = key {
            match self.commands.key(k) {
                Action::Quit => {
                    quit = true;
                },
                Action::SetEncoding(encoding) => {
                    let mut frame = self.ui.set_encoding(encoding);
                    out.append(&mut frame);
                },
                Action::Idle => {},
            }
        }
        assert(string_views(out@) =~= old(self).painted(captured, key));
        (out, quit)
    }
}

} // verus!
