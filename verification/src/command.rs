//! The keyboard commands: what each key does, given the keys before it.

use crate::ui::{Encoding, EncodingView};
use vstd::prelude::*;

verus! {

/// What the keys so far have left behind: whether a protocol name is being
/// collected, and the characters collected.
pub struct Commands {
    with_option: bool,
    option: String,
}

/// What a `Commands` holds, as a mathematical value.
pub struct CommandsView {
    pub collecting: bool,
    pub name: Seq<char>,
}

impl View for Commands {
    type V = CommandsView;

    closed spec fn view(&self) -> CommandsView {
        CommandsView { collecting: self.with_option, name: self.option@ }
    }
}

/// What the caller is to do after a key.
#[derive(Debug, PartialEq, Eq)]
pub enum Action {
    /// Nothing.
    Idle,
    /// End the program.
    Quit,
    /// Switch the view to this encoding.
    SetEncoding(Encoding),
}

/// What an `Action` holds, as a mathematical value.
pub enum ActionView {
    Idle,
    Quit,
    SetEncoding(EncodingView),
}

impl View for Action {
    type V = ActionView;

    open spec fn view(&self) -> ActionView {
        match self {
            Action::Idle => ActionView::Idle,
            Action::Quit => ActionView::Quit,
            Action::SetEncoding(encoding) => ActionView::SetEncoding(encoding@),
        }
    }
}

/// The state after `key`. While a name is collected every key but the line
/// feed is added to it. Otherwise `p` starts collecting, and the line feed
/// ends it and empties the name; no other key changes the state.
pub open spec fn next_state(state: CommandsView, key: char) -> CommandsView {
    if key != '\n' && state.collecting {
        CommandsView { collecting: true, name: state.name.push(key) }
    } else if key == 'p' {
        CommandsView { collecting: true, name: state.name }
    } else if key == '\n' {
        CommandsView { collecting: false, name: Seq::empty() }
    } else {
        state
    }
}

/// The action that `key` asks for. While a name is collected only the line
/// feed asks for one. `q` quits, `t` and `x` switch to text and to hex, and
/// the line feed switches to the protocol with the name collected.
pub open spec fn action_for(state: CommandsView, key: char) -> ActionView {
    if key != '\n' && state.collecting {
        ActionView::Idle
    } else if key == 'q' {
        ActionView::Quit
    } else if key == 't' {
        ActionView::SetEncoding(EncodingView::Text)
    } else if key == 'x' {
        ActionView::SetEncoding(EncodingView::Hex)
    } else if key == '\n' {
        ActionView::SetEncoding(EncodingView::Protocol(state.name))
    } else {
        ActionView::Idle
    }
}

impl Commands {
    /// The state before any key: nothing is being collected.
    pub fn new() -> (commands: Self)
        ensures
            commands@ == (CommandsView { collecting: false, name: Seq::empty() }),
    {
        Commands { with_option: false, option: String::new() }
    }

    /// Takes one key, and says what the caller is to do.
    pub fn key(&mut self, key: char) -> (action: Action)
        ensures
            final(self)@ == next_state(old(self)@, key),
            action@ == action_for(old(self)@, key),
    {
        if key != '\n' && self.with_option {
            self.option.push(key);
            Action::Idle
        } else if key == 'q' {
            Action::Quit
        } else if key == 't' {
            Action::SetEncoding(Encoding::Text)
        } else if key == 'x' {
            Action::SetEncoding(Encoding::Hex)
        } else if key == 'p' {
            self.with_option = true;
            Action::Idle
        } else if key == '\n' {
            let name = self.option.clone();
            self.with_option = false;
            self.option = String::new();
            Action::SetEncoding(Encoding::Protocol(name))
        } else {
            Action::Idle
        }
    }
}

} // verus!
