//! Per-instance state of the control and the event interpreter that drives it.
use vstd::prelude::*;

verus! {

/// What the control remembers between frames.
#[derive(Debug)]
pub struct State<T> {
    /// Whether the menu overlay is shown.
    pub is_open: bool,
    /// Index of the option highlighted in the menu.
    pub hovered_option: Option<usize>,
    /// One-shot mailbox: the option the menu picked, not yet reported.
    pub last_selection: Option<T>,
    /// Whether the command (or control) modifier was held at the last change.
    pub command_held: bool,
    /// Whether the embedded text field holds focus.
    pub text_focused: bool,
}

impl<T> State<T> {
    /// An open menu always goes with a focused text field.
    pub open spec fn wf(&self) -> bool {
        self.is_open ==> self.text_focused
    }

    /// A closed control with nothing pending.
    pub fn new() -> (r: Self)
        ensures
            !r.is_open,
            r.hovered_option is None,
            r.last_selection is None,
            !r.command_held,
            !r.text_focused,
            r.wf(),
    {
        State {
            is_open: false,
            hovered_option: None,
            last_selection: None,
            command_held: false,
            text_focused: false,
        }
    }

    /// Gives focus to the text field; nothing else changes.
    pub fn focus(&mut self)
        ensures
            final(self).text_focused,
            final(self).is_open == old(self).is_open,
            final(self).hovered_option == old(self).hovered_option,
            final(self).last_selection == old(self).last_selection,
            final(self).command_held == old(self).command_held,
            old(self).wf() ==> final(self).wf(),
    {
        self.text_focused = true;
    }

    /// Removes focus from the text field and closes the menu, together.
    pub fn unfocus(&mut self)
        ensures
            !final(self).text_focused,
            !final(self).is_open,
            final(self).hovered_option == old(self).hovered_option,
            final(self).last_selection == old(self).last_selection,
            final(self).command_held == old(self).command_held,
            final(self).wf(),
    {
        self.text_focused = false;
        self.is_open = false;
    }

    /// Puts `element` in the mailbox and closes the control.
    pub fn pick(&mut self, element: T)
        ensures
            final(self).last_selection == Some(element),
            !final(self).text_focused,
            !final(self).is_open,
            final(self).hovered_option == old(self).hovered_option,
            final(self).command_held == old(self).command_held,
            final(self).wf(),
    {
        self.is_open = false;
        self.last_selection = Some(element);
        self.unfocus();
    }

    /// Whether the text field holds focus.
    pub fn is_focused(&self) -> (r: bool)
        ensures
            r == self.text_focused,
    {
        self.text_focused
    }

    /// Records the focus that the text field reports after it handled an event
    /// on its own; losing it closes the menu as well.
    pub fn record_text_focus(&mut self, focused: bool)
        ensures
            final(self).text_focused == focused,
            final(self).is_open == (old(self).is_open && focused),
            final(self).hovered_option == old(self).hovered_option,
            final(self).last_selection == old(self).last_selection,
            final(self).command_held == old(self).command_held,
            final(self).wf() <== old(self).wf(),
    {
        if focused {
            self.text_focused = true;
        } else {
            self.unfocus();
        }
    }
}

impl<T> Default for State<T> {
    fn default() -> (r: Self)
        ensures
            !r.is_open,
            r.hovered_option is None,
            r.last_selection is None,
            !r.command_held,
            !r.text_focused,
    {
        State::new()
    }
}

} // verus!
