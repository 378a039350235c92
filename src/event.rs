//! The event interpreter: from the state and an input event to the next state,
//! a status, and the effects the host carries out in order.
use vstd::prelude::*;
use crate::state::State;

verus! {

/// Which way a line-based wheel scroll went.
#[derive(Clone, Copy, Debug, PartialEq, Eq, Structural)]
pub enum ScrollDirection {
    /// A negative vertical delta: towards the next option.
    Forward,
    /// A positive vertical delta: towards the previous option.
    Backward,
    /// No vertical movement.
    Still,
}

/// An input event, reduced to what the control decides on.
#[derive(Clone, Copy, Debug, PartialEq, Eq, Structural)]
pub enum Event {
    /// A primary button press or a finger touching down. `inside` tells
    /// whether the contact lies in the control's box, `cursor_valid` whether
    /// both of its coordinates are non-negative.
    Press { inside: bool, cursor_valid: bool },
    /// A wheel scroll measured in lines, with the pointer inside the box or not.
    ScrollLines { inside: bool, direction: ScrollDirection },
    /// The keyboard modifiers changed; `command` tells whether the command
    /// (or control) modifier is now held.
    ModifiersChanged { command: bool },
    /// Anything else: it belongs to the text field.
    Other,
}

/// The option list as the interpreter sees it: its length and, when a value
/// is selected, which options equal it.
pub struct Choices {
    pub len: usize,
    pub selected: Option<Vec<bool>>,
}

impl Choices {
    /// The flags, when present, cover the option list.
    pub open spec fn wf(&self) -> bool {
        self.selected matches Some(m) ==> m@.len() == self.len
    }
}

/// What the host does on the control's behalf, in the order given.
#[derive(Clone, Debug, PartialEq, Eq)]
pub enum Effect<T> {
    /// Give focus to the text field.
    FocusText,
    /// Take focus away from the text field.
    UnfocusText,
    /// Move the text field's cursor to the end of its text.
    CursorToEnd,
    /// Hand the event to the text field.
    Forward,
    /// Publish the message configured for gaining focus.
    NotifyFocus,
    /// Publish the selection message for this value.
    Select(T),
    /// Publish the selection message for the option at this index.
    SelectOption(usize),
}

/// How the event was handled.
#[derive(Clone, Copy, Debug, PartialEq, Eq, Structural)]
pub enum Status {
    /// The control did not consume the event.
    Ignored,
    /// The control consumed the event.
    Captured,
    /// Whatever the text field reports for the forwarded event.
    TextField,
}

/// The outcome of one event.
#[derive(Debug)]
pub struct Reply<T> {
    pub status: Status,
    pub effects: Vec<Effect<T>>,
}

/// Index of the first `true` at or after `i`.
pub open spec fn first_from(m: Seq<bool>, i: int) -> Option<usize>
    decreases m.len() - i,
{
    if i < 0 || i >= m.len() {
        None
    } else if m[i] {
        Some(i as usize)
    } else {
        first_from(m, i + 1)
    }
}

/// Index of the last `true` before `k`.
pub open spec fn last_before(m: Seq<bool>, k: int) -> Option<usize>
    decreases k,
{
    if k <= 0 || k > m.len() {
        None
    } else if m[k - 1] {
        Some((k - 1) as usize)
    } else {
        last_before(m, k - 1)
    }
}

/// The option highlighted when the menu opens: the first that equals the
/// selected value.
pub open spec fn hovered_on_open(c: Choices) -> Option<usize> {
    match c.selected {
        Some(m) => first_from(m@, 0),
        None => None,
    }
}

/// The option a scroll moves to: the one after the first match going forward,
/// the one before the last match going backward; with nothing selected, the
/// first or the last option.
pub open spec fn next_option(c: Choices, direction: ScrollDirection) -> Option<usize> {
    match direction {
        ScrollDirection::Forward => match c.selected {
            Some(m) => match first_from(m@, 0) {
                Some(i) => if i + 1 < c.len { Some((i + 1) as usize) } else { None },
                None => None,
            },
            None => if c.len > 0 { Some(0usize) } else { None },
        },
        ScrollDirection::Backward => match c.selected {
            Some(m) => match last_before(m@, m@.len() as int) {
                Some(k) => if k > 0 { Some((k - 1) as usize) } else { None },
                None => None,
            },
            None => if c.len > 0 { Some((c.len - 1) as usize) } else { None },
        },
        ScrollDirection::Still => None,
    }
}

/// A press, before the mailbox is looked at.
pub open spec fn press_phase<T>(
    s: State<T>,
    inside: bool,
    cursor_valid: bool,
    c: Choices,
    notify_focus: bool,
) -> (State<T>, Status, Seq<Effect<T>>) {
    if s.is_open {
        if inside && cursor_valid {
            (State { is_open: false, text_focused: false, ..s }, Status::Captured, seq![Effect::UnfocusText])
        } else if inside {
            (s, Status::Captured, seq![Effect::Forward])
        } else {
            (s, Status::Ignored, seq![])
        }
    } else if inside {
        let opened = seq![Effect::FocusText, Effect::CursorToEnd, Effect::Forward];
        (
            State { is_open: true, hovered_option: hovered_on_open(c), text_focused: true, ..s },
            Status::Captured,
            if notify_focus { opened.push(Effect::NotifyFocus) } else { opened },
        )
    } else {
        (s, Status::Ignored, seq![])
    }
}

/// A press: its own handling, then a pending mailbox value is reported and
/// the control closed.
pub open spec fn press_step<T>(
    s: State<T>,
    inside: bool,
    cursor_valid: bool,
    c: Choices,
    notify_focus: bool,
) -> (State<T>, Status, Seq<Effect<T>>) {
    let (s1, status, effects) = press_phase(s, inside, cursor_valid, c, notify_focus);
    match s1.last_selection {
        Some(v) => (
            State { is_open: false, text_focused: false, last_selection: None, ..s1 },
            Status::Captured,
            effects.push(Effect::Select(v)).push(Effect::UnfocusText),
        ),
        None => (s1, status, effects),
    }
}

/// The next state, status and effects for one event. `notify_focus` tells
/// whether a message is configured for gaining focus.
pub open spec fn step<T>(s: State<T>, event: Event, c: Choices, notify_focus: bool) -> (
    State<T>,
    Status,
    Seq<Effect<T>>,
) {
    match event {
        Event::Press { inside, cursor_valid } => press_step(s, inside, cursor_valid, c, notify_focus),
        Event::ScrollLines { inside, direction } => {
            if s.command_held && inside && !s.is_open {
                match next_option(c, direction) {
                    Some(i) => (s, Status::Captured, seq![Effect::SelectOption(i)]),
                    None => (s, Status::Captured, seq![]),
                }
            } else {
                (s, Status::Ignored, seq![])
            }
        },
        Event::ModifiersChanged { command } => (
            State { command_held: command, ..s },
            Status::Ignored,
            seq![Effect::Forward],
        ),
        Event::Other => (s, Status::TextField, seq![Effect::Forward]),
    }
}

/// Index of the first `true` in `m`.
fn first_true(m: &Vec<bool>) -> (r: Option<usize>)
    ensures
        r == first_from(m@, 0),
        r matches Some(i) ==> i < m@.len(),
{
    let mut i: usize = 0;
    while i < m.len()
        invariant
            i <= m@.len(),
            first_from(m@, 0) == first_from(m@, i as int),
        decreases m.len() - i,
    {
        if m[i] {
            return Some(i);
        }
        i = i + 1;
    }
    None
}

/// Index of the last `true` in `m`.
fn last_true(m: &Vec<bool>) -> (r: Option<usize>)
    ensures
        r == last_before(m@, m@.len() as int),
        r matches Some(i) ==> i < m@.len(),
{
    let mut k: usize = m.len();
    while k > 0
        invariant
            k <= m@.len(),
            last_before(m@, m@.len() as int) == last_before(m@, k as int),
        decreases k,
    {
        if m[k - 1] {
            return Some(k - 1);
        }
        k = k - 1;
    }
    None
}

impl Choices {
    /// The option to highlight when the menu opens.
    pub fn position(&self) -> (r: Option<usize>)
        requires
            self.wf(),
        ensures
            r == hovered_on_open(*self),
            r matches Some(i) ==> i < self.len,
    {
        match &self.selected {
            Some(m) => first_true(m),
            None => None,
        }
    }

    /// The option that a scroll in `direction` selects, if any.
    pub fn next_option(&self, direction: ScrollDirection) -> (r: Option<usize>)
        requires
            self.wf(),
        ensures
            r == next_option(*self, direction),
            r matches Some(i) ==> i < self.len,
    {
        match direction {
            ScrollDirection::Forward => match &self.selected {
                Some(m) => match first_true(m) {
                    Some(i) => if i + 1 < self.len { Some(i + 1) } else { None },
                    None => None,
                },
                None => if self.len > 0 { Some(0) } else { None },
            },
            ScrollDirection::Backward => match &self.selected {
                Some(m) => match last_true(m) {
                    Some(k) => if k > 0 { Some(k - 1) } else { None },
                    None => None,
                },
                None => if self.len > 0 { Some(self.len - 1) } else { None },
            },
            ScrollDirection::Still => None,
        }
    }
}

/// Handles one event: updates `state` and returns the status together with
/// the effects the host performs, in order.
pub fn update<T>(state: &mut State<T>, event: Event, choices: &Choices, notify_focus: bool) -> (r:
    Reply<T>)
    requires
        choices.wf(),
    ensures
        (*final(state), r.status, r.effects@) == step(*old(state), event, *choices, notify_focus),
        old(state).wf() ==> final(state).wf(),
        final(state).hovered_option != old(state).hovered_option ==> (
        final(state).hovered_option matches Some(i) ==> i < choices.len),
        forall|k: int| 0 <= k < r.effects@.len() ==> (#[trigger] r.effects@[k] matches Effect::SelectOption(i)
            ==> i < choices.len),
{
    let mut effects: Vec<Effect<T>> = Vec::new();
    match event {
        Event::Press { inside, cursor_valid } => {
            let mut status = if state.is_open {
                if inside {
                    if cursor_valid {
                        state.unfocus();
                        effects.push(Effect::UnfocusText);
                    } else {
                        effects.push(Effect::Forward);
                    }
                    Status::Captured
                } else {
                    Status::Ignored
                }
            } else if inside {
                state.is_open = true;
                state.hovered_option = choices.position();
                state.focus();
                effects.push(Effect::FocusText);
                effects.push(Effect::CursorToEnd);
                effects.push(Effect::Forward);
                if notify_focus {
                    effects.push(Effect::NotifyFocus);
                }
                Status::Captured
            } else {
                Status::Ignored
            };
            let ghost e1 = effects@;
            let ghost s1 = *state;
            proof {
                let (ps, pst, pe) = press_phase(*old(state), inside, cursor_valid, *choices, notify_focus);
                assert(pe =~= e1);
                assert(ps == s1);
                assert(pst == status);
            }
            if let Some(v) = state.last_selection.take() {
                effects.push(Effect::Select(v));
                state.is_open = false;
                state.unfocus();
                effects.push(Effect::UnfocusText);
                status = Status::Captured;
            }
            Reply { status, effects }
        },
        Event::ScrollLines { inside, direction } => {
            if state.command_held && inside && !state.is_open {
                if let Some(i) = choices.next_option(direction) {
                    effects.push(Effect::SelectOption(i));
                }
                proof {
                    assert(effects@ =~= step(*old(state), event, *choices, notify_focus).2);
                }
                Reply { status: Status::Captured, effects }
            } else {
                proof {
                    assert(effects@ =~= seq![]);
                }
                Reply { status: Status::Ignored, effects }
            }
        },
        Event::ModifiersChanged { command } => {
            state.command_held = command;
            effects.push(Effect::Forward);
            proof {
                assert(effects@ =~= seq![Effect::Forward]);
            }
            Reply { status: Status::Ignored, effects }
        },
        Event::Other => {
            effects.push(Effect::Forward);
            proof {
                assert(effects@ =~= seq![Effect::Forward]);
            }
            Reply { status: Status::TextField, effects }
        },
    }
}

/// Opening the control with a press inside it and then pressing inside it
/// again, at a valid point, leaves it closed with the text field unfocused.
pub proof fn lemma_open_then_dismiss<T>(s: State<T>, c: Choices, notify_focus: bool)
    requires
        !s.is_open,
        s.last_selection is None,
    ensures
        ({
            let press = Event::Press { inside: true, cursor_valid: true };
            let (s1, _, _) = step(s, press, c, notify_focus);
            let (s2, status2, _) = step(s1, press, c, notify_focus);
            s1.is_open && s1.text_focused && !s2.is_open && !s2.text_focused && status2
                == Status::Captured
        }),
{
}

/// On a closed control with nothing pending, a press inside opens the menu
/// and focuses the text field; a press outside changes nothing and is ignored.
pub proof fn lemma_press_when_closed<T>(
    s: State<T>,
    cursor_valid: bool,
    c: Choices,
    notify_focus: bool,
)
    requires
        !s.is_open,
        s.last_selection is None,
    ensures
        ({
            let (s1, status, _) = step(
                s,
                Event::Press { inside: true, cursor_valid },
                c,
                notify_focus,
            );
            s1.is_open && s1.text_focused && status == Status::Captured
        }),
        ({
            let (s1, status, effects) = step(
                s,
                Event::Press { inside: false, cursor_valid },
                c,
                notify_focus,
            );
            s1 == s && status == Status::Ignored && effects.len() == 0
        }),
{
}

/// With the command modifier held, the control closed, the pointer over it and
/// no selected value, scrolling forward selects the first option, if there is
/// one, and leaves the menu closed.
pub proof fn lemma_scroll_forward_without_selection<T>(
    s: State<T>,
    c: Choices,
    notify_focus: bool,
)
    requires
        s.command_held,
        !s.is_open,
        c.selected is None,
    ensures
        ({
            let (s1, status, effects) = step(
                s,
                Event::ScrollLines { inside: true, direction: ScrollDirection::Forward },
                c,
                notify_focus,
            );
            &&& s1 == s
            &&& !s1.is_open
            &&& status == Status::Captured
            &&& c.len > 0 ==> effects == seq![Effect::<T>::SelectOption(0)]
            &&& c.len == 0 ==> effects.len() == 0
        }),
{
}

/// Scrolling forward from a selected value whose first occurrence is the last
/// option selects nothing.
pub proof fn lemma_scroll_forward_past_last<T>(
    s: State<T>,
    c: Choices,
    inside: bool,
    notify_focus: bool,
)
    requires
        c.wf(),
        c.selected matches Some(m) && first_from(m@, 0) == Some((c.len - 1) as usize),
    ensures
        ({
            let (s1, _, effects) = step(
                s,
                Event::ScrollLines { inside, direction: ScrollDirection::Forward },
                c,
                notify_focus,
            );
            s1 == s && effects.len() == 0
        }),
{
}

/// A value waiting in the mailbox is reported by the next press, wherever it
/// lands, and the control is left closed with the mailbox empty.
pub proof fn lemma_press_drains_mailbox<T>(
    s: State<T>,
    v: T,
    inside: bool,
    cursor_valid: bool,
    c: Choices,
    notify_focus: bool,
)
    requires
        s.last_selection == Some(v),
    ensures
        ({
            let (s1, status, effects) = step(
                s,
                Event::Press { inside, cursor_valid },
                c,
                notify_focus,
            );
            &&& !s1.is_open
            &&& !s1.text_focused
            &&& s1.last_selection is None
            &&& status == Status::Captured
            &&& effects.len() >= 2
            &&& effects[effects.len() - 2] == Effect::Select(v)
            &&& effects.last() == Effect::<T>::UnfocusText
            &&& forall|i: int| 0 <= i < effects.len() - 2 ==> !(effects[i] is Select)
        }),
{
    let (s0, _, e0) = press_phase(s, inside, cursor_valid, c, notify_focus);
    assert(s0.last_selection == Some(v));
    assert forall|i: int| 0 <= i < e0.len() implies !(e0[i] is Select) by {
        if !s.is_open && inside && notify_focus {
            let opened = seq![Effect::<T>::FocusText, Effect::CursorToEnd, Effect::Forward];
            assert(e0 == opened.push(Effect::NotifyFocus));
        }
    }
}

/// A change of keyboard modifiers never opens or closes the menu and is
/// always reported as ignored.
pub proof fn lemma_modifiers_ignored<T>(s: State<T>, command: bool, c: Choices, notify_focus: bool)
    ensures
        ({
            let (s1, status, _) = step(s, Event::ModifiersChanged { command }, c, notify_focus);
            s1.is_open == s.is_open && s1.text_focused == s.text_focused && s1.command_held
                == command && status == Status::Ignored
        }),
{
}

} // verus!
