use vstd::prelude::*;

use crate::scroll::ScrollState;
use crate::widget::SelectedTab;

verus! {

/// Whether the event loop keeps going. `QUIT` is terminal: once reached,
/// no further state change or render happens.
#[derive(Clone, Copy, Debug, PartialEq, Eq, Structural)]
pub enum AppState {
    RUNNING,
    QUIT,
}

impl Default for AppState {
    fn default() -> (r: Self)
        ensures
            r == AppState::RUNNING,
    {
        AppState::RUNNING
    }
}

/// A key press, already decoded from the raw terminal event.
#[derive(Clone, Copy, Debug, PartialEq, Eq, Structural)]
pub enum Key {
    CharQ,
    CharR,
    Left,
    Right,
    Tab,
    /// `G`: jump to the bottom of the scrollable view.
    UpperG,
    /// `g`: jump to the top of the scrollable view.
    LowerG,
    Up,
    Down,
    /// Any other key: accepted and ignored.
    Other,
}

/// A raw input event, reduced to what the state machine reacts to.
#[derive(Clone, Copy, Debug, PartialEq, Eq, Structural)]
pub enum InputEvent {
    /// A key was pressed.
    KeyPress(Key),
    /// Key releases and repeats, resizes and the like: accepted and ignored.
    Other,
}

/// One occurrence the event loop reacts to: the periodic refresh timer
/// fired, or the input source produced an event.
#[derive(Clone, Copy, Debug, PartialEq, Eq, Structural)]
pub enum LoopEvent {
    Tick,
    Input(InputEvent),
}

/// What the surrounding loop must do right after a step.
#[derive(Clone, Copy, Debug, PartialEq, Eq, Structural)]
pub enum Action {
    /// Refresh the metrics snapshot, wipe the visible buffer first if
    /// `clear` is set, then draw the current state.
    Render { clear: bool },
    /// Drop and re-create the metrics and host-info collaborators.
    RecreateCollaborators,
    /// Nothing: input was applied, rendering waits for the next tick.
    Idle,
}

/// The dashboard's whole mutable state: the run/quit flag, the selected
/// tab, the needs-clear flag set on tab switches, and the scroll position
/// of the scrollable view.
#[derive(Clone, Copy, Debug, PartialEq, Eq, Structural)]
pub struct Tui {
    pub state: AppState,
    pub selected_tab: SelectedTab,
    pub is_clear: bool,
    pub scroll: ScrollState,
}

impl Default for Tui {
    fn default() -> (r: Self)
        ensures
            r.state == AppState::RUNNING,
            r.selected_tab == SelectedTab::Main,
            !r.is_clear,
            r.scroll == (ScrollState { offset: 0, content_height: 0, viewport_height: 0 }),
    {
        Tui {
            state: AppState::RUNNING,
            selected_tab: SelectedTab::Main,
            is_clear: false,
            scroll: ScrollState { offset: 0, content_height: 0, viewport_height: 0 },
        }
    }
}

impl Tui {
    /// The loop's running predicate.
    pub open spec fn spec_is_running(self) -> bool {
        self.state == AppState::RUNNING
    }

    /// State after one decoded key press. `q` quits; `r` asks for fresh
    /// collaborators and changes nothing here; Left/Right/Tab navigate and
    /// set the needs-clear flag; the scroll keys act only while the
    /// scrollable tab is selected.
    pub open spec fn spec_key(self, key: Key) -> Tui {
        match key {
            Key::CharQ => Tui { state: AppState::QUIT, ..self },
            Key::CharR => self,
            Key::Left => Tui {
                is_clear: true,
                selected_tab: self.selected_tab.spec_privious(),
                ..self
            },
            Key::Right => Tui { is_clear: true, selected_tab: self.selected_tab.spec_next(), ..self },
            Key::Tab => Tui { is_clear: true, selected_tab: self.selected_tab.spec_next(), ..self },
            Key::UpperG => if self.selected_tab == SelectedTab::Process {
                Tui { scroll: self.scroll.spec_scroll_to_bottom(), ..self }
            } else {
                self
            },
            Key::LowerG => if self.selected_tab == SelectedTab::Process {
                Tui { scroll: self.scroll.spec_scroll_to_top(), ..self }
            } else {
                self
            },
            Key::Up => if self.selected_tab == SelectedTab::Process {
                Tui { scroll: self.scroll.spec_scroll_up(), ..self }
            } else {
                self
            },
            Key::Down => if self.selected_tab == SelectedTab::Process {
                Tui { scroll: self.scroll.spec_scroll_down(), ..self }
            } else {
                self
            },
            Key::Other => self,
        }
    }

    /// State after one raw input event: only key presses act.
    pub open spec fn spec_input(self, ev: InputEvent) -> Tui {
        match ev {
            InputEvent::KeyPress(k) => self.spec_key(k),
            InputEvent::Other => self,
        }
    }

    /// State after a timer tick: the needs-clear flag is consumed.
    pub open spec fn spec_tick(self) -> Tui {
        Tui { is_clear: false, ..self }
    }

    /// State after one loop step. Once QUIT, stepping changes nothing.
    pub open spec fn spec_post(self, ev: LoopEvent) -> Tui {
        if self.state == AppState::QUIT {
            self
        } else {
            match ev {
                LoopEvent::Tick => self.spec_tick(),
                LoopEvent::Input(e) => self.spec_input(e),
            }
        }
    }

    /// What the loop must do after one step. A tick while running asks for
    /// a render (clearing first exactly when the flag was set); `r` asks
    /// for fresh collaborators; everything else, and anything once QUIT,
    /// asks for nothing.
    pub open spec fn spec_action(self, ev: LoopEvent) -> Action {
        if self.state == AppState::QUIT {
            Action::Idle
        } else {
            match ev {
                LoopEvent::Tick => Action::Render { clear: self.is_clear },
                LoopEvent::Input(e) => if e == InputEvent::KeyPress(Key::CharR) {
                    Action::RecreateCollaborators
                } else {
                    Action::Idle
                },
            }
        }
    }

    /// Requests termination: the next loop iteration sees `QUIT` and stops.
    pub fn exit(&mut self)
        ensures
            *final(self) == (Tui { state: AppState::QUIT, ..*old(self) }),
    {
        self.state = AppState::QUIT;
    }

    /// The loop's running predicate: true until `exit` has been called.
    pub fn is_running(&self) -> (r: bool)
        ensures
            r == self.spec_is_running(),
    {
        self.state == AppState::RUNNING
    }

    /// Selects the tab one position forward, saturating at the end.
    pub fn next_tab(&mut self)
        ensures
            *final(self) == (Tui {
                selected_tab: old(self).selected_tab.spec_next(),
                ..*old(self)
            }),
    {
        self.selected_tab = self.selected_tab.next();
    }

    /// Selects the tab one position back, saturating at the start.
    pub fn privious_tab(&mut self)
        ensures
            *final(self) == (Tui {
                selected_tab: old(self).selected_tab.spec_privious(),
                ..*old(self)
            }),
    {
        self.selected_tab = self.selected_tab.privious();
    }

    /// Replaces the scroll bounds of the scrollable view, keeping the
    /// offset clamped into the new range.
    pub fn set_scroll_bounds(&mut self, content_height: u16, viewport_height: u16)
        ensures
            final(self).scroll.content_height == content_height,
            final(self).scroll.viewport_height == viewport_height,
            final(self).scroll.offset == final(self).scroll.spec_clamp(
                old(self).scroll.offset as int,
            ),
            final(self).scroll.wf(),
            final(self).state == old(self).state,
            final(self).selected_tab == old(self).selected_tab,
            final(self).is_clear == old(self).is_clear,
    {
        self.scroll.set_bounds(content_height, viewport_height);
    }

    /// Applies one decoded key press: `q` quits, `r` changes nothing here
    /// (the step's action asks for fresh collaborators), Left/Right/Tab
    /// navigate and set the needs-clear flag, and `g`/`G`/Up/Down scroll,
    /// but only while the scrollable tab is selected.
    pub fn handle_key_event(&mut self, key: Key)
        ensures
            *final(self) == old(self).spec_key(key),
            (key == Key::Left || key == Key::Right || key == Key::Tab) ==> final(self).is_clear,
            (key == Key::UpperG || key == Key::LowerG || key == Key::Up || key == Key::Down)
                && old(self).selected_tab != SelectedTab::Process ==> *final(self) == *old(self),
    {
        match key {
            Key::CharQ => self.exit(),
            Key::CharR => {},
            Key::Left => {
                self.is_clear = true;
                self.privious_tab();
            },
            Key::Right => {
                self.is_clear = true;
                self.next_tab();
            },
            Key::Tab => {
                self.is_clear = true;
                self.next_tab();
            },
            Key::UpperG => {
                if self.selected_tab == SelectedTab::Process {
                    self.scroll.scroll_to_bottom();
                }
            },
            Key::LowerG => {
                if self.selected_tab == SelectedTab::Process {
                    self.scroll.scroll_to_top();
                }
            },
            Key::Up => {
                if self.selected_tab == SelectedTab::Process {
                    self.scroll.scroll_up();
                }
            },
            Key::Down => {
                if self.selected_tab == SelectedTab::Process {
                    self.scroll.scroll_down();
                }
            },
            Key::Other => {},
        }
    }

    /// Applies one raw input event: key presses go to `handle_key_event`,
    /// everything else is accepted and ignored.
    pub fn handle_events(&mut self, event: &InputEvent)
        ensures
            *final(self) == old(self).spec_input(*event),
    {
        match event {
            InputEvent::KeyPress(k) => self.handle_key_event(*k),
            InputEvent::Other => {},
        }
    }

    /// The periodic-tick handler's decision: the metrics snapshot is
    /// refreshed exactly while the state machine is running.
    pub fn update(&self) -> (refresh: bool)
        ensures
            refresh == self.spec_is_running(),
    {
        self.is_running()
    }

    /// One reaction of the event loop: applies the transition for `ev` and
    /// reports what the surrounding loop must do before the next
    /// iteration. Input never renders directly; a tick renders, clearing
    /// the screen first exactly when a tab switch had set the flag. Once
    /// QUIT, a step changes nothing and asks for nothing.
    pub fn step(&mut self, ev: &LoopEvent) -> (a: Action)
        ensures
            *final(self) == old(self).spec_post(*ev),
            a == old(self).spec_action(*ev),
            old(self).state == AppState::QUIT ==> *final(self) == *old(self) && a == Action::Idle,
    {
        if !self.is_running() {
            return Action::Idle;
        }
        match ev {
            LoopEvent::Tick => {
                let clear = self.is_clear;
                self.is_clear = false;
                Action::Render { clear }
            },
            LoopEvent::Input(e) => {
                let recreate = *e == InputEvent::KeyPress(Key::CharR);
                self.handle_events(e);
                if recreate {
                    Action::RecreateCollaborators
                } else {
                    Action::Idle
                }
            },
        }
    }
}

/// Law: the scroll keys change nothing at all unless the scrollable tab
/// is the selected one.
pub proof fn lemma_scroll_keys_ignored_elsewhere(s: Tui, key: Key)
    requires
        s.selected_tab != SelectedTab::Process,
        key == Key::UpperG || key == Key::LowerG || key == Key::Up || key == Key::Down,
    ensures
        s.spec_key(key) == s,
{
}

/// Law: after `q`, the running predicate is false, and every further step
/// leaves the state unchanged and never asks for a render: the loop does
/// nothing more.
pub proof fn lemma_quit_is_terminal(s: Tui, ev: LoopEvent)
    ensures
        !s.spec_key(Key::CharQ).spec_is_running(),
        s.spec_key(Key::CharQ).spec_post(ev) == s.spec_key(Key::CharQ),
        s.spec_key(Key::CharQ).spec_action(ev) == Action::Idle,
{
}

/// Law: a tab switch always sets the needs-clear flag; the next tick
/// consumes it, so that tick's render clears the screen and no later tick
/// does: the flag is cleared exactly once.
pub proof fn lemma_clear_flag_consumed_once(s: Tui, key: Key)
    requires
        s.state == AppState::RUNNING,
        key == Key::Left || key == Key::Right || key == Key::Tab,
    ensures
        s.spec_key(key).is_clear,
        s.spec_key(key).spec_action(LoopEvent::Tick) == (Action::Render { clear: true }),
        !s.spec_key(key).spec_post(LoopEvent::Tick).is_clear,
        s.spec_key(key).spec_post(LoopEvent::Tick).spec_action(LoopEvent::Tick) == (Action::Render {
            clear: false,
        }),
{
}

} // verus!
