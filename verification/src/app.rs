//! The application state machine: lifecycle phase, the latest result, and the
//! navigation position, advanced by update-channel messages and keyboard
//! input. Every transition is a pure function of the current state and one
//! event; the executable methods are proved equal to those functions.

use crate::model::{AppState, AuditResult, AuditUpdate};
use crate::spec_percent;
use crate::progress_percent;
use vstd::prelude::*;

verus! {

/// Number of tabs of the result view: Overview, Issues, Analysis.
pub const TAB_COUNT: usize = 3;

/// One keyboard action the dashboard understands, already decoded from the
/// raw key event by the surrounding terminal loop.
#[derive(Clone, Copy, Debug, PartialEq, Eq, Structural)]
pub enum KeyInput {
    Quit,
    NextIssue,
    PreviousIssue,
    NextTab,
    PreviousTab,
    ScrollDown,
    ScrollUp,
}

/// Full state of the dashboard: the audited URL, the lifecycle phase, the
/// result once received, and the navigation position.
#[derive(Debug)]
pub struct App {
    pub url: String,
    pub state: AppState,
    pub result: Option<AuditResult>,
    pub selected_tab: usize,
    pub selected_issue: usize,
    pub scroll_offset: usize,
    pub should_exit: bool,
}

/// A lifecycle phase from which the audit run no longer advances.
pub open spec fn terminal_phase(s: AppState) -> bool {
    s is Complete || s is Error
}

impl App {
    /// Number of issues of the stored result; zero while none is stored.
    pub open spec fn spec_issue_count(self) -> nat {
        match self.result {
            Some(r) => r.issues@.len(),
            None => 0,
        }
    }

    /// Internal invariant: the selected tab is a real tab, and a running
    /// phase carries a percentage. Established at startup and preserved by
    /// every transition.
    pub open spec fn inv(self) -> bool {
        &&& self.selected_tab < TAB_COUNT
        &&& (self.state matches AppState::Running { progress, .. } ==> progress <= 100)
    }

    /// State after one update-channel message:
    /// - `Progress` moves a non-terminal phase to `Running` with the computed
    ///   percentage; received in a terminal phase it is ignored.
    /// - `Result` stores the payload and moves to `Complete`, whatever the
    ///   prior phase.
    /// - `Error` moves to `Error` with the message.
    /// - `Complete` closes a `Running` phase; otherwise it is a no-op.
    pub open spec fn spec_handle_update(self, update: AuditUpdate) -> App {
        match update {
            AuditUpdate::Progress { current, total, message } => {
                if terminal_phase(self.state) {
                    self
                } else {
                    App {
                        state: AppState::Running {
                            progress: spec_percent(current as nat, total as nat) as usize,
                            message,
                        },
                        ..self
                    }
                }
            },
            AuditUpdate::Result(r) => App { state: AppState::Complete, result: Some(r), ..self },
            AuditUpdate::Error(e) => App { state: AppState::Error(e), ..self },
            AuditUpdate::Complete => {
                if self.state is Running {
                    App { state: AppState::Complete, ..self }
                } else {
                    self
                }
            },
        }
    }

    /// State after advancing the issue selection: one step forward, clamped
    /// to the last index, scroll reset on an actual move.
    pub open spec fn spec_next_issue(self) -> App {
        if self.selected_issue + 1 < self.spec_issue_count() {
            App { selected_issue: (self.selected_issue + 1) as usize, scroll_offset: 0, ..self }
        } else {
            self
        }
    }

    /// State after retreating the issue selection: one step back, clamped at
    /// zero, scroll reset on an actual move.
    pub open spec fn spec_previous_issue(self) -> App {
        if self.selected_issue > 0 {
            App { selected_issue: (self.selected_issue - 1) as usize, scroll_offset: 0, ..self }
        } else {
            self
        }
    }

    /// State after moving to the next tab, wrapping around, scroll reset.
    pub open spec fn spec_next_tab(self) -> App {
        App {
            selected_tab: if self.selected_tab + 1 < TAB_COUNT {
                (self.selected_tab + 1) as usize
            } else {
                0
            },
            scroll_offset: 0,
            ..self
        }
    }

    /// State after moving to the previous tab, wrapping around, scroll reset.
    pub open spec fn spec_previous_tab(self) -> App {
        App {
            selected_tab: if self.selected_tab == 0 {
                (TAB_COUNT - 1) as usize
            } else {
                (self.selected_tab - 1) as usize
            },
            scroll_offset: 0,
            ..self
        }
    }

    /// State after one keyboard action.
    pub open spec fn spec_handle_key(self, key: KeyInput) -> App {
        match key {
            KeyInput::Quit => App { should_exit: true, ..self },
            KeyInput::NextIssue => self.spec_next_issue(),
            KeyInput::PreviousIssue => self.spec_previous_issue(),
            KeyInput::NextTab => self.spec_next_tab(),
            KeyInput::PreviousTab => self.spec_previous_tab(),
            KeyInput::ScrollDown => App {
                scroll_offset: (self.scroll_offset + 1) as usize,
                ..self
            },
            KeyInput::ScrollUp => App {
                scroll_offset: if self.scroll_offset > 0 {
                    (self.scroll_offset - 1) as usize
                } else {
                    0
                },
                ..self
            },
        }
    }

    /// Fresh dashboard state for one target URL: loading phase, no result,
    /// the navigation position at its origin.
    pub fn new(url: String) -> (app: App)
        ensures
            app == (App {
                url: url,
                state: AppState::Loading,
                result: None,
                selected_tab: 0,
                selected_issue: 0,
                scroll_offset: 0,
                should_exit: false,
            }),
            app.inv(),
    {
        App {
            url,
            state: AppState::Loading,
            result: None,
            selected_tab: 0,
            selected_issue: 0,
            scroll_offset: 0,
            should_exit: false,
        }
    }

    /// Consumes one update-channel message. Stale `Progress` after a terminal
    /// phase never changes the state; `Result` always stores its payload and
    /// completes the run; the closing `Complete` signal is idempotent once
    /// the phase is terminal.
    pub fn handle_update(&mut self, update: AuditUpdate)
        ensures
            *final(self) == old(self).spec_handle_update(update),
            terminal_phase(old(self).state) && update is Progress
                ==> *final(self) == *old(self),
            update matches AuditUpdate::Result(r)
                ==> final(self).state is Complete && final(self).result == Some(r),
            terminal_phase(old(self).state) && update is Complete
                ==> *final(self) == *old(self),
            old(self).inv() ==> final(self).inv(),
    {
        match update {
            AuditUpdate::Progress { current, total, message } => {
                let stale = match &self.state {
                    AppState::Complete => true,
                    AppState::Error(_) => true,
                    _ => false,
                };
                if !stale {
                    self.state = AppState::Running {
                        progress: progress_percent(current, total),
                        message,
                    };
                }
            },
            AuditUpdate::Result(result) => {
                self.result = Some(result);
                self.state = AppState::Complete;
            },
            AuditUpdate::Error(err) => {
                self.state = AppState::Error(err);
            },
            AuditUpdate::Complete => {
                let running = match &self.state {
                    AppState::Running { .. } => true,
                    _ => false,
                };
                if running {
                    self.state = AppState::Complete;
                }
            },
        }
    }

    /// Notes that the update channel closed with the worker gone. In a
    /// terminal phase that is the normal end of the stream and changes
    /// nothing; before that the worker died without its closing signal, and
    /// the phase becomes an error naming that condition.
    pub fn handle_channel_closed(&mut self)
        ensures
            terminal_phase(old(self).state) ==> *final(self) == *old(self),
            !terminal_phase(old(self).state) ==> (final(self).state matches AppState::Error(e)
                && e@ == "update channel closed before the audit finished"@),
            final(self).result == old(self).result,
            final(self).url == old(self).url,
            final(self).selected_tab == old(self).selected_tab,
            final(self).selected_issue == old(self).selected_issue,
            final(self).scroll_offset == old(self).scroll_offset,
            final(self).should_exit == old(self).should_exit,
            old(self).inv() ==> final(self).inv(),
    {
        let terminal = match &self.state {
            AppState::Complete => true,
            AppState::Error(_) => true,
            _ => false,
        };
        if !terminal {
            self.state = AppState::Error(
                "update channel closed before the audit finished".to_owned(),
            );
        }
    }

    /// Number of issues of the stored result; zero while none is stored.
    pub fn issue_count(&self) -> (n: usize)
        ensures
            n == self.spec_issue_count(),
    {
        match &self.result {
            Some(r) => r.issues.len(),
            None => 0,
        }
    }

    /// Advances the issue selection by one, clamped to the last index; a
    /// no-op without issues; resets the scroll offset when it moves.
    pub fn next_issue(&mut self)
        ensures
            *final(self) == old(self).spec_next_issue(),
            final(self).selected_issue < old(self).spec_issue_count()
                || *final(self) == *old(self),
            old(self).inv() ==> final(self).inv(),
    {
        let n = self.issue_count();
        if n > 0 && self.selected_issue < n - 1 {
            self.selected_issue = self.selected_issue + 1;
            self.scroll_offset = 0;
        }
    }

    /// Retreats the issue selection by one, clamped at zero; resets the
    /// scroll offset when it moves.
    pub fn previous_issue(&mut self)
        ensures
            *final(self) == old(self).spec_previous_issue(),
            old(self).inv() ==> final(self).inv(),
    {
        if self.selected_issue > 0 {
            self.selected_issue = self.selected_issue - 1;
            self.scroll_offset = 0;
        }
    }

    /// Moves to the next tab, wrapping from the last back to the first, and
    /// resets the scroll offset.
    pub fn next_tab(&mut self)
        ensures
            *final(self) == old(self).spec_next_tab(),
            final(self).selected_tab < TAB_COUNT,
            final(self).scroll_offset == 0,
            old(self).inv() ==> final(self).inv(),
    {
        self.selected_tab = if self.selected_tab < TAB_COUNT - 1 {
            self.selected_tab + 1
        } else {
            0
        };
        self.scroll_offset = 0;
    }

    /// Moves to the previous tab, wrapping from the first to the last, and
    /// resets the scroll offset.
    pub fn previous_tab(&mut self)
        ensures
            *final(self) == old(self).spec_previous_tab(),
            old(self).selected_tab < TAB_COUNT ==> final(self).selected_tab < TAB_COUNT,
            final(self).scroll_offset == 0,
            old(self).inv() ==> final(self).inv(),
    {
        self.selected_tab = if self.selected_tab == 0 {
            TAB_COUNT - 1
        } else {
            self.selected_tab - 1
        };
        self.scroll_offset = 0;
    }

    /// Scrolls the detail view down by one line.
    pub fn scroll_down(&mut self)
        requires
            old(self).scroll_offset < usize::MAX,
        ensures
            final(self).scroll_offset == old(self).scroll_offset + 1,
            *final(self) == (App { scroll_offset: final(self).scroll_offset, ..*old(self) }),
            old(self).inv() ==> final(self).inv(),
    {
        self.scroll_offset = self.scroll_offset + 1;
    }

    /// Scrolls the detail view up by one line, never below zero.
    pub fn scroll_up(&mut self)
        ensures
            final(self).scroll_offset == if old(self).scroll_offset > 0 {
                (old(self).scroll_offset - 1) as int
            } else {
                0
            },
            *final(self) == (App { scroll_offset: final(self).scroll_offset, ..*old(self) }),
            old(self).inv() ==> final(self).inv(),
    {
        self.scroll_offset = if self.scroll_offset > 0 {
            self.scroll_offset - 1
        } else {
            0
        };
    }

    /// Applies one keyboard action: quit raises the exit flag, the others
    /// move the navigation position.
    pub fn handle_key(&mut self, key: KeyInput)
        requires
            key is ScrollDown ==> old(self).scroll_offset < usize::MAX,
        ensures
            *final(self) == old(self).spec_handle_key(key),
            old(self).inv() ==> final(self).inv(),
    {
        match key {
            KeyInput::Quit => {
                self.should_exit = true;
            },
            KeyInput::NextIssue => self.next_issue(),
            KeyInput::PreviousIssue => self.previous_issue(),
            KeyInput::NextTab => self.next_tab(),
            KeyInput::PreviousTab => self.previous_tab(),
            KeyInput::ScrollDown => self.scroll_down(),
            KeyInput::ScrollUp => self.scroll_up(),
        }
    }
}

/// With a non-empty issue list and the selection on the last index, advancing
/// leaves the state unchanged: repeated advances clamp there.
pub proof fn lemma_next_issue_clamps_at_end(app: App)
    requires
        app.spec_issue_count() > 0,
        app.selected_issue == app.spec_issue_count() - 1,
    ensures
        app.spec_next_issue() == app,
{
}

/// With the selection at index zero, retreating leaves the state unchanged:
/// repeated retreats clamp there.
pub proof fn lemma_previous_issue_clamps_at_zero(app: App)
    requires
        app.selected_issue == 0,
    ensures
        app.spec_previous_issue() == app,
{
}

/// Without any issues, issue navigation in either direction is a no-op.
pub proof fn lemma_issue_navigation_noop_when_empty(app: App)
    requires
        app.spec_issue_count() == 0,
        app.selected_issue == 0,
    ensures
        app.spec_next_issue() == app,
        app.spec_previous_issue() == app,
{
}

/// Tab navigation wraps: the previous tab of the first is the last, and the
/// next tab of the last is the first.
pub proof fn lemma_tab_navigation_wraps(app: App)
    ensures
        app.selected_tab == 0 ==> app.spec_previous_tab().selected_tab == TAB_COUNT - 1,
        app.selected_tab == TAB_COUNT - 1 ==> app.spec_next_tab().selected_tab == 0,
{
}

/// Any keyboard action that changes the selected tab or the selected issue
/// leaves the scroll offset at zero.
pub proof fn lemma_selection_change_resets_scroll(app: App, key: KeyInput)
    requires
        app.spec_handle_key(key).selected_tab != app.selected_tab
            || app.spec_handle_key(key).selected_issue != app.selected_issue,
    ensures
        app.spec_handle_key(key).scroll_offset == 0,
{
}

/// Every transition, by message or by key, preserves the internal invariant.
pub proof fn lemma_transitions_preserve_inv(app: App, update: AuditUpdate, key: KeyInput)
    requires
        app.inv(),
    ensures
        app.spec_handle_update(update).inv(),
        app.spec_handle_key(key).inv(),
{
}

} // verus!
