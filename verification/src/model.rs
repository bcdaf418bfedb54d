//! The dispatcher as a state machine: its state as contracts see it, and
//! what each event and each reply of the host makes of that state.

use crate::clock::deadline_after;
use crate::clock::Clock;
use crate::event::DeadKeyStatus;
use crate::event::HostOpView;
use crate::event::HostReply;
use crate::event::KeyConfig;
use crate::event::KeyEvent;
use crate::event::PaneInfo;
use crate::event::Pass;
use crate::event::PassStart;
use crate::event::Pending;
use crate::event::RawKeyEvent;
use crate::event::Verdict;
use crate::input_map::InputMap;
use crate::input_map::KeyAssignment;
use crate::key_table::after_lookup;
use crate::key_table::dismissed;
use crate::key_table::looked_up;
use crate::key_table::reconciled;
use crate::key_table::served;
use crate::key_table::Activation;
use crate::keycode::is_terminal_modifier;
use crate::keycode::is_window_modifier;
use crate::keycode::same_key;
use crate::keycode::terminal_key;
use crate::keycode::Key;
use crate::modifiers::terminal_bits;
use crate::modifiers::Modifiers;
use crate::modifiers::ALT;
use crate::modifiers::LEADER;
use crate::modifiers::LEFT_ALT;
use crate::modifiers::RIGHT_ALT;
use vstd::prelude::*;
use wezterm_input_types::KeyCode;

verus! {

/// The state of a dispatcher.
pub ghost struct WindowModel {
    pub config: KeyConfig,
    pub input_map: InputMap,
    /// The stack of key tables of the window.
    pub tables: Seq<Activation>,
    /// The stack of key tables of the overlay over the pane that has the
    /// focus, where there is an overlay.
    pub overlay: Option<Seq<Activation>>,
    /// The deadline of the leader; `None` while the leader is not active.
    pub leader: Option<u128>,
    /// The earliest time at which the window asked to be drawn again.
    pub next_frame: Option<u128>,
    /// What was asked of the host and has not been taken by it yet.
    pub ops: Seq<HostOpView>,
    /// What the dispatcher waits for.
    pub pending: Pending,
    /// What the window system last said of a composition under way.
    pub composing: DeadKeyStatus,
    /// The clock that the dispatcher reads where it is given no time.
    pub clock: Clock,
}

/// The earlier of the time asked for so far and `at`.
pub open spec fn earlier(so_far: Option<u128>, at: u128) -> Option<u128> {
    match so_far {
        Some(t) => if at < t {
            Some(at)
        } else {
            Some(t)
        },
        None => Some(at),
    }
}

/// With one of the alt keys held, does the key itself go to the terminal,
/// and not what the keyboard layout composes from it? It does for the left
/// alt key and for the right one where the setting for that side is off, and
/// for an alt key of unknown side where both are off.
pub open spec fn bypasses_compose(config: KeyConfig, mods: Modifiers) -> bool {
    ||| (mods.has(LEFT_ALT) && !config.send_composed_key_when_left_alt_is_pressed)
    ||| (mods.has(RIGHT_ALT) && !config.send_composed_key_when_right_alt_is_pressed)
    ||| (!mods.has(RIGHT_ALT) && !mods.has(LEFT_ALT) && mods.has(ALT) && !(
    config.send_composed_key_when_left_alt_is_pressed
        || config.send_composed_key_when_right_alt_is_pressed))
}

/// The modifiers of a lookup: those of the event, and the leader while it
/// is active.
pub open spec fn lookup_mods(mods: Modifiers, leader_active: bool) -> Modifiers {
    Modifiers {
        bits: mods.bits | (if leader_active {
            LEADER
        } else {
            0
        }),
    }
}

/// A raw key event by the place of its key on the keyboard, where the event
/// knows the place.
pub open spec fn physical_form(event: RawKeyEvent) -> Option<KeyCode> {
    match event.key {
        KeyCode::Physical(_) => Some(event.key),
        _ => match event.phys_code {
            Some(phys) => Some(KeyCode::Physical(phys)),
            None => None,
        },
    }
}

/// A raw key event by the platform's code of its key.
pub open spec fn raw_form(event: RawKeyEvent) -> KeyCode {
    match event.key {
        KeyCode::RawCode(_) => event.key,
        _ => KeyCode::RawCode(event.raw_code),
    }
}

/// The key under which `pass` resolves a raw key event; `None` where the
/// pass is left out: the first where the place of the key is not known, the
/// last where the key of the event is one of the two forms before it.
pub open spec fn pass_key(event: RawKeyEvent, pass: Pass) -> Option<KeyCode> {
    match pass {
        Pass::Physical => physical_form(event),
        Pass::Raw => Some(raw_form(event)),
        Pass::Mapped => if (match physical_form(event) {
            Some(phys) => same_key(phys, event.key),
            None => false,
        }) || same_key(raw_form(event), event.key) {
            None
        } else {
            Some(event.key)
        },
    }
}

/// The pass after `pass`.
pub open spec fn next_pass(pass: Pass) -> Option<Pass> {
    match pass {
        Pass::Physical => Some(Pass::Raw),
        Pass::Raw => Some(Pass::Mapped),
        Pass::Mapped => None,
    }
}

/// How many passes are yet to run, `pass` among them.
pub open spec fn passes_left(pass: Pass) -> nat {
    match pass {
        Pass::Physical => 3,
        Pass::Raw => 2,
        Pass::Mapped => 1,
    }
}

impl WindowModel {
    /// The state with `op` asked of the host.
    pub open spec fn emit(self, op: HostOpView) -> WindowModel {
        WindowModel { ops: self.ops.push(op), ..self }
    }

    /// The state that waits for `pending`.
    pub open spec fn wait_for(self, pending: Pending) -> WindowModel {
        WindowModel { pending, ..self }
    }

    /// Is the leader active at `now`? It is until its deadline has come.
    pub open spec fn leader_active(self, now: u64) -> bool {
        match self.leader {
            Some(at) => at > now,
            None => false,
        }
    }

    /// The state with the leader torn down: the title and the window are
    /// drawn again.
    pub open spec fn leader_done(self) -> WindowModel {
        WindowModel { leader: None, ..self }.emit(HostOpView::UpdateTitle).emit(HostOpView::Invalidate)
    }

    /// The state after the leader has been looked at at `now`. An active
    /// leader has the window drawn again at its deadline; one whose
    /// deadline has come is torn down.
    pub open spec fn leader_checked(self, now: u64) -> WindowModel {
        match self.leader {
            Some(at) => if at > now {
                WindowModel { next_frame: earlier(self.next_frame, at), ..self }
            } else {
                self.leader_done()
            },
            None => self,
        }
    }

    /// The state after the name of the current key table has been asked for
    /// at `now`: the stack is reconciled, and the window is drawn again at
    /// the deadline of the table on top.
    pub open spec fn table_named(self, now: u64) -> WindowModel {
        let tables = reconciled(self.tables, now);
        WindowModel {
            tables,
            next_frame: if tables.len() > 0 && tables.last().expiration is Some {
                earlier(self.next_frame, tables.last().expiration->0)
            } else {
                self.next_frame
            },
            ..self
        }
    }

    /// What the key tables of the overlay answer, where there is an overlay.
    pub open spec fn overlay_answer(self, key: KeyCode, mods: Modifiers, now: u64) -> Option<
        KeyAssignment,
    > {
        match self.overlay {
            Some(stack) => match looked_up(&self.input_map, reconciled(stack, now), key, mods) {
                Some((entry, _)) => Some(entry.action),
                None => None,
            },
            None => None,
        }
    }

    /// What the key tables of the window answer.
    pub open spec fn window_answer(self, key: KeyCode, mods: Modifiers, now: u64) -> Option<
        KeyAssignment,
    > {
        match looked_up(&self.input_map, reconciled(self.tables, now), key, mods) {
            Some((entry, _)) => Some(entry.action),
            None => None,
        }
    }

    /// What the default table answers.
    pub open spec fn default_answer(self, key: KeyCode, mods: Modifiers) -> Option<KeyAssignment> {
        match self.input_map.binding(key, mods, None) {
            Some(entry) => Some(entry.action),
            None => None,
        }
    }

    /// The action that `key` with `mods` asks for at `now`: what the overlay
    /// answers, else what the window answers, else what the default table
    /// answers.
    pub open spec fn resolved(self, key: KeyCode, mods: Modifiers, now: u64) -> Option<
        KeyAssignment,
    > {
        if self.overlay_answer(key, mods, now) is Some {
            self.overlay_answer(key, mods, now)
        } else if self.window_answer(key, mods, now) is Some {
            self.window_answer(key, mods, now)
        } else {
            self.default_answer(key, mods)
        }
    }

    /// The name of the key table whose binding `resolved` gives: that of the
    /// overlay's table where the overlay answers, else that of the window's
    /// table where the window answers. `None` where the default table
    /// answers, and where nothing does.
    pub open spec fn resolved_table(self, key: KeyCode, mods: Modifiers, now: u64) -> Option<
        Seq<char>,
    > {
        let overlay = match self.overlay {
            Some(stack) => looked_up(&self.input_map, reconciled(stack, now), key, mods),
            None => None,
        };
        match overlay {
            Some((_, name)) => Some(name),
            None => match looked_up(&self.input_map, reconciled(self.tables, now), key, mods) {
                Some((_, name)) => Some(name),
                None => None,
            },
        }
    }

    /// The state after `key` with `mods` has been resolved at `now`. The
    /// overlay is asked in any case; the window is asked where the overlay
    /// has no answer.
    pub open spec fn after_resolve(self, key: KeyCode, mods: Modifiers, now: u64) -> WindowModel {
        WindowModel {
            overlay: match self.overlay {
                Some(stack) => Some(
                    after_lookup(&self.input_map, reconciled(stack, now), key, mods, now),
                ),
                None => None,
            },
            tables: if self.overlay_answer(key, mods, now) is Some {
                self.tables
            } else {
                after_lookup(&self.input_map, reconciled(self.tables, now), key, mods, now)
            },
            ..self
        }
    }

    /// How one form of a key starts out. A key press that finds the leader
    /// idle and is the leader key starts the leader and looks no further. A
    /// key press is else resolved, with the leader among its modifiers while
    /// the leader is active. A key release finds no binding.
    pub open spec fn pass_start(
        self,
        key: KeyCode,
        mods: Modifiers,
        leader_active: bool,
        is_down: bool,
        now: u64,
    ) -> PassStart {
        if is_down && !leader_active && self.input_map.leader_timeout(key, mods) is Some {
            PassStart::LeaderStarted
        } else if is_down {
            match self.resolved(key, lookup_mods(mods, leader_active), now) {
                Some(action) => PassStart::Perform(action),
                None => PassStart::NoBinding,
            }
        } else {
            PassStart::NoBinding
        }
    }

    /// The state after one form of a key has started out. The leader that
    /// starts lasts its timeout from `now`, and the window is drawn again
    /// when it ends. A binding that is found counts as a key served at
    /// `now`, before its action has run.
    pub open spec fn after_pass_start(
        self,
        key: KeyCode,
        mods: Modifiers,
        leader_active: bool,
        is_down: bool,
        now: u64,
    ) -> WindowModel {
        if is_down && !leader_active && self.input_map.leader_timeout(key, mods) is Some {
            let at = deadline_after(now, self.input_map.leader_timeout(key, mods)->0);
            WindowModel { leader: Some(at), ..self }.emit(HostOpView::UpdateTitle).emit(
                HostOpView::InvalidateAt(at),
            )
        } else if is_down {
            let after = self.after_resolve(key, lookup_mods(mods, leader_active), now);
            if self.resolved(key, lookup_mods(mods, leader_active), now) is Some {
                WindowModel { tables: served(reconciled(after.tables, now)), ..after }
            } else {
                after
            }
        } else {
            self
        }
    }

    /// The state after an action has taken a key: the window is drawn again,
    /// and the leader, having served, is torn down.
    pub open spec fn action_taken(self, leader_active: bool) -> WindowModel {
        if leader_active {
            self.emit(HostOpView::Invalidate).leader_done()
        } else {
            self.emit(HostOpView::Invalidate)
        }
    }

    /// The state after the terminal has taken a key: typing scrolls a pane
    /// without overlay to its bottom, and the window is drawn again; a
    /// modifier key does neither.
    pub open spec fn key_taken(self, key_is_down: bool, is_modifier: bool) -> WindowModel {
        let scrolled = if key_is_down && !is_modifier && self.overlay is None {
            self.emit(HostOpView::ScrollToBottom)
        } else {
            self
        };
        let cleared = scrolled.emit(HostOpView::ClearCursor);
        if !is_modifier {
            cleared.emit(HostOpView::Invalidate)
        } else {
            cleared
        }
    }

    /// The passes of a raw key event from `pass` on. Each pass resolves its
    /// form of the key and nothing else. The first that starts the leader
    /// ends the event; the first that finds a binding has its action run,
    /// says which table the binding is of, and waits for what comes of it.
    pub open spec fn raw_passes(
        self,
        event: RawKeyEvent,
        pass: Pass,
        leader_active: bool,
        now: u64,
    ) -> (WindowModel, Verdict)
        decreases passes_left(pass),
    {
        match pass_key(event, pass) {
            Some(key) => {
                let after = self.after_pass_start(
                    key,
                    event.modifiers,
                    leader_active,
                    event.key_is_down,
                    now,
                );
                match self.pass_start(key, event.modifiers, leader_active, event.key_is_down, now) {
                    PassStart::LeaderStarted => (after, Verdict::Handled),
                    PassStart::Perform(action) => (
                        after.emit(
                            HostOpView::Perform(
                                action,
                                self.resolved_table(key, lookup_mods(event.modifiers, leader_active), now),
                            ),
                        ).wait_for(Pending::RawAction { event, pass, leader_active }),
                        Verdict::Pending,
                    ),
                    PassStart::NoBinding => after.raw_passes_after(event, pass, leader_active, now),
                }
            },
            None => self.raw_passes_after(event, pass, leader_active, now),
        }
    }

    /// The passes of a raw key event that follow `pass`.
    pub open spec fn raw_passes_after(
        self,
        event: RawKeyEvent,
        pass: Pass,
        leader_active: bool,
        now: u64,
    ) -> (WindowModel, Verdict)
        decreases passes_left(pass), 0nat,
    {
        match next_pass(pass) {
            Some(next) => self.raw_passes(event, next, leader_active, now),
            None => (self, Verdict::Unhandled),
        }
    }

    /// What a raw key event makes of the state at `now`. The leader is
    /// looked at first, pane or no pane; without a pane nothing else
    /// happens.
    pub open spec fn raw_key_event(self, event: RawKeyEvent, pane: PaneInfo, now: u64) -> (
        WindowModel,
        Verdict,
    ) {
        let checked = self.leader_checked(now);
        if pane.active {
            checked.raw_passes(event, Pass::Physical, self.leader_active(now), now)
        } else {
            (checked, Verdict::Unhandled)
        }
    }

    /// The end of a key event that no binding took, at `now`: the
    /// until-unknown tables leave, and the key or the text goes on to the
    /// terminal. With
    /// the leader active, a key that is no modifier ends the leader and goes
    /// nowhere. A modal takes key presses and nothing else.
    pub open spec fn key_passed_on(
        self,
        event: KeyEvent,
        pane: PaneInfo,
        leader_active: bool,
        now: u64,
    ) -> (WindowModel, Verdict) {
        let swept = if event.key_is_down {
            WindowModel { tables: dismissed(self.tables, now), ..self }
        } else {
            self
        };
        let mods = Modifiers { bits: terminal_bits(event.modifiers.bits) };
        match terminal_key(event.key, self.config.swap_backspace_and_delete) {
            Key::Code(code) => {
                let typed = event.key_is_down && !is_terminal_modifier(code);
                if typed && leader_active {
                    (swept.leader_done(), Verdict::Unhandled)
                } else {
                    let counted = if typed {
                        WindowModel { tables: served(reconciled(swept.tables, now)), ..swept }
                    } else {
                        swept
                    };
                    if pane.has_modal {
                        (
                            if event.key_is_down {
                                counted.emit(HostOpView::ModalKeyDown(code, mods))
                            } else {
                                counted
                            },
                            Verdict::Unhandled,
                        )
                    } else {
                        (
                            counted.emit(
                                if self.config.allow_win32_input_mode && pane.win32_encoding
                                    && event.win32_input is Some {
                                    HostOpView::PaneWrite(event.win32_input->0@)
                                } else if event.key_is_down {
                                    HostOpView::PaneKeyDown(code, mods)
                                } else {
                                    HostOpView::PaneKeyUp(code, mods)
                                },
                            ).wait_for(
                                Pending::KeyDelivery {
                                    key_is_down: event.key_is_down,
                                    is_modifier: is_terminal_modifier(code),
                                },
                            ),
                            Verdict::Pending,
                        )
                    }
                }
            },
            Key::Composed(text) => {
                if !event.key_is_down {
                    (swept, Verdict::Unhandled)
                } else if leader_active {
                    (swept.leader_done(), Verdict::Unhandled)
                } else {
                    (
                        WindowModel { tables: served(reconciled(swept.tables, now)), ..swept }.emit(
                            HostOpView::PaneWrite(text@),
                        ).emit(HostOpView::ScrollToBottom).emit(HostOpView::Invalidate),
                        Verdict::Unhandled,
                    )
                }
            },
            Key::Unrepresentable => (swept, Verdict::Unhandled),
        }
    }

    /// Does the key of the event go to the terminal in place of the
    /// composed one? Not while the leader is active, and only where the key
    /// is one that the terminal knows.
    pub open spec fn bypass_key(self, event: KeyEvent, leader_active: bool) -> bool {
        &&& !leader_active
        &&& bypasses_compose(self.config, event.modifiers)
        &&& terminal_key(event.key, self.config.swap_backspace_and_delete) is Code
    }

    /// A key event that found no binding, or whose action did not take it.
    pub open spec fn key_unbound(
        self,
        event: KeyEvent,
        pane: PaneInfo,
        leader_active: bool,
        now: u64,
    ) -> (WindowModel, Verdict) {
        if self.bypass_key(event, leader_active) && (!pane.has_modal || event.key_is_down) {
            let code = terminal_key(event.key, self.config.swap_backspace_and_delete)->Code_0;
            let mods = Modifiers { bits: terminal_bits(event.modifiers.bits) };
            (
                self.emit(
                    if pane.has_modal {
                        HostOpView::ModalKeyDown(code, mods)
                    } else if event.key_is_down {
                        HostOpView::PaneKeyDown(code, mods)
                    } else {
                        HostOpView::PaneKeyUp(code, mods)
                    },
                ).wait_for(Pending::KeyBypass { event, pane, leader_active }),
                Verdict::Pending,
            )
        } else {
            self.key_passed_on(event, pane, leader_active, now)
        }
    }

    /// What a key event makes of the state at `now`. Without a pane nothing
    /// happens.
    pub open spec fn key_event(self, event: KeyEvent, pane: PaneInfo, now: u64) -> (
        WindowModel,
        Verdict,
    ) {
        if !pane.active {
            (self, Verdict::Unhandled)
        } else {
            let leader_active = self.leader_active(now);
            let checked = self.leader_checked(now);
            let after = checked.after_pass_start(
                event.key,
                event.modifiers,
                leader_active,
                event.key_is_down,
                now,
            );
            match checked.pass_start(
                event.key,
                event.modifiers,
                leader_active,
                event.key_is_down,
                now,
            ) {
                PassStart::LeaderStarted => (after, Verdict::Handled),
                PassStart::Perform(action) => (
                    after.emit(
                        HostOpView::Perform(
                            action,
                            checked.resolved_table(
                                event.key,
                                lookup_mods(event.modifiers, leader_active),
                                now,
                            ),
                        ),
                    ).wait_for(Pending::KeyAction { event, pane, leader_active }),
                    Verdict::Pending,
                ),
                PassStart::NoBinding => after.key_unbound(event, pane, leader_active, now),
            }
        }
    }

    /// What the host's reply makes of the state at `now`. An action that
    /// reports anything but `Ignored` has taken the key; an ignored one
    /// leaves the event to go on as if it had found no binding. A key that
    /// the modal or the pane did not take in place of the composed one is
    /// passed on like any other.
    pub open spec fn resumed(self, reply: HostReply, now: u64) -> (WindowModel, Verdict) {
        let idle = self.wait_for(Pending::Idle);
        match self.pending {
            Pending::Idle => (self, Verdict::Unhandled),
            Pending::RawAction { event, pass, leader_active } => if reply != HostReply::Ignored {
                (idle.action_taken(leader_active), Verdict::Handled)
            } else {
                idle.raw_passes_after(event, pass, leader_active, now)
            },
            Pending::KeyAction { event, pane, leader_active } => if reply != HostReply::Ignored {
                (idle.action_taken(leader_active), Verdict::Handled)
            } else {
                idle.key_unbound(event, pane, leader_active, now)
            },
            Pending::KeyBypass { event, pane, leader_active } => if reply == HostReply::Handled {
                (
                    if pane.has_modal {
                        idle
                    } else {
                        idle.key_taken(event.key_is_down, is_window_modifier(event.key))
                    },
                    Verdict::Handled,
                )
            } else {
                idle.key_passed_on(event, pane, leader_active, now)
            },
            Pending::KeyDelivery { key_is_down, is_modifier } => (
                if reply == HostReply::Handled {
                    idle.key_taken(key_is_down, is_modifier)
                } else {
                    idle
                },
                Verdict::Unhandled,
            ),
        }
    }
}

} // verus!
