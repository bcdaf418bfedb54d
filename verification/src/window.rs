//! The dispatcher: one per window. It owns the key tables and the leader,
//! takes key events, and asks its host for what it cannot do itself.

use crate::clock::deadline;
use crate::clock::Clock;
use crate::event::DeadKeyStatus;
use crate::event::ops_of;
use crate::event::text_of;
use crate::event::HostOp;
use crate::event::HostReply;
use crate::event::KeyConfig;
use crate::event::KeyEvent;
use crate::event::PaneInfo;
use crate::event::Pass;
use crate::event::PassStart;
use crate::event::Pending;
use crate::event::RawKeyEvent;
use crate::event::Verdict;
use crate::input_map::InputMap;
use crate::input_map::KeyAssignment;
use crate::key_table::lemma_reconciled_is_live;
use crate::key_table::KeyTableState;
use crate::keycode::key_codes_equal;
use crate::keycode::map_key_code;
use crate::keycode::terminal_key_is_modifier;
use crate::keycode::window_key_is_modifier;
use crate::keycode::Key;
use crate::model::bypasses_compose;
use crate::model::earlier;
use crate::model::lookup_mods;
use crate::model::pass_key;
use crate::model::WindowModel;
use crate::modifiers::window_mods_to_termwiz_mods;
use crate::modifiers::Modifiers;
use crate::modifiers::ALT;
use crate::modifiers::LEADER;
use crate::modifiers::LEFT_ALT;
use crate::modifiers::RIGHT_ALT;
use vstd::prelude::*;
use wezterm_input_types::KeyCode;

verus! {

/// The dispatcher of one window.
pub struct TermWindow {
    pub config: KeyConfig,
    pub input_map: InputMap,
    /// The stack of key tables of the window.
    pub key_table_state: KeyTableState,
    /// The stack of key tables of the overlay over the pane that has the
    /// focus, where there is an overlay. `open_overlay` makes one that reads
    /// the window's clock, as every stack here has to.
    pub overlay: Option<KeyTableState>,
    /// The deadline of the leader; `None` while the leader is not active.
    pub leader_is_down: Option<u128>,
    /// The earliest time at which the window asked to be drawn again.
    pub next_frame_time: Option<u128>,
    /// What was asked of the host and has not been taken by it yet.
    pub outbox: Vec<HostOp>,
    /// What the dispatcher waits for.
    pub pending: Pending,
    /// What the window system last said of a composition under way.
    pub dead_key_status: DeadKeyStatus,
    /// The clock that the functions without a time of their own read.
    pub clock: Clock,
}

impl View for TermWindow {
    type V = WindowModel;

    open spec fn view(&self) -> WindowModel {
        WindowModel {
            config: self.config,
            input_map: self.input_map,
            tables: self.key_table_state@,
            overlay: match self.overlay {
                Some(state) => Some(state@),
                None => None,
            },
            leader: self.leader_is_down,
            next_frame: self.next_frame_time,
            ops: ops_of(self.outbox@),
            pending: self.pending,
            composing: self.dead_key_status,
            clock: self.clock,
        }
    }
}

impl TermWindow {
    /// A dispatcher with no key table active, the leader idle, and nothing
    /// asked of the host.
    pub fn new(config: KeyConfig, input_map: InputMap) -> (window: TermWindow)
        ensures
            window@ == (WindowModel {
                config,
                input_map,
                tables: Seq::empty(),
                overlay: None,
                leader: None,
                next_frame: None,
                ops: Seq::empty(),
                pending: Pending::Idle,
                composing: DeadKeyStatus::NotComposing,
                clock: window@.clock,
            }),
            window.one_clock(),
    {
        let clock = Clock::new();
        let window = TermWindow {
            config,
            input_map,
            key_table_state: KeyTableState::with_clock(clock),
            overlay: None,
            leader_is_down: None,
            next_frame_time: None,
            outbox: Vec::new(),
            pending: Pending::Idle,
            dead_key_status: DeadKeyStatus::NotComposing,
            clock,
        };
        assert(ops_of(window.outbox@) =~= Seq::empty());
        window
    }

    /// The clocks that are read: the window's own, that of its key tables,
    /// and that of the overlay's key tables where there is an overlay.
    pub open spec fn clocks(&self) -> (Clock, Clock, Option<Clock>) {
        (
            self.clock,
            self.key_table_state.time_source(),
            match self.overlay {
                Some(state) => Some(state.time_source()),
                None => None,
            },
        )
    }

    /// Do all key tables read the window's clock? Deadlines count from the
    /// start of the clock that set them, so they mean the same time only on
    /// one clock.
    pub open spec fn one_clock(&self) -> bool {
        &&& self.clocks().1 == self.clocks().0
        &&& self.clocks().2 is Some ==> self.clocks().2 == Some(self.clocks().0)
    }

    /// Puts an overlay over the pane that has the focus: its stack of key
    /// tables starts out empty and reads the window's clock. An overlay that
    /// is there already is replaced.
    pub fn open_overlay(&mut self)
        ensures
            final(self)@ == (WindowModel { overlay: Some(Seq::empty()), ..old(self)@ }),
            final(self).clocks() == (old(self).clocks().0, old(self).clocks().1, Some(old(self).clocks().0)),
            old(self).one_clock() ==> final(self).one_clock(),
    {
        self.overlay = Some(KeyTableState::with_clock(self.clock));
    }

    /// Takes the overlay away, with its key tables.
    pub fn close_overlay(&mut self)
        ensures
            final(self)@ == (WindowModel { overlay: None, ..old(self)@ }),
            final(self).clocks() == (old(self).clocks().0, old(self).clocks().1, None::<Clock>),
            old(self).one_clock() ==> final(self).one_clock(),
    {
        self.overlay = None;
    }

    /// What the window system last said of a composition under way.
    pub fn composition_status(&self) -> (status: &DeadKeyStatus)
        ensures
            *status == self@.composing,
    {
        &self.dead_key_status
    }

    /// Is the dispatcher free to take an event?
    pub fn is_idle(&self) -> (idle: bool)
        ensures
            idle == (self@.pending is Idle),
    {
        match &self.pending {
            Pending::Idle => true,
            _ => false,
        }
    }

    /// Hands over what was asked of the host since the last call, in order.
    pub fn take_ops(&mut self) -> (ops: Vec<HostOp>)
        ensures
            final(self).clocks() == old(self).clocks(),
            ops_of(ops@) == old(self)@.ops,
            final(self)@ == (WindowModel { ops: Seq::empty(), ..old(self)@ }),
    {
        let mut ops = Vec::new();
        std::mem::swap(&mut self.outbox, &mut ops);
        assert(ops_of(self.outbox@) =~= Seq::empty());
        ops
    }

    /// Hands over the earliest time at which the window asked to be drawn
    /// again since the last call.
    pub fn take_next_frame_time(&mut self) -> (at: Option<u128>)
        ensures
            final(self).clocks() == old(self).clocks(),
            at == old(self)@.next_frame,
            final(self)@ == (WindowModel { next_frame: None, ..old(self)@ }),
    {
        let at = self.next_frame_time;
        self.next_frame_time = None;
        at
    }

    fn emit(&mut self, op: HostOp)
        ensures
            final(self).clocks() == old(self).clocks(),
            final(self)@ == old(self)@.emit(op@),
    {
        self.outbox.push(op);
        assert(ops_of(self.outbox@) =~= ops_of(old(self).outbox@).push(op@));
    }

    fn update_next_frame_time(&mut self, at: u128)
        ensures
            final(self).clocks() == old(self).clocks(),
            final(self)@ == (WindowModel { next_frame: earlier(old(self)@.next_frame, at), ..old(self)@ }),
    {
        self.next_frame_time = match self.next_frame_time {
            Some(t) => if at < t {
                Some(at)
            } else {
                Some(t)
            },
            None => Some(at),
        };
    }

    fn leader_done(&mut self)
        ensures
            final(self).clocks() == old(self).clocks(),
            final(self)@ == old(self)@.leader_done(),
    {
        self.leader_is_down = None;
        self.emit(HostOp::UpdateTitle);
        self.emit(HostOp::Invalidate);
    }

    /// Is the leader active at `now`? It is until its deadline has come. An
    /// active leader has the window drawn again at its deadline. A leader
    /// whose deadline has come is torn down by the first look at it: the
    /// title and the window are drawn again, and the next look finds no
    /// leader.
    pub fn leader_is_active_at(&mut self, now: u64) -> (active: bool)
        ensures
            final(self).clocks() == old(self).clocks(),
            active == old(self)@.leader_active(now),
            final(self)@ == old(self)@.leader_checked(now),
    {
        match self.leader_is_down {
            Some(expiry) => {
                if expiry > now as u128 {
                    self.update_next_frame_time(expiry);
                    true
                } else {
                    self.leader_done();
                    false
                }
            },
            None => false,
        }
    }

    /// Is the leader active at `now`? An active leader has the window drawn
    /// again at its deadline. A leader whose deadline has come is torn down,
    /// once: the call after finds no leader.
    pub fn leader_is_active_mut_at(&mut self, now: u64) -> (active: bool)
        ensures
            final(self).clocks() == old(self).clocks(),
            active == old(self)@.leader_active(now),
            final(self)@ == old(self)@.leader_checked(now),
    {
        self.leader_is_active_at(now)
    }

    /// The name of the key table on top at `now`, for the status display.
    /// The window is drawn again at the deadline of that table.
    pub fn current_key_table_name_at(&mut self, now: u64) -> (name: Option<String>)
        ensures
            final(self).clocks() == old(self).clocks(),
            final(self)@ == old(self)@.table_named(now),
            match name {
                Some(n) => final(self)@.tables.len() > 0 && n@ == final(self)@.tables.last().name,
                None => final(self)@.tables.len() == 0,
            },
    {
        let name = match self.key_table_state.current_table_at(now) {
            Some(s) => Some(s.to_owned()),
            None => None,
        };
        proof {
            lemma_reconciled_is_live(old(self)@.tables, now);
        }
        match self.key_table_state.next_expiration_at(now) {
            Some(expiry) => self.update_next_frame_time(expiry),
            None => {},
        }
        name
    }

    /// Resolves `key` with `mods`: the overlay is asked first, the window
    /// next, the default table last. With the action comes the name of the
    /// key table that answered; it is `None` exactly where the default table
    /// did. Where the overlay answers, the window's key tables are not asked
    /// and stay as they are.
    fn lookup_key(&mut self, key: &KeyCode, mods: Modifiers, now: u64) -> (answer: Option<
        (KeyAssignment, Option<String>),
    >)
        ensures
            final(self).clocks() == old(self).clocks(),
            match answer {
                Some((action, table)) => {
                    &&& old(self)@.resolved(*key, mods, now) == Some(action)
                    &&& text_of(table) == old(self)@.resolved_table(*key, mods, now)
                    &&& table is None <==> old(self)@.overlay_answer(*key, mods, now) is None && old(
                        self,
                    )@.window_answer(*key, mods, now) is None
                },
                None => old(self)@.resolved(*key, mods, now) is None,
            },
            old(self)@.overlay_answer(*key, mods, now) is Some ==> final(self)@.tables == old(
                self,
            )@.tables,
            final(self)@ == old(self)@.after_resolve(*key, mods, now),
    {
        let from_overlay = match &mut self.overlay {
            Some(state) => state.lookup_key_at(&self.input_map, key, mods, now),
            None => None,
        };
        match from_overlay {
            Some((entry, table)) => {
                return Some((entry.action, table));
            },
            None => {},
        }
        match self.key_table_state.lookup_key_at(&self.input_map, key, mods, now) {
            Some((entry, table)) => {
                return Some((entry.action, table));
            },
            None => {},
        }
        match self.input_map.lookup_key(key, mods, None) {
            Some(entry) => Some((entry.action, None)),
            None => None,
        }
    }

    /// Starts one form of a key out: the leader, a binding, or neither.
    /// With a binding comes the name of the key table that it is of.
    fn start_pass(
        &mut self,
        key: &KeyCode,
        mods: Modifiers,
        leader_active: bool,
        is_down: bool,
        now: u64,
    ) -> (started: (PassStart, Option<String>))
        ensures
            final(self).clocks() == old(self).clocks(),
            started.0 == old(self)@.pass_start(*key, mods, leader_active, is_down, now),
            started.0 is Perform ==> text_of(started.1) == old(self)@.resolved_table(
                *key,
                lookup_mods(mods, leader_active),
                now,
            ),
            !(started.0 is Perform) ==> started.1 is None,
            final(self)@ == old(self)@.after_pass_start(*key, mods, leader_active, is_down, now),
    {
        if is_down && !leader_active {
            match self.input_map.is_leader(key, mods) {
                Some(timeout) => {
                    let target = deadline(now, timeout);
                    self.leader_is_down = Some(target);
                    self.emit(HostOp::UpdateTitle);
                    self.emit(HostOp::InvalidateAt(target));
                    return (PassStart::LeaderStarted, None);
                },
                None => {},
            }
        }
        if is_down {
            let leader_mod: u16 = if leader_active {
                LEADER
            } else {
                0
            };
            let with_leader = Modifiers { bits: mods.bits | leader_mod };
            match self.lookup_key(key, with_leader, now) {
                Some((action, table)) => {
                    self.key_table_state.did_process_key_at(now);
                    return (PassStart::Perform(action), table);
                },
                None => {},
            }
        }
        (PassStart::NoBinding, None)
    }

    /// The state after an action has taken a key.
    fn action_taken(&mut self, leader_active: bool)
        ensures
            final(self).clocks() == old(self).clocks(),
            final(self)@ == old(self)@.action_taken(leader_active),
    {
        self.emit(HostOp::Invalidate);
        if leader_active {
            self.leader_done();
        }
    }

    /// The state after the terminal has taken a key.
    fn key_taken(&mut self, key_is_down: bool, is_modifier: bool)
        ensures
            final(self).clocks() == old(self).clocks(),
            final(self)@ == old(self)@.key_taken(key_is_down, is_modifier),
    {
        if key_is_down && !is_modifier && self.overlay.is_none() {
            self.emit(HostOp::ScrollToBottom);
        }
        self.emit(HostOp::ClearCursor);
        if !is_modifier {
            self.emit(HostOp::Invalidate);
        }
    }

    /// The passes of a raw key event from `pass` on.
    fn raw_passes(&mut self, event: RawKeyEvent, pass: Pass, leader_active: bool, now: u64) -> (verdict:
        Verdict)
        ensures
            final(self).clocks() == old(self).clocks(),
            (final(self)@, verdict) == old(self)@.raw_passes(event, pass, leader_active, now),
        decreases crate::model::passes_left(pass), 1nat,
    {
        match key_of_pass(&event, pass) {
            Some(key) => {
                let (start, table) = self.start_pass(
                    &key,
                    event.modifiers,
                    leader_active,
                    event.key_is_down,
                    now,
                );
                match start {
                    PassStart::LeaderStarted => Verdict::Handled,
                    PassStart::Perform(action) => {
                        self.emit(HostOp::Perform(action, table));
                        self.pending = Pending::RawAction { event, pass, leader_active };
                        Verdict::Pending
                    },
                    PassStart::NoBinding => self.raw_passes_after(event, pass, leader_active, now),
                }
            },
            None => self.raw_passes_after(event, pass, leader_active, now),
        }
    }

    /// The passes of a raw key event that follow `pass`.
    fn raw_passes_after(&mut self, event: RawKeyEvent, pass: Pass, leader_active: bool, now: u64) -> (verdict:
        Verdict)
        ensures
            final(self).clocks() == old(self).clocks(),
            (final(self)@, verdict) == old(self)@.raw_passes_after(event, pass, leader_active, now),
        decreases crate::model::passes_left(pass), 0nat,
    {
        match pass {
            Pass::Physical => self.raw_passes(event, Pass::Raw, leader_active, now),
            Pass::Raw => self.raw_passes(event, Pass::Mapped, leader_active, now),
            Pass::Mapped => Verdict::Unhandled,
        }
    }

    /// The end of a key event that no binding took.
    fn key_passed_on(&mut self, event: KeyEvent, pane: PaneInfo, leader_active: bool, now: u64) -> (verdict:
        Verdict)
        ensures
            final(self).clocks() == old(self).clocks(),
            (final(self)@, verdict) == old(self)@.key_passed_on(event, pane, leader_active, now),
    {
        if event.key_is_down {
            self.key_table_state.pop_until_unknown_at(now);
        }
        let mods = window_mods_to_termwiz_mods(event.modifiers);
        match map_key_code(&event.key, self.config.swap_backspace_and_delete) {
            Key::Code(code) => {
                let is_modifier = terminal_key_is_modifier(code);
                if event.key_is_down && !is_modifier {
                    if leader_active {
                        self.leader_done();
                        return Verdict::Unhandled;
                    }
                    self.key_table_state.did_process_key_at(now);
                }
                if pane.has_modal {
                    if event.key_is_down {
                        self.emit(HostOp::ModalKeyDown(code, mods));
                    }
                    return Verdict::Unhandled;
                }
                let encoded = if self.config.allow_win32_input_mode && pane.win32_encoding {
                    event.win32_input
                } else {
                    None
                };
                let op = match encoded {
                    Some(text) => HostOp::PaneWrite(text),
                    None => if event.key_is_down {
                        HostOp::PaneKeyDown(code, mods)
                    } else {
                        HostOp::PaneKeyUp(code, mods)
                    },
                };
                self.emit(op);
                self.pending = Pending::KeyDelivery { key_is_down: event.key_is_down, is_modifier };
                Verdict::Pending
            },
            Key::Composed(text) => {
                if !event.key_is_down {
                    return Verdict::Unhandled;
                }
                if leader_active {
                    self.leader_done();
                    return Verdict::Unhandled;
                }
                self.key_table_state.did_process_key_at(now);
                self.emit(HostOp::PaneWrite(text));
                self.emit(HostOp::ScrollToBottom);
                self.emit(HostOp::Invalidate);
                Verdict::Unhandled
            },
            Key::Unrepresentable => Verdict::Unhandled,
        }
    }

    /// A key event that found no binding, or whose action did not take it.
    fn key_unbound(&mut self, event: KeyEvent, pane: PaneInfo, leader_active: bool, now: u64) -> (verdict:
        Verdict)
        ensures
            final(self).clocks() == old(self).clocks(),
            (final(self)@, verdict) == old(self)@.key_unbound(event, pane, leader_active, now),
    {
        if !leader_active && bypass_compose(&self.config, event.modifiers) {
            match map_key_code(&event.key, self.config.swap_backspace_and_delete) {
                Key::Code(code) => {
                    let mods = window_mods_to_termwiz_mods(event.modifiers);
                    if pane.has_modal {
                        if event.key_is_down {
                            self.emit(HostOp::ModalKeyDown(code, mods));
                            self.pending = Pending::KeyBypass { event, pane, leader_active };
                            return Verdict::Pending;
                        }
                    } else {
                        if event.key_is_down {
                            self.emit(HostOp::PaneKeyDown(code, mods));
                        } else {
                            self.emit(HostOp::PaneKeyUp(code, mods));
                        }
                        self.pending = Pending::KeyBypass { event, pane, leader_active };
                        return Verdict::Pending;
                    }
                },
                _ => {},
            }
        }
        self.key_passed_on(event, pane, leader_active, now)
    }

    /// Takes a raw key event at `now`: the key is resolved by its place on
    /// the keyboard, by the platform's code, and as the event names it, in
    /// this order, against the key tables and the default table. Nothing
    /// goes to the terminal. Events are taken one at a time: the dispatcher
    /// must not be waiting for a reply to an earlier one.
    pub fn raw_key_event_at(&mut self, event: RawKeyEvent, pane: PaneInfo, now: u64) -> (verdict: Verdict)
        requires
            old(self)@.pending is Idle,
        ensures
            final(self).clocks() == old(self).clocks(),
            (final(self)@, verdict) == old(self)@.raw_key_event(event, pane, now),
    {
        let leader_active = self.leader_is_active_mut_at(now);
        if !pane.active {
            return Verdict::Unhandled;
        }
        self.raw_passes(event, Pass::Physical, leader_active, now)
    }

    /// Takes a key event at `now`: a binding takes it, or its key or text
    /// goes on to the terminal. Events are taken one at a time: the
    /// dispatcher must not be waiting for a reply to an earlier one.
    pub fn key_event_at(&mut self, event: KeyEvent, pane: PaneInfo, now: u64) -> (verdict: Verdict)
        requires
            old(self)@.pending is Idle,
        ensures
            final(self).clocks() == old(self).clocks(),
            (final(self)@, verdict) == old(self)@.key_event(event, pane, now),
    {
        if !pane.active {
            return Verdict::Unhandled;
        }
        let leader_active = self.leader_is_active_mut_at(now);
        let (start, table) = self.start_pass(
            &event.key,
            event.modifiers,
            leader_active,
            event.key_is_down,
            now,
        );
        match start {
            PassStart::LeaderStarted => Verdict::Handled,
            PassStart::Perform(action) => {
                self.emit(HostOp::Perform(action, table));
                self.pending = Pending::KeyAction { event, pane, leader_active };
                Verdict::Pending
            },
            PassStart::NoBinding => self.key_unbound(event, pane, leader_active, now),
        }
    }

    /// Takes the host's reply to the operation that the dispatcher waits
    /// for, at `now`, and goes on with the event from there. With nothing
    /// waited for, nothing happens.
    pub fn resume_at(&mut self, reply: HostReply, now: u64) -> (verdict: Verdict)
        ensures
            final(self).clocks() == old(self).clocks(),
            (final(self)@, verdict) == old(self)@.resumed(reply, now),
    {
        let mut pending = Pending::Idle;
        std::mem::swap(&mut self.pending, &mut pending);
        match pending {
            Pending::Idle => Verdict::Unhandled,
            Pending::RawAction { event, pass, leader_active } => {
                match reply {
                    HostReply::Ignored => self.raw_passes_after(event, pass, leader_active, now),
                    _ => {
                        self.action_taken(leader_active);
                        Verdict::Handled
                    },
                }
            },
            Pending::KeyAction { event, pane, leader_active } => {
                match reply {
                    HostReply::Ignored => self.key_unbound(event, pane, leader_active, now),
                    _ => {
                        self.action_taken(leader_active);
                        Verdict::Handled
                    },
                }
            },
            Pending::KeyBypass { event, pane, leader_active } => {
                match reply {
                    HostReply::Handled => {
                        if !pane.has_modal {
                            let is_modifier = window_key_is_modifier(&event.key);
                            self.key_taken(event.key_is_down, is_modifier);
                        }
                        Verdict::Handled
                    },
                    _ => self.key_passed_on(event, pane, leader_active, now),
                }
            },
            Pending::KeyDelivery { key_is_down, is_modifier } => {
                match reply {
                    HostReply::Handled => {
                        self.key_taken(key_is_down, is_modifier);
                    },
                    _ => {},
                }
                Verdict::Unhandled
            },
        }
    }

    /// Takes a raw key event at the time that the clock gives.
    pub fn raw_key_event_impl(&mut self, key: RawKeyEvent, pane: PaneInfo) -> (verdict: Verdict)
        requires
            old(self)@.pending is Idle,
        ensures
            final(self).clocks() == old(self).clocks(),
            exists|now: u64| (final(self)@, verdict) == #[trigger] old(self)@.raw_key_event(key, pane, now),
    {
        let now: u64 = self.clock.now();
        self.raw_key_event_at(key, pane, now)
    }

    /// Takes a key event at the time that the clock gives.
    pub fn key_event_impl(&mut self, window_key: KeyEvent, pane: PaneInfo) -> (verdict: Verdict)
        requires
            old(self)@.pending is Idle,
        ensures
            final(self).clocks() == old(self).clocks(),
            exists|now: u64| (final(self)@, verdict) == #[trigger] old(self)@.key_event(window_key, pane, now),
    {
        let now: u64 = self.clock.now();
        self.key_event_at(window_key, pane, now)
    }

    /// Takes the host's reply at the time that the clock gives.
    pub fn resume(&mut self, reply: HostReply) -> (verdict: Verdict)
        ensures
            final(self).clocks() == old(self).clocks(),
            exists|now: u64| (final(self)@, verdict) == #[trigger] old(self)@.resumed(reply, now),
    {
        let now: u64 = self.clock.now();
        self.resume_at(reply, now)
    }

    /// Is the leader active at the time that the clock gives? A leader
    /// whose deadline has come is torn down. Without a leader it is not
    /// active, whatever the time, and nothing changes.
    pub fn leader_is_active(&mut self) -> (active: bool)
        ensures
            final(self).clocks() == old(self).clocks(),
            exists|now: u64|
                active == #[trigger] old(self)@.leader_active(now) && final(self)@ == old(
                    self,
                )@.leader_checked(now),
            old(self)@.leader is None ==> !active && final(self)@ == old(self)@,
    {
        let now: u64 = self.clock.now();
        self.leader_is_active_at(now)
    }

    /// Is the leader active at the time that the clock gives? A leader
    /// whose deadline has come is torn down.
    pub fn leader_is_active_mut(&mut self) -> (active: bool)
        ensures
            final(self).clocks() == old(self).clocks(),
            exists|now: u64|
                active == #[trigger] old(self)@.leader_active(now) && final(self)@ == old(
                    self,
                )@.leader_checked(now),
            old(self)@.leader is None ==> !active && final(self)@ == old(self)@,
    {
        let now: u64 = self.clock.now();
        self.leader_is_active_mut_at(now)
    }

    /// The name of the key table on top at the time that the clock gives.
    pub fn current_key_table_name(&mut self) -> (name: Option<String>)
        ensures
            final(self).clocks() == old(self).clocks(),
            exists|now: u64| final(self)@ == #[trigger] old(self)@.table_named(now),
            match name {
                Some(n) => final(self)@.tables.len() > 0 && n@ == final(self)@.tables.last().name,
                None => final(self)@.tables.len() == 0,
            },
    {
        let now: u64 = self.clock.now();
        self.current_key_table_name_at(now)
    }

    /// What `key` is to the terminal: one of its keys, text, or nothing.
    pub fn win_key_code_to_termwiz_key_code(&self, key: &KeyCode) -> (result: Key)
        ensures
            result == crate::keycode::terminal_key(*key, self@.config.swap_backspace_and_delete),
            crate::keycode::unrepresentable(*key) ==> result is Unrepresentable,
    {
        map_key_code(key, self.config.swap_backspace_and_delete)
    }
}

/// With one of the alt keys held: does the key itself go to the terminal?
fn bypass_compose(config: &KeyConfig, mods: Modifiers) -> (r: bool)
    ensures
        r == bypasses_compose(*config, mods),
{
    (mods.contains(LEFT_ALT) && !config.send_composed_key_when_left_alt_is_pressed) || (mods.contains(
        RIGHT_ALT,
    ) && !config.send_composed_key_when_right_alt_is_pressed) || (!mods.contains(RIGHT_ALT)
        && !mods.contains(LEFT_ALT) && mods.contains(ALT) && !(
    config.send_composed_key_when_left_alt_is_pressed
        || config.send_composed_key_when_right_alt_is_pressed))
}

/// The key under which `pass` resolves a raw key event.
fn key_of_pass(event: &RawKeyEvent, pass: Pass) -> (key: Option<KeyCode>)
    ensures
        key == pass_key(*event, pass),
{
    let by_place = match &event.key {
        KeyCode::Physical(_) => Some(event.key.clone()),
        _ => match event.phys_code {
            Some(phys) => Some(KeyCode::Physical(phys)),
            None => None,
        },
    };
    let by_code = match &event.key {
        KeyCode::RawCode(_) => event.key.clone(),
        _ => KeyCode::RawCode(event.raw_code),
    };
    match pass {
        Pass::Physical => by_place,
        Pass::Raw => Some(by_code),
        Pass::Mapped => {
            let seen = match &by_place {
                Some(phys) => key_codes_equal(phys, &event.key),
                None => false,
            };
            if seen || key_codes_equal(&by_code, &event.key) {
                None
            } else {
                Some(event.key.clone())
            }
        },
    }
}

} // verus!
