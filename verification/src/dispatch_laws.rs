//! What holds of the dispatcher, whatever its state.

use crate::clock::deadline_after;
use crate::event::HostOpView;
use crate::event::HostReply;
use crate::event::KeyEvent;
use crate::event::PaneInfo;
use crate::event::Pass;
use crate::event::PassStart;
use crate::event::Pending;
use crate::event::RawKeyEvent;
use crate::event::Verdict;
use crate::input_map::KeyAssignment;
use crate::key_table::bound_in;
use crate::key_table::top_expired;
use crate::laws::law_prevent_fallback_swallows;
use crate::laws::law_reconcile_keeps_a_live_top;
use crate::model::lookup_mods;
use crate::model::passes_left;
use crate::model::WindowModel;
use crate::modifiers::Modifiers;
use vstd::prelude::*;
use wezterm_input_types::KeyCode;

verus! {

/// Is `op` one that the dispatcher waits for?
pub open spec fn is_awaited(op: HostOpView) -> bool {
    op is Perform || op is ModalKeyDown || op is PaneKeyDown || op is PaneKeyUp || op is PaneWrite
}

/// `after` has the settings and the bindings of `before`, and all that
/// `before` had asked of the host, in the same order, before anything new.
pub open spec fn follows(before: WindowModel, after: WindowModel) -> bool {
    &&& after.config == before.config
    &&& after.input_map == before.input_map
    &&& before.ops.len() <= after.ops.len()
    &&& after.ops.take(before.ops.len() as int) == before.ops
}

/// An outcome is sound where the dispatcher waits exactly when the verdict
/// is `Pending`, and then for the operation it has asked for last.
pub open spec fn sound(before: WindowModel, outcome: (WindowModel, Verdict)) -> bool {
    &&& follows(before, outcome.0)
    &&& (outcome.1 is Pending) == !(outcome.0.pending is Idle)
    &&& outcome.1 is Pending ==> outcome.0.ops.len() > before.ops.len() && is_awaited(
        outcome.0.ops.last(),
    )
}

proof fn lemma_follows_emit(before: WindowModel, mid: WindowModel, op: HostOpView)
    requires
        follows(before, mid),
    ensures
        follows(before, mid.emit(op)),
        follows(before, mid.emit(op).wait_for(mid.pending)),
{
    assert(mid.emit(op).ops.take(before.ops.len() as int) =~= mid.ops.take(before.ops.len() as int));
}

proof fn lemma_follows_self(m: WindowModel)
    ensures
        follows(m, m),
{
    assert(m.ops.take(m.ops.len() as int) =~= m.ops);
}

proof fn lemma_follows_chain(a: WindowModel, b: WindowModel, c: WindowModel)
    requires
        follows(a, b),
        follows(b, c),
    ensures
        follows(a, c),
{
    assert(c.ops.take(a.ops.len() as int) =~= c.ops.take(b.ops.len() as int).take(a.ops.len() as int));
}

proof fn lemma_leader_done(m: WindowModel)
    ensures
        follows(m, m.leader_done()),
        m.leader_done().pending == m.pending,
        m.leader_done().tables == m.tables,
        m.leader_done().overlay == m.overlay,
{
    lemma_follows_self(m);
    let cleared = WindowModel { leader: None, ..m };
    lemma_follows_emit(m, cleared, HostOpView::UpdateTitle);
    lemma_follows_emit(m, cleared.emit(HostOpView::UpdateTitle), HostOpView::Invalidate);
}

proof fn lemma_leader_checked(m: WindowModel, now: u64)
    ensures
        follows(m, m.leader_checked(now)),
        m.leader_checked(now).pending == m.pending,
        m.leader_checked(now).tables == m.tables,
        m.leader_checked(now).overlay == m.overlay,
{
    lemma_follows_self(m);
    lemma_leader_done(m);
}

proof fn lemma_pass_start(
    m: WindowModel,
    key: KeyCode,
    mods: Modifiers,
    leader_active: bool,
    is_down: bool,
    now: u64,
)
    ensures
        follows(m, m.after_pass_start(key, mods, leader_active, is_down, now)),
        m.after_pass_start(key, mods, leader_active, is_down, now).pending == m.pending,
{
    lemma_follows_self(m);
    if is_down && !leader_active && m.input_map.leader_timeout(key, mods) is Some {
        let at = deadline_after(now, m.input_map.leader_timeout(key, mods)->0);
        let armed = WindowModel { leader: Some(at), ..m };
        lemma_follows_emit(m, armed, HostOpView::UpdateTitle);
        lemma_follows_emit(m, armed.emit(HostOpView::UpdateTitle), HostOpView::InvalidateAt(at));
    }
}

proof fn lemma_action_taken(m: WindowModel, leader_active: bool)
    ensures
        follows(m, m.action_taken(leader_active)),
        m.action_taken(leader_active).pending == m.pending,
{
    lemma_follows_self(m);
    lemma_follows_emit(m, m, HostOpView::Invalidate);
    lemma_leader_done(m.emit(HostOpView::Invalidate));
    lemma_follows_chain(m, m.emit(HostOpView::Invalidate), m.emit(HostOpView::Invalidate).leader_done());
}

proof fn lemma_key_taken(m: WindowModel, key_is_down: bool, is_modifier: bool)
    ensures
        follows(m, m.key_taken(key_is_down, is_modifier)),
        m.key_taken(key_is_down, is_modifier).pending == m.pending,
{
    lemma_follows_self(m);
    let scrolled = if key_is_down && !is_modifier && m.overlay is None {
        m.emit(HostOpView::ScrollToBottom)
    } else {
        m
    };
    lemma_follows_emit(m, m, HostOpView::ScrollToBottom);
    lemma_follows_emit(m, scrolled, HostOpView::ClearCursor);
    lemma_follows_emit(m, scrolled.emit(HostOpView::ClearCursor), HostOpView::Invalidate);
}

proof fn lemma_raw_passes(m: WindowModel, event: RawKeyEvent, pass: Pass, leader_active: bool, now: u64)
    requires
        m.pending is Idle,
    ensures
        sound(m, m.raw_passes(event, pass, leader_active, now)),
        sound(m, m.raw_passes_after(event, pass, leader_active, now)),
    decreases passes_left(pass),
{
    lemma_follows_self(m);
    match crate::model::next_pass(pass) {
        Some(next) => {
            lemma_raw_passes(m, event, next, leader_active, now);
        },
        None => {},
    }
    match crate::model::pass_key(event, pass) {
        Some(key) => {
            let after = m.after_pass_start(key, event.modifiers, leader_active, event.key_is_down, now);
            lemma_pass_start(m, key, event.modifiers, leader_active, event.key_is_down, now);
            match m.pass_start(key, event.modifiers, leader_active, event.key_is_down, now) {
                PassStart::LeaderStarted => {},
                PassStart::Perform(action) => {
                    lemma_follows_emit(
                        m,
                        after,
                        HostOpView::Perform(
                            action,
                            m.resolved_table(key, lookup_mods(event.modifiers, leader_active), now),
                        ),
                    );
                },
                PassStart::NoBinding => {
                    match crate::model::next_pass(pass) {
                        Some(next) => {
                            lemma_raw_passes(after, event, next, leader_active, now);
                            lemma_follows_chain(
                                m,
                                after,
                                after.raw_passes(event, next, leader_active, now).0,
                            );
                        },
                        None => {},
                    }
                },
            }
        },
        None => {},
    }
}

proof fn lemma_key_passed_on(m: WindowModel, event: KeyEvent, pane: PaneInfo, leader_active: bool, now: u64)
    requires
        m.pending is Idle,
    ensures
        sound(m, m.key_passed_on(event, pane, leader_active, now)),
{
    lemma_follows_self(m);
    let swept = if event.key_is_down {
        WindowModel { tables: crate::key_table::dismissed(m.tables, now), ..m }
    } else {
        m
    };
    lemma_leader_done(swept);
    let out = m.key_passed_on(event, pane, leader_active, now).0;
    assert(out.ops.take(m.ops.len() as int) =~= m.ops);
}

proof fn lemma_key_unbound(m: WindowModel, event: KeyEvent, pane: PaneInfo, leader_active: bool, now: u64)
    requires
        m.pending is Idle,
    ensures
        sound(m, m.key_unbound(event, pane, leader_active, now)),
{
    lemma_key_passed_on(m, event, pane, leader_active, now);
    let out = m.key_unbound(event, pane, leader_active, now).0;
    assert(out.ops.take(m.ops.len() as int) =~= m.ops);
}

/// A raw key event leaves the dispatcher waiting exactly when the verdict is
/// `Pending`, and then for the operation it asked for last. It changes no
/// setting and no binding, and takes back nothing that it had asked of the
/// host.
pub proof fn law_raw_key_event_is_sound(m: WindowModel, event: RawKeyEvent, pane: PaneInfo, now: u64)
    requires
        m.pending is Idle,
    ensures
        sound(m, m.raw_key_event(event, pane, now)),
{
    lemma_leader_checked(m, now);
    let checked = m.leader_checked(now);
    lemma_follows_self(checked);
    lemma_raw_passes(checked, event, Pass::Physical, m.leader_active(now), now);
    lemma_follows_chain(m, checked, m.raw_key_event(event, pane, now).0);
}

/// A key event leaves the dispatcher waiting exactly when the verdict is
/// `Pending`, and then for the operation it asked for last. It changes no
/// setting and no binding, and takes back nothing that it had asked of the
/// host.
pub proof fn law_key_event_is_sound(m: WindowModel, event: KeyEvent, pane: PaneInfo, now: u64)
    requires
        m.pending is Idle,
    ensures
        sound(m, m.key_event(event, pane, now)),
{
    lemma_follows_self(m);
    if pane.active {
        let leader_active = m.leader_active(now);
        lemma_leader_checked(m, now);
        let checked = m.leader_checked(now);
        lemma_pass_start(checked, event.key, event.modifiers, leader_active, event.key_is_down, now);
        let after = checked.after_pass_start(
            event.key,
            event.modifiers,
            leader_active,
            event.key_is_down,
            now,
        );
        lemma_follows_chain(m, checked, after);
        match checked.pass_start(event.key, event.modifiers, leader_active, event.key_is_down, now) {
            PassStart::LeaderStarted => {},
            PassStart::Perform(action) => {
                lemma_follows_emit(
                    m,
                    after,
                    HostOpView::Perform(
                        action,
                        checked.resolved_table(
                            event.key,
                            lookup_mods(event.modifiers, leader_active),
                            now,
                        ),
                    ),
                );
            },
            PassStart::NoBinding => {
                lemma_key_unbound(after, event, pane, leader_active, now);
                lemma_follows_chain(m, after, after.key_unbound(event, pane, leader_active, now).0);
            },
        }
    }
}

/// A reply of the host leaves the dispatcher waiting exactly when the
/// verdict is `Pending`. It changes no setting and no binding, and takes
/// back nothing that had been asked of the host.
pub proof fn law_resume_is_sound(m: WindowModel, reply: HostReply, now: u64)
    ensures
        follows(m, m.resumed(reply, now).0),
        (m.resumed(reply, now).1 is Pending) == !(m.resumed(reply, now).0.pending is Idle),
        m.resumed(reply, now).1 is Pending ==> is_awaited(m.resumed(reply, now).0.ops.last()),
{
    lemma_follows_self(m);
    let idle = m.wait_for(Pending::Idle);
    lemma_follows_self(idle);
    match m.pending {
        Pending::Idle => {},
        Pending::RawAction { event, pass, leader_active } => {
            lemma_action_taken(idle, leader_active);
            lemma_raw_passes(idle, event, pass, leader_active, now);
        },
        Pending::KeyAction { event, pane, leader_active } => {
            lemma_action_taken(idle, leader_active);
            lemma_key_unbound(idle, event, pane, leader_active, now);
        },
        Pending::KeyBypass { event, pane, leader_active } => {
            lemma_key_taken(idle, event.key_is_down, crate::keycode::is_window_modifier(event.key));
            lemma_key_passed_on(idle, event, pane, leader_active, now);
        },
        Pending::KeyDelivery { key_is_down, is_modifier } => {
            lemma_key_taken(idle, key_is_down, is_modifier);
        },
    }
}

/// Is `op` one that resolving a binding can ask for? Nothing among these
/// reaches the pane or a modal.
pub open spec fn is_binding_op(op: HostOpView) -> bool {
    op is Invalidate || op is InvalidateAt || op is UpdateTitle || op is Perform
}

/// From place `from` on, `ops` holds nothing that reaches the pane or a
/// modal.
pub open spec fn binding_only(ops: Seq<HostOpView>, from: int) -> bool {
    forall|i: int| 0 <= i && from <= i < ops.len() ==> is_binding_op(#[trigger] ops[i])
}

proof fn lemma_binding_only_pass(
    m: WindowModel,
    from: int,
    key: KeyCode,
    mods: Modifiers,
    leader_active: bool,
    is_down: bool,
    now: u64,
)
    requires
        binding_only(m.ops, from),
    ensures
        binding_only(m.after_pass_start(key, mods, leader_active, is_down, now).ops, from),
{
    if is_down && !leader_active && m.input_map.leader_timeout(key, mods) is Some {
        let at = deadline_after(now, m.input_map.leader_timeout(key, mods)->0);
        lemma_binding_only_emit(m.ops, from, HostOpView::UpdateTitle);
        lemma_binding_only_emit(m.ops.push(HostOpView::UpdateTitle), from, HostOpView::InvalidateAt(at));
    }
}

proof fn lemma_binding_only_emit(ops: Seq<HostOpView>, from: int, op: HostOpView)
    requires
        binding_only(ops, from),
        is_binding_op(op),
    ensures
        binding_only(ops.push(op), from),
{
    assert forall|i: int| 0 <= i && from <= i < ops.push(op).len() implies is_binding_op(
        #[trigger] ops.push(op)[i],
    ) by {
        if i < ops.len() {
            assert(is_binding_op(ops[i]));
        }
    }
}

proof fn lemma_binding_only_passes(
    m: WindowModel,
    from: int,
    event: RawKeyEvent,
    pass: Pass,
    leader_active: bool,
    now: u64,
)
    requires
        binding_only(m.ops, from),
    ensures
        binding_only(m.raw_passes(event, pass, leader_active, now).0.ops, from),
        binding_only(m.raw_passes_after(event, pass, leader_active, now).0.ops, from),
    decreases passes_left(pass),
{
    match crate::model::next_pass(pass) {
        Some(next) => {
            lemma_binding_only_passes(m, from, event, next, leader_active, now);
        },
        None => {},
    }
    match crate::model::pass_key(event, pass) {
        Some(key) => {
            let after = m.after_pass_start(key, event.modifiers, leader_active, event.key_is_down, now);
            lemma_binding_only_pass(m, from, key, event.modifiers, leader_active, event.key_is_down, now);
            match m.pass_start(key, event.modifiers, leader_active, event.key_is_down, now) {
                PassStart::Perform(action) => {
                    lemma_binding_only_emit(
                        after.ops,
                        from,
                        HostOpView::Perform(
                            action,
                            m.resolved_table(key, lookup_mods(event.modifiers, leader_active), now),
                        ),
                    );
                },
                _ => {},
            }
            match crate::model::next_pass(pass) {
                Some(next) => {
                    lemma_binding_only_passes(after, from, event, next, leader_active, now);
                },
                None => {},
            }
        },
        None => {},
    }
}

/// The name of the table in an answer of a stack of key tables.
pub open spec fn answering_table(answer: Option<(crate::input_map::KeyTableEntry, Seq<char>)>) -> Seq<
    char,
>
    recommends
        answer is Some,
{
    match answer {
        Some((_, name)) => name,
        None => Seq::empty(),
    }
}

/// What a lookup answers, and under which name. Nothing is answered exactly
/// where the overlay, the window and the default table all have no answer.
/// An answer has no table name exactly where it is the default table's:
/// where neither the overlay nor the window answers. Where the overlay
/// answers, its answer and its table's name are given, and the window's key
/// tables are not asked: they stay as they are.
pub proof fn law_lookup_names_the_table_that_answers(
    m: WindowModel,
    key: KeyCode,
    mods: Modifiers,
    now: u64,
)
    ensures
        m.resolved(key, mods, now) is None <==> m.overlay_answer(key, mods, now) is None
            && m.window_answer(key, mods, now) is None && m.default_answer(key, mods) is None,
        m.resolved_table(key, mods, now) is None <==> m.overlay_answer(key, mods, now) is None
            && m.window_answer(key, mods, now) is None,
        m.resolved(key, mods, now) is None ==> m.resolved_table(key, mods, now) is None,
        m.overlay_answer(key, mods, now) is Some ==> {
            &&& m.resolved(key, mods, now) == m.overlay_answer(key, mods, now)
            &&& m.overlay is Some
            &&& m.resolved_table(key, mods, now) == Some(
                answering_table(
                    crate::key_table::looked_up(
                        &m.input_map,
                        crate::key_table::reconciled(m.overlay->0, now),
                        key,
                        mods,
                    ),
                ),
            )
            &&& m.after_resolve(key, mods, now).tables == m.tables
        },
        m.overlay_answer(key, mods, now) is None && m.window_answer(key, mods, now) is Some ==> {
            &&& m.resolved(key, mods, now) == m.window_answer(key, mods, now)
            &&& m.resolved_table(key, mods, now) == Some(
                answering_table(
                    crate::key_table::looked_up(
                        &m.input_map,
                        crate::key_table::reconciled(m.tables, now),
                        key,
                        mods,
                    ),
                ),
            )
        },
        m.overlay_answer(key, mods, now) is None && m.window_answer(key, mods, now) is None ==> m.resolved(
            key,
            mods,
            now,
        ) == m.default_answer(key, mods),
{
}

proof fn lemma_raw_miss(m: WindowModel, event: RawKeyEvent, pass: Pass, leader_active: bool, now: u64)
    requires
        m.pending is Idle,
    ensures
        m.raw_passes(event, pass, leader_active, now).1 is Unhandled ==> {
            let after = m.raw_passes(event, pass, leader_active, now).0;
            &&& after.tables == m.tables || after.tables == crate::key_table::reconciled(m.tables, now)
            &&& event.key_is_down && !(pass is Mapped) ==> after.tables == crate::key_table::reconciled(
                m.tables,
                now,
            )
            &&& !event.key_is_down ==> after.tables == m.tables
        },
        m.raw_passes_after(event, pass, leader_active, now).1 is Unhandled ==> {
            let after = m.raw_passes_after(event, pass, leader_active, now).0;
            &&& after.tables == m.tables || after.tables == crate::key_table::reconciled(m.tables, now)
            &&& event.key_is_down && pass is Physical ==> after.tables == crate::key_table::reconciled(
                m.tables,
                now,
            )
            &&& !event.key_is_down ==> after.tables == m.tables
        },
    decreases passes_left(pass),
{
    crate::key_table::lemma_reconciled_is_live(m.tables, now);
    match crate::model::next_pass(pass) {
        Some(next) => {
            lemma_raw_miss(m, event, next, leader_active, now);
        },
        None => {},
    }
    match crate::model::pass_key(event, pass) {
        Some(key) => {
            let after = m.after_pass_start(key, event.modifiers, leader_active, event.key_is_down, now);
            match crate::model::next_pass(pass) {
                Some(next) => {
                    lemma_raw_miss(after, event, next, leader_active, now);
                },
                None => {},
            }
        },
        None => {},
    }
}

/// A raw key event that finds no binding dismisses nothing: after a key
/// press the window's key tables are what reconciling at the time of the
/// event leaves of them, until-unknown frames among them, and after a key
/// release, or with no pane, they are as they were. The until-unknown frames
/// leave only once the key event that follows has found no binding either.
pub proof fn law_raw_key_event_without_binding_only_reconciles(
    m: WindowModel,
    event: RawKeyEvent,
    pane: PaneInfo,
    now: u64,
)
    requires
        m.pending is Idle,
        m.raw_key_event(event, pane, now).1 is Unhandled,
    ensures
        m.raw_key_event(event, pane, now).0.tables == (if pane.active && event.key_is_down {
            crate::key_table::reconciled(m.tables, now)
        } else {
            m.tables
        }),
        m.raw_key_event(event, pane, now).0.pending is Idle,
{
    lemma_leader_checked(m, now);
    let checked = m.leader_checked(now);
    lemma_raw_miss(checked, event, Pass::Physical, m.leader_active(now), now);
    lemma_raw_passes(checked, event, Pass::Physical, m.leader_active(now), now);
}

/// A raw key event is resolved against bindings only: whatever it asks of
/// the host, before and after the host's replies, nothing of it reaches the
/// pane or a modal.
pub proof fn law_raw_key_event_is_binding_only(
    m: WindowModel,
    event: RawKeyEvent,
    pane: PaneInfo,
    reply: HostReply,
    now: u64,
    later: u64,
)
    requires
        m.pending is Idle,
    ensures
        binding_only(m.raw_key_event(event, pane, now).0.ops, m.ops.len() as int),
        m.raw_key_event(event, pane, now).0.pending is Idle || m.raw_key_event(
            event,
            pane,
            now,
        ).0.pending is RawAction,
        binding_only(
            m.raw_key_event(event, pane, now).0.resumed(reply, later).0.ops,
            m.ops.len() as int,
        ),
        m.raw_key_event(event, pane, now).0.resumed(reply, later).0.pending is Idle
            || m.raw_key_event(event, pane, now).0.resumed(reply, later).0.pending is RawAction,
{
    let from = m.ops.len() as int;
    let checked = m.leader_checked(now);
    lemma_binding_only_emit(m.ops, from, HostOpView::UpdateTitle);
    lemma_binding_only_emit(m.ops.push(HostOpView::UpdateTitle), from, HostOpView::Invalidate);
    assert(binding_only(checked.ops, from));
    lemma_binding_only_passes(checked, from, event, Pass::Physical, m.leader_active(now), now);
    lemma_raw_pending(checked, event, Pass::Physical, m.leader_active(now), now);
    let waiting = m.raw_key_event(event, pane, now).0;
    match waiting.pending {
        Pending::RawAction { event: e, pass, leader_active } => {
            let idle = waiting.wait_for(Pending::Idle);
            assert(binding_only(idle.ops, from));
            lemma_binding_only_passes(idle, from, e, pass, leader_active, later);
            lemma_binding_only_emit(idle.ops, from, HostOpView::Invalidate);
            lemma_binding_only_emit(idle.ops.push(HostOpView::Invalidate), from, HostOpView::UpdateTitle);
            lemma_binding_only_emit(
                idle.ops.push(HostOpView::Invalidate).push(HostOpView::UpdateTitle),
                from,
                HostOpView::Invalidate,
            );
            lemma_raw_pending(idle, e, pass, leader_active, later);
        },
        _ => {},
    }
}

proof fn lemma_raw_pending(m: WindowModel, event: RawKeyEvent, pass: Pass, leader_active: bool, now: u64)
    requires
        m.pending is Idle,
    ensures
        m.raw_passes(event, pass, leader_active, now).0.pending is Idle || m.raw_passes(
            event,
            pass,
            leader_active,
            now,
        ).0.pending is RawAction,
        m.raw_passes_after(event, pass, leader_active, now).0.pending is Idle || m.raw_passes_after(
            event,
            pass,
            leader_active,
            now,
        ).0.pending is RawAction,
    decreases passes_left(pass),
{
    match crate::model::next_pass(pass) {
        Some(next) => {
            lemma_raw_pending(m, event, next, leader_active, now);
        },
        None => {},
    }
    match crate::model::pass_key(event, pass) {
        Some(key) => {
            let after = m.after_pass_start(key, event.modifiers, leader_active, event.key_is_down, now);
            match crate::model::next_pass(pass) {
                Some(next) => {
                    lemma_raw_pending(after, event, next, leader_active, now);
                },
                None => {},
            }
        },
        None => {},
    }
}

/// While the leader is active, a key press that finds no binding and is no
/// modifier is swallowed: the leader is torn down, nothing reaches the pane
/// or a modal, and the dispatcher waits for nothing.
pub proof fn law_leader_swallows_an_unbound_key(
    m: WindowModel,
    event: KeyEvent,
    pane: PaneInfo,
    now: u64,
)
    requires
        pane.active,
        event.key_is_down,
        m.pending is Idle,
        m.leader_active(now),
        m.leader_checked(now).pass_start(event.key, event.modifiers, true, true, now) is NoBinding,
        match crate::keycode::terminal_key(event.key, m.config.swap_backspace_and_delete) {
            crate::keycode::Key::Code(code) => !crate::keycode::is_terminal_modifier(code),
            crate::keycode::Key::Composed(_) => true,
            crate::keycode::Key::Unrepresentable => false,
        },
    ensures
        ({
            let (after, verdict) = m.key_event(event, pane, now);
            &&& verdict is Unhandled
            &&& after.leader is None
            &&& after.pending is Idle
            &&& after.ops == m.ops.push(HostOpView::UpdateTitle).push(HostOpView::Invalidate)
        }),
{
}

/// The key press that starts the leader is taken by it, and by nothing
/// else: no key table is asked, so none changes. The leader lasts its
/// timeout from the time of the press, and the window is drawn again when
/// it ends.
pub proof fn law_leader_starts(m: WindowModel, event: KeyEvent, pane: PaneInfo, now: u64)
    requires
        pane.active,
        event.key_is_down,
        !m.leader_active(now),
        m.input_map.leader_timeout(event.key, event.modifiers) is Some,
    ensures
        ({
            let at = deadline_after(now, m.input_map.leader_timeout(event.key, event.modifiers)->0);
            let (after, verdict) = m.key_event(event, pane, now);
            &&& verdict is Handled
            &&& after.leader == Some(at)
            &&& after.leader_active(now) || m.input_map.leader_timeout(event.key, event.modifiers)->0 == 0
            &&& after.tables == m.tables
            &&& after.overlay == m.overlay
            &&& after.pending == m.pending
            &&& after.ops == m.leader_checked(now).ops.push(HostOpView::UpdateTitle).push(
                HostOpView::InvalidateAt(at),
            )
        }),
{
    lemma_leader_checked(m, now);
}

/// A leader whose deadline has come is torn down by the first look at it,
/// and only by that one: the title and the window are drawn again once, and
/// any later look finds no leader and does nothing.
pub proof fn law_leader_expires_once(m: WindowModel, now: u64, later: u64)
    requires
        m.leader is Some,
        now >= m.leader->0,
    ensures
        !m.leader_active(now),
        m.leader_checked(now).leader is None,
        m.leader_checked(now).ops == m.ops.push(HostOpView::UpdateTitle).push(HostOpView::Invalidate),
        m.leader_checked(now).next_frame == m.next_frame,
        !m.leader_checked(now).leader_active(later),
        m.leader_checked(now).leader_checked(later) == m.leader_checked(now),
{
}

/// While the leader is active, looking at it tears nothing down and asks
/// nothing of the host.
pub proof fn law_active_leader_stays(m: WindowModel, now: u64)
    requires
        m.leader_active(now),
    ensures
        m.leader_checked(now).leader == m.leader,
        m.leader_checked(now).ops == m.ops,
        m.leader_checked(now).next_frame is Some,
        m.leader_checked(now).next_frame->0 <= m.leader->0,
{
}

/// A key press that meets a table that prevents fallback, on top of the
/// window's stack and without a binding for the key, is swallowed: the
/// action asked of the host is `Nop` under the name of that table, and once
/// the host reports it handled
/// the event is handled, with the window drawn again and nothing sent to
/// the pane or to a modal. The stack stays as it is.
pub proof fn law_prevent_fallback_handles_the_event(
    m: WindowModel,
    event: KeyEvent,
    pane: PaneInfo,
    now: u64,
)
    requires
        pane.active,
        event.key_is_down,
        m.pending is Idle,
        m.leader is None,
        m.overlay is None,
        m.input_map.leader_timeout(event.key, event.modifiers) is None,
        m.tables.len() > 0,
        !top_expired(m.tables, now),
        m.tables.last().prevent_fallback,
        !m.tables.last().until_unknown,
        !m.tables.last().one_shot,
        bound_in(&m.input_map, m.tables.last(), event.key, lookup_mods(event.modifiers, false)) is None,
    ensures
        ({
            let (waiting, first) = m.key_event(event, pane, now);
            let (after, verdict) = waiting.resumed(HostReply::Handled, now);
            &&& first is Pending
            &&& waiting.ops == m.ops.push(
                HostOpView::Perform(KeyAssignment::Nop, Some(m.tables.last().name)),
            )
            &&& waiting.tables == m.tables
            &&& verdict is Handled
            &&& after.ops == m.ops.push(
                HostOpView::Perform(KeyAssignment::Nop, Some(m.tables.last().name)),
            ).push(HostOpView::Invalidate)
            &&& after.tables == m.tables
            &&& after.pending is Idle
        }),
{
    let mods = lookup_mods(event.modifiers, false);
    law_reconcile_keeps_a_live_top(m.tables, now);
    law_prevent_fallback_swallows(&m.input_map, m.tables, event.key, mods, now);
}

} // verus!
