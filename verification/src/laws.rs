//! What holds of the stack of key tables, whatever its frames.

use crate::clock::deadline_after;
use crate::input_map::InputMap;
use crate::input_map::KeyAssignment;
use crate::input_map::KeyTableEntry;
use crate::key_table::activated;
use crate::key_table::after_lookup;
use crate::key_table::answering;
use crate::key_table::answering_below;
use crate::key_table::answers;
use crate::key_table::bound_in;
use crate::key_table::dismissed;
use crate::key_table::frame_for;
use crate::key_table::lemma_reconciled_is_live;
use crate::key_table::lemma_unknown_from_bound;
use crate::key_table::looked_up;
use crate::key_table::popped;
use crate::key_table::rearmed;
use crate::key_table::reconciled;
use crate::key_table::served;
use crate::key_table::top_expired;
use crate::key_table::unknown_from;
use crate::key_table::Activation;
use crate::key_table::KeyTableArgs;
use crate::keycode::is_terminal_modifier;
use crate::keycode::is_window_modifier;
use crate::keycode::settled_key;
use crate::keycode::terminal_key;
use crate::keycode::unrepresentable;
use crate::keycode::Key;
use crate::modifiers::Modifiers;
use vstd::prelude::*;
use wezterm_input_types::KeyCode;

verus! {

/// Reconciling keeps the lower part of the stack as it was: the frames that
/// leave are on top, the deadline of each of them has come, and the deadline
/// of the frame that is then on top has not.
pub proof fn law_reconciled_is_the_live_part(s: Seq<Activation>, now: u64)
    ensures
        reconciled(s, now).len() <= s.len(),
        reconciled(s, now) == s.take(reconciled(s, now).len() as int),
        forall|i: int| reconciled(s, now).len() <= i < s.len() ==> (#[trigger] s[i]).expired(now),
        !top_expired(reconciled(s, now), now),
    decreases s.len(),
{
    if top_expired(s, now) {
        let below = s.drop_last();
        law_reconciled_is_the_live_part(below, now);
        let kept = reconciled(s, now).len() as int;
        assert(below.take(kept) =~= s.take(kept));
        assert forall|i: int| kept <= i < s.len() implies (#[trigger] s[i]).expired(now) by {
            if i < below.len() {
                assert(below[i].expired(now));
            }
        }
    } else {
        assert(s.take(s.len() as int) =~= s);
    }
}

/// Reconciling a reconciled stack at the same time changes nothing, and the
/// step that pops one expired frame finds none to pop.
pub proof fn law_reconcile_is_idempotent(s: Seq<Activation>, now: u64)
    ensures
        !top_expired(reconciled(s, now), now),
        reconciled(reconciled(s, now), now) == reconciled(s, now),
{
    lemma_reconciled_is_live(s, now);
}

/// A stack on which no deadline has come is left as it is.
pub proof fn law_reconcile_keeps_a_live_top(s: Seq<Activation>, now: u64)
    requires
        !top_expired(s, now),
    ensures
        reconciled(s, now) == s,
{
}

/// A table activated at `since` with a timeout is gone once the timeout has
/// passed: from then on the stack reconciles to what the frames below it
/// reconcile to, so the table on top is the next lower one that is still
/// live, and the expired frame is in the stack no more.
pub proof fn law_timed_out_table_leaves(s: Seq<Activation>, args: KeyTableArgs, since: u64, now: u64)
    requires
        args.timeout_milliseconds is Some,
        now >= since + args.timeout_milliseconds->0,
    ensures
        reconciled(activated(s, args, since), now) == reconciled(
            if args.replace_current {
                popped(s)
            } else {
                s
            },
            now,
        ),
        reconciled(activated(s, args, since), now).len() < activated(s, args, since).len(),
{
    let base = if args.replace_current {
        popped(s)
    } else {
        s
    };
    let full = activated(s, args, since);
    assert(full == base.push(frame_for(args, since)));
    assert(full.last() == frame_for(args, since));
    assert(full.last().expiration == Some(deadline_after(since, args.timeout_milliseconds->0)));
    assert(top_expired(full, now));
    assert(full.drop_last() =~= base);
    law_reconciled_is_the_live_part(base, now);
}

/// Before its timeout has passed, a table activated on a stack stays on top.
pub proof fn law_live_table_stays(s: Seq<Activation>, args: KeyTableArgs, since: u64, now: u64)
    requires
        args.timeout_milliseconds is Some ==> now < since + args.timeout_milliseconds->0,
    ensures
        reconciled(activated(s, args, since), now) == activated(s, args, since),
        reconciled(activated(s, args, since), now).last().name == args.name@,
{
}

/// Dismissing keeps the lower part of the stack as it was: the frames that
/// leave are on top, each of them an until-unknown frame or one whose
/// deadline has come, and the frame that is then on top is neither.
pub proof fn law_dismissed_is_the_known_part(s: Seq<Activation>, now: u64)
    ensures
        dismissed(s, now).len() <= s.len(),
        dismissed(s, now) == s.take(dismissed(s, now).len() as int),
        forall|i: int|
            dismissed(s, now).len() <= i < s.len() ==> (#[trigger] s[i]).until_unknown || s[i].expired(
                now,
            ),
        dismissed(s, now).len() > 0 ==> !dismissed(s, now).last().until_unknown,
        !top_expired(dismissed(s, now), now),
    decreases s.len(),
{
    if s.len() > 0 && (s.last().expired(now) || s.last().until_unknown) {
        let below = s.drop_last();
        law_dismissed_is_the_known_part(below, now);
        let kept = dismissed(s, now).len() as int;
        assert(below.take(kept) =~= s.take(kept));
        assert forall|i: int| kept <= i < s.len() implies (#[trigger] s[i]).until_unknown || s[i].expired(
            now,
        ) by {
            if i < below.len() {
                assert(below[i].until_unknown || below[i].expired(now));
            }
        }
    } else {
        assert(s.take(s.len() as int) =~= s);
    }
}

/// Dismissing looks at no frame whose deadline has come: it reconciles the
/// stack first, and again after each until-unknown frame that it pops.
pub proof fn law_dismissing_reconciles_before_each_look(s: Seq<Activation>, now: u64)
    ensures
        dismissed(s, now) == dismissed(reconciled(s, now), now),
        dismissed(s, now) == (if reconciled(s, now).len() > 0 && reconciled(s, now).last().until_unknown {
            dismissed(reconciled(s, now).drop_last(), now)
        } else {
            reconciled(s, now)
        }),
        reconciled(dismissed(s, now), now) == dismissed(s, now),
    decreases s.len(),
{
    law_reconcile_is_idempotent(s, now);
    law_dismissed_is_the_known_part(s, now);
    if top_expired(s, now) {
        law_dismissing_reconciles_before_each_look(s.drop_last(), now);
    }
}

/// An until-unknown frame under a frame whose deadline has come leaves with
/// it: the expired frame is popped before the top is read.
pub proof fn law_dismissing_sees_through_expired_frames(
    s: Seq<Activation>,
    chooser: Activation,
    stale: Activation,
    now: u64,
)
    requires
        chooser.until_unknown,
        stale.expired(now),
    ensures
        dismissed(s.push(chooser).push(stale), now) == dismissed(s, now),
{
    let two = s.push(chooser).push(stale);
    assert(two.drop_last() =~= s.push(chooser));
    assert(s.push(chooser).drop_last() =~= s);
    assert(dismissed(two, now) == dismissed(s.push(chooser), now));
    assert(dismissed(s.push(chooser), now) == dismissed(s, now));
}

/// A one-shot table is gone as soon as it has served one key, before its
/// timeout has passed: the stack is again what it was before the table was
/// activated on it.
pub proof fn law_one_shot_serves_once(s: Seq<Activation>, args: KeyTableArgs, since: u64, now: u64)
    requires
        args.one_shot,
        !args.replace_current,
        args.timeout_milliseconds is Some ==> now < since + args.timeout_milliseconds->0,
    ensures
        served(reconciled(activated(s, args, since), now)) == s,
{
    assert(activated(s, args, since).drop_last() =~= s);
}

/// A key that is served at `now` pops no frame that is not on top at `now`:
/// a frame whose deadline has come leaves first, and the one-shot frame
/// under it, now on top, is the one that goes.
pub proof fn law_serving_sees_through_expired_frames(
    s: Seq<Activation>,
    once: Activation,
    stale: Activation,
    now: u64,
)
    requires
        once.one_shot,
        !once.expired(now),
        stale.expired(now),
    ensures
        served(reconciled(s.push(once).push(stale), now)) == s,
{
    let two = s.push(once).push(stale);
    assert(two.drop_last() =~= s.push(once));
    assert(s.push(once).drop_last() =~= s);
    assert(reconciled(two, now) == reconciled(s.push(once), now));
}

/// The frame that answers is the highest frame that answers: no frame above
/// it binds the key or prevents fallback.
pub proof fn law_answering_is_highest(
    map: &InputMap,
    s: Seq<Activation>,
    key: KeyCode,
    mods: Modifiers,
)
    ensures
        match answering(map, s, key, mods) {
            Some(at) => {
                &&& 0 <= at < s.len()
                &&& answers(map, s[at], key, mods)
                &&& forall|j: int| at < j < s.len() ==> !answers(map, #[trigger] s[j], key, mods)
            },
            None => forall|j: int| 0 <= j < s.len() ==> !answers(map, #[trigger] s[j], key, mods),
        },
{
    lemma_answering_below(map, s, key, mods, s.len() as int);
}

proof fn lemma_answering_below(map: &InputMap, s: Seq<Activation>, key: KeyCode, mods: Modifiers, n: int)
    requires
        0 <= n <= s.len(),
    ensures
        match answering_below(map, s, key, mods, n) {
            Some(at) => {
                &&& 0 <= at < n
                &&& answers(map, s[at], key, mods)
                &&& forall|j: int| at < j < n ==> !answers(map, #[trigger] s[j], key, mods)
            },
            None => forall|j: int| 0 <= j < n ==> !answers(map, #[trigger] s[j], key, mods),
        },
    decreases n,
{
    if n > 0 && !answers(map, s[n - 1], key, mods) {
        lemma_answering_below(map, s, key, mods, n - 1);
    }
}

/// Where no frame answers the key, asking changes nothing: the until-unknown
/// frames stay, whatever form of the key was asked for.
pub proof fn law_unanswered_lookup_keeps_the_stack(
    map: &InputMap,
    s: Seq<Activation>,
    key: KeyCode,
    mods: Modifiers,
    now: u64,
)
    requires
        looked_up(map, s, key, mods) is None,
    ensures
        after_lookup(map, s, key, mods, now) == s,
{
}

/// A table that binds the key stays on the stack when it serves it, with the
/// frames below it untouched, and its deadline starts anew: its timeout
/// after the time of the key.
pub proof fn law_serving_table_stays_and_is_rearmed(
    map: &InputMap,
    s: Seq<Activation>,
    key: KeyCode,
    mods: Modifiers,
    now: u64,
)
    requires
        answering(map, s, key, mods) is Some,
        bound_in(map, s[answering(map, s, key, mods)->0], key, mods) is Some,
    ensures
        ({
            let at = answering(map, s, key, mods)->0;
            let after = after_lookup(map, s, key, mods, now);
            &&& 0 <= at < after.len() <= s.len()
            &&& after[at] == rearmed(s[at], now)
            &&& after.take(at) == s.take(at)
            &&& s[at].timeout_milliseconds is Some ==> after[at].expiration == Some(
                deadline_after(now, s[at].timeout_milliseconds->0),
            )
            &&& looked_up(map, s, key, mods) == Some(
                (bound_in(map, s[at], key, mods)->0, s[at].name),
            )
        }),
{
    law_answering_is_highest(map, s, key, mods);
    let at = answering(map, s, key, mods)->0;
    lemma_unknown_from_bound(s, at + 1);
    let after = after_lookup(map, s, key, mods, now);
    assert(after.take(at) =~= s.take(at));
}

/// Until-unknown frames above the table that serves the key leave together:
/// where every frame above it is one, the serving table is on top afterwards.
pub proof fn law_choosers_above_a_serving_table_leave(
    map: &InputMap,
    s: Seq<Activation>,
    key: KeyCode,
    mods: Modifiers,
    now: u64,
)
    requires
        answering(map, s, key, mods) is Some,
        bound_in(map, s[answering(map, s, key, mods)->0], key, mods) is Some,
        forall|j: int| answering(map, s, key, mods)->0 < j < s.len() ==> (#[trigger] s[j]).until_unknown,
    ensures
        after_lookup(map, s, key, mods, now).len() == answering(map, s, key, mods)->0 + 1,
{
    law_answering_is_highest(map, s, key, mods);
    let at = answering(map, s, key, mods)->0;
    lemma_unknown_from_all(s, at + 1);
}

proof fn lemma_unknown_from_all(s: Seq<Activation>, from: int)
    requires
        0 <= from <= s.len(),
        forall|j: int| from <= j < s.len() ==> (#[trigger] s[j]).until_unknown,
    ensures
        unknown_from(s, from) == s.len() - from,
    decreases s.len() - from,
{
    if from < s.len() {
        lemma_unknown_from_all(s, from + 1);
    }
}

/// A table on top that prevents fallback and does not bind the key swallows
/// it: the answer is `Nop` under the table's name, so no lower table and no
/// default binding is asked. Unless the table is itself an until-unknown
/// frame, the stack stays as it is.
pub proof fn law_prevent_fallback_swallows(
    map: &InputMap,
    s: Seq<Activation>,
    key: KeyCode,
    mods: Modifiers,
    now: u64,
)
    requires
        s.len() > 0,
        s.last().prevent_fallback,
        bound_in(map, s.last(), key, mods) is None,
    ensures
        looked_up(map, s, key, mods) == Some(
            (KeyTableEntry { action: KeyAssignment::Nop }, s.last().name),
        ),
        !s.last().until_unknown ==> after_lookup(map, s, key, mods, now) == s,
        s.last().until_unknown ==> after_lookup(map, s, key, mods, now) == s.drop_last(),
{
    let top = s.len() - 1;
    assert(answering(map, s, key, mods) == Some(top));
    assert(unknown_from(s, top + 1) == 0);
    assert(s.take(s.len() as int) =~= s);
    assert(s.take(s.len() - 1) =~= s.drop_last());
}

/// Every frame of the stack has a deadline exactly where it has a timeout.
pub open spec fn well_timed(s: Seq<Activation>) -> bool {
    forall|i: int|
        0 <= i < s.len() ==> ((#[trigger] s[i]).expiration is Some) == (s[i].timeout_milliseconds is Some)
}

/// A stack that starts out empty has a deadline on exactly the frames that
/// have a timeout, whatever is done to it: every operation keeps a stack so.
pub proof fn law_deadlines_go_with_timeouts(
    map: &InputMap,
    s: Seq<Activation>,
    args: KeyTableArgs,
    key: KeyCode,
    mods: Modifiers,
    now: u64,
)
    requires
        well_timed(s),
    ensures
        well_timed(Seq::<Activation>::empty()),
        well_timed(activated(s, args, now)),
        well_timed(popped(s)),
        well_timed(served(s)),
        well_timed(reconciled(s, now)),
        well_timed(dismissed(s, now)),
        well_timed(after_lookup(map, s, key, mods, now)),
{
    law_reconciled_is_the_live_part(s, now);
    law_dismissed_is_the_known_part(s, now);
    law_answering_is_highest(map, s, key, mods);
    let base = if args.replace_current {
        popped(s)
    } else {
        s
    };
    assert forall|i: int| 0 <= i < activated(s, args, now).len() implies ((
    #[trigger] activated(s, args, now)[i]).expiration is Some) == (activated(
        s,
        args,
        now,
    )[i].timeout_milliseconds is Some) by {
        if i < base.len() {
            assert(activated(s, args, now)[i] == s[i]);
        }
    }
    let live = reconciled(s, now);
    assert forall|i: int| 0 <= i < live.len() implies ((#[trigger] live[i]).expiration is Some) == (
    live[i].timeout_milliseconds is Some) by {
        assert(live[i] == s[i]);
    }
    let known = dismissed(s, now);
    assert forall|i: int| 0 <= i < known.len() implies ((#[trigger] known[i]).expiration is Some) == (
    known[i].timeout_milliseconds is Some) by {
        assert(known[i] == s[i]);
    }
    let after = after_lookup(map, s, key, mods, now);
    if answering(map, s, key, mods) is Some {
        lemma_unknown_from_bound(s, answering(map, s, key, mods)->0);
        lemma_unknown_from_bound(s, answering(map, s, key, mods)->0 + 1);
    }
    assert forall|i: int| 0 <= i < after.len() implies ((#[trigger] after[i]).expiration is Some) == (
    after[i].timeout_milliseconds is Some) by {
        assert(after[i] == s[i] || after[i] == rearmed(s[i], now));
    }
}

/// A key that is not given by its place on the keyboard is nothing to the
/// terminal exactly where it is unrepresentable. Text is never nothing.
pub proof fn law_only_unrepresentable_keys_give_nothing(key: KeyCode, swap: bool)
    requires
        !(key is Physical),
    ensures
        terminal_key(key, swap) is Unrepresentable <==> unrepresentable(key),
        key is Composed ==> !(terminal_key(key, swap) is Unrepresentable),
{
}

/// A place on the keyboard is to the terminal what the key code that the
/// keyboard table gives for it is, and nothing where that key code is
/// unrepresentable or a place again.
pub proof fn law_places_go_through_the_keyboard_table(phys: wezterm_input_types::PhysKeyCode, swap: bool)
    ensures
        terminal_key(KeyCode::Physical(phys), swap) == settled_key(
            crate::keycode::physical_key_code(phys),
            swap,
        ),
        !(crate::keycode::physical_key_code(phys) is Physical) ==> terminal_key(
            KeyCode::Physical(phys),
            swap,
        ) == terminal_key(crate::keycode::physical_key_code(phys), swap),
        crate::keycode::physical_key_code(phys) is Physical || unrepresentable(
            crate::keycode::physical_key_code(phys),
        ) ==> terminal_key(KeyCode::Physical(phys), swap) is Unrepresentable,
{
}

/// Text of a single character is to the terminal what that character is.
pub proof fn law_single_character_text_is_its_character(text: String, swap: bool)
    requires
        text@.len() == 1,
    ensures
        terminal_key(KeyCode::Composed(text), swap) == terminal_key(KeyCode::Char(text@[0]), swap),
{
}

/// A modifier key of the window system is a modifier key to the terminal,
/// and no other key is; the caps lock key alone is a modifier to the window
/// system and none to the terminal. Swapping backspace and delete changes no
/// key but these two.
pub proof fn law_modifier_keys_stay_modifier_keys(key: KeyCode, swap: bool)
    requires
        !(key is Physical),
        terminal_key(key, swap) is Code,
    ensures
        is_terminal_modifier(terminal_key(key, swap)->Code_0) == (is_window_modifier(key) && !(key is CapsLock)),
        !(terminal_key(key, swap)->Code_0 is Backspace) && !(terminal_key(key, swap)->Code_0 is Delete)
            ==> terminal_key(key, swap) == terminal_key(key, !swap),
{
}

} // verus!
