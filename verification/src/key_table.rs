//! The stack of active key tables.
//!
//! Activating a key table pushes a frame; the frame on top is asked first. A
//! frame leaves when it is popped, when its deadline has come, after it has
//! served one key (one shot), or when a key that nothing answers dismisses
//! it (until unknown).

use crate::clock::deadline;
use crate::clock::deadline_after;
use crate::clock::deadline_reached;
use crate::clock::reached;
use crate::clock::Clock;
use crate::input_map::InputMap;
use crate::input_map::KeyAssignment;
use crate::input_map::KeyTableEntry;
use crate::modifiers::Modifiers;
use vstd::prelude::*;
use wezterm_input_types::KeyCode;

verus! {

/// One activation of a key table.
#[derive(Debug, Clone)]
pub struct KeyTableStateEntry {
    name: String,
    /// If this activation expires, when it expires.
    expiration: Option<u128>,
    /// Whether this activation pops itself after it has served a key.
    one_shot: bool,
    until_unknown: bool,
    prevent_fallback: bool,
    /// The timeout; a key that the table serves starts it anew.
    timeout_milliseconds: Option<u64>,
}

/// What activates a key table.
#[derive(Debug, Clone)]
pub struct KeyTableArgs<'a> {
    pub name: &'a str,
    pub timeout_milliseconds: Option<u64>,
    pub replace_current: bool,
    pub one_shot: bool,
    pub until_unknown: bool,
    pub prevent_fallback: bool,
}

/// The stack of active key tables, the most recent activation last.
#[derive(Debug, Clone)]
pub struct KeyTableState {
    stack: Vec<KeyTableStateEntry>,
    /// The clock that the functions without a time of their own read.
    clock: Clock,
}

/// An activation as contracts see it.
pub ghost struct Activation {
    pub name: Seq<char>,
    pub expiration: Option<u128>,
    pub one_shot: bool,
    pub until_unknown: bool,
    pub prevent_fallback: bool,
    pub timeout_milliseconds: Option<u64>,
}

impl View for KeyTableStateEntry {
    type V = Activation;

    closed spec fn view(&self) -> Activation {
        Activation {
            name: self.name@,
            expiration: self.expiration,
            one_shot: self.one_shot,
            until_unknown: self.until_unknown,
            prevent_fallback: self.prevent_fallback,
            timeout_milliseconds: self.timeout_milliseconds,
        }
    }
}

impl View for KeyTableState {
    type V = Seq<Activation>;

    /// The frames from the bottom of the stack to its top.
    closed spec fn view(&self) -> Seq<Activation> {
        self.stack@.map_values(|e: KeyTableStateEntry| e@)
    }
}

impl KeyTableStateEntry {
    /// The name of the key table.
    pub fn name(&self) -> (name: &str)
        ensures
            name@ == self@.name,
    {
        self.name.as_str()
    }

    /// When the activation expires, if it does.
    pub fn expiration(&self) -> (at: Option<u128>)
        ensures
            at == self@.expiration,
    {
        self.expiration
    }

    /// Whether the activation pops itself after it has served a key.
    pub fn one_shot(&self) -> (flag: bool)
        ensures
            flag == self@.one_shot,
    {
        self.one_shot
    }

    /// Whether a key that nothing answers dismisses the activation.
    pub fn until_unknown(&self) -> (flag: bool)
        ensures
            flag == self@.until_unknown,
    {
        self.until_unknown
    }

    /// Whether the activation swallows the keys that its table does not
    /// bind.
    pub fn prevent_fallback(&self) -> (flag: bool)
        ensures
            flag == self@.prevent_fallback,
    {
        self.prevent_fallback
    }

    /// The timeout of the activation, if it has one.
    pub fn timeout_milliseconds(&self) -> (ms: Option<u64>)
        ensures
            ms == self@.timeout_milliseconds,
    {
        self.timeout_milliseconds
    }
}

impl Activation {
    /// Has the frame's deadline come at `now`?
    pub open spec fn expired(self, now: u64) -> bool {
        match self.expiration {
            Some(at) => deadline_reached(at, now),
            None => false,
        }
    }
}

/// The frame that `args` activates at `now`: it expires its timeout after
/// `now`, and never where it has no timeout.
pub open spec fn frame_for(args: KeyTableArgs, now: u64) -> Activation {
    Activation {
        name: args.name@,
        expiration: match args.timeout_milliseconds {
            Some(ms) => Some(deadline_after(now, ms)),
            None => None,
        },
        one_shot: args.one_shot,
        until_unknown: args.until_unknown,
        prevent_fallback: args.prevent_fallback,
        timeout_milliseconds: args.timeout_milliseconds,
    }
}

/// The stack without its top frame; an empty stack stays empty.
pub open spec fn popped(s: Seq<Activation>) -> Seq<Activation> {
    if s.len() > 0 {
        s.drop_last()
    } else {
        s
    }
}

/// The stack after `args` has activated a table at `now`.
pub open spec fn activated(s: Seq<Activation>, args: KeyTableArgs, now: u64) -> Seq<Activation> {
    (if args.replace_current {
        popped(s)
    } else {
        s
    }).push(frame_for(args, now))
}

/// Has the deadline of the top frame come at `now`?
pub open spec fn top_expired(s: Seq<Activation>, now: u64) -> bool {
    s.len() > 0 && s.last().expired(now)
}

/// The stack once every frame whose deadline has come at `now` has left its
/// top. A frame below one that stays is not looked at.
pub open spec fn reconciled(s: Seq<Activation>, now: u64) -> Seq<Activation>
    decreases s.len(),
{
    if top_expired(s, now) {
        reconciled(s.drop_last(), now)
    } else {
        s
    }
}

/// The stack once the until-unknown frames have left its top at `now`. The
/// frames whose deadline has come leave before the top is read, each time:
/// what stays has on top a frame whose deadline has not come and that is no
/// until-unknown frame, or is empty.
pub open spec fn dismissed(s: Seq<Activation>, now: u64) -> Seq<Activation>
    decreases s.len(),
{
    if s.len() > 0 && (s.last().expired(now) || s.last().until_unknown) {
        dismissed(s.drop_last(), now)
    } else {
        s
    }
}

/// The stack after a key was served: a one-shot frame on top has left.
pub open spec fn served(s: Seq<Activation>) -> Seq<Activation> {
    if s.len() > 0 && s.last().one_shot {
        s.drop_last()
    } else {
        s
    }
}

/// What the frame's own table holds for the key.
pub open spec fn bound_in(map: &InputMap, frame: Activation, key: KeyCode, mods: Modifiers) -> Option<
    KeyTableEntry,
> {
    map.binding(key, mods, Some(frame.name))
}

/// Does the scan for the key end at this frame? It does where the frame's
/// table binds the key, and where the frame prevents fallback.
pub open spec fn answers(map: &InputMap, frame: Activation, key: KeyCode, mods: Modifiers) -> bool {
    bound_in(map, frame, key, mods) is Some || frame.prevent_fallback
}

/// The place of the highest frame below place `n` that answers the key.
pub open spec fn answering_below(
    map: &InputMap,
    s: Seq<Activation>,
    key: KeyCode,
    mods: Modifiers,
    n: int,
) -> Option<int>
    decreases n,
{
    if n <= 0 || n > s.len() {
        None
    } else if answers(map, s[n - 1], key, mods) {
        Some(n - 1)
    } else {
        answering_below(map, s, key, mods, n - 1)
    }
}

/// The place of the frame that answers the key: the highest that does.
pub open spec fn answering(map: &InputMap, s: Seq<Activation>, key: KeyCode, mods: Modifiers) -> Option<
    int,
> {
    answering_below(map, s, key, mods, s.len() as int)
}

/// How many of the frames from place `from` up are until-unknown frames.
pub open spec fn unknown_from(s: Seq<Activation>, from: int) -> nat
    decreases s.len() - from,
{
    if from < 0 || from >= s.len() {
        0
    } else {
        (if s[from].until_unknown {
            1nat
        } else {
            0nat
        }) + unknown_from(s, from + 1)
    }
}

/// How many until-unknown frames the scan passed over before the frame at
/// place `at` answered: those above it, and the frame itself where its table
/// does not bind the key.
pub open spec fn passed_over(
    map: &InputMap,
    s: Seq<Activation>,
    key: KeyCode,
    mods: Modifiers,
    at: int,
) -> nat {
    if bound_in(map, s[at], key, mods) is Some {
        unknown_from(s, at + 1)
    } else {
        unknown_from(s, at)
    }
}

/// The frame with its deadline set anew, its timeout after `now`. A frame
/// without a timeout stays as it is.
pub open spec fn rearmed(frame: Activation, now: u64) -> Activation {
    match frame.timeout_milliseconds {
        Some(ms) => Activation { expiration: Some(deadline_after(now, ms)), ..frame },
        None => frame,
    }
}

/// What the stack `s` answers to the key: the entry and the name of the table
/// it comes from; or nothing, where no frame answers. A frame that prevents
/// fallback and does not bind the key answers with `Nop`.
pub open spec fn looked_up(map: &InputMap, s: Seq<Activation>, key: KeyCode, mods: Modifiers) -> Option<
    (KeyTableEntry, Seq<char>),
> {
    match answering(map, s, key, mods) {
        Some(at) => Some(
            (
                match bound_in(map, s[at], key, mods) {
                    Some(entry) => entry,
                    None => KeyTableEntry { action: KeyAssignment::Nop },
                },
                s[at].name,
            ),
        ),
        None => None,
    }
}

/// The stack `s` after it has been asked for the key at `now`. Where a frame
/// answers, as many frames leave the top as until-unknown frames were passed
/// over, and a frame whose table binds the key has its deadline set anew.
/// Where no frame answers, nothing changes.
pub open spec fn after_lookup(
    map: &InputMap,
    s: Seq<Activation>,
    key: KeyCode,
    mods: Modifiers,
    now: u64,
) -> Seq<Activation> {
    match answering(map, s, key, mods) {
        Some(at) => (if bound_in(map, s[at], key, mods) is Some {
            s.update(at, rearmed(s[at], now))
        } else {
            s
        }).take(s.len() - passed_over(map, s, key, mods, at)),
        None => s,
    }
}

/// An answer with the name of its table as characters.
pub open spec fn answer_of(r: Option<(KeyTableEntry, Option<String>)>) -> Option<
    (KeyTableEntry, Seq<char>),
> {
    match r {
        Some((entry, Some(name))) => Some((entry, name@)),
        Some((entry, None)) => Some((entry, Seq::empty())),
        None => None,
    }
}

/// A reconciled stack has no frame on top whose deadline has come, so that
/// reconciling it again changes nothing.
pub proof fn lemma_reconciled_is_live(s: Seq<Activation>, now: u64)
    ensures
        !top_expired(reconciled(s, now), now),
        reconciled(reconciled(s, now), now) == reconciled(s, now),
    decreases s.len(),
{
    if top_expired(s, now) {
        lemma_reconciled_is_live(s.drop_last(), now);
    }
}

/// No more frames are until-unknown frames than there are frames.
pub proof fn lemma_unknown_from_bound(s: Seq<Activation>, from: int)
    requires
        0 <= from <= s.len(),
    ensures
        unknown_from(s, from) <= s.len() - from,
    decreases s.len() - from,
{
    if from < s.len() {
        lemma_unknown_from_bound(s, from + 1);
    }
}

impl KeyTableState {
    /// A stack without frames, with a clock of its own that starts now.
    pub fn new() -> (state: KeyTableState)
        ensures
            state@ == Seq::<Activation>::empty(),
    {
        KeyTableState::with_clock(Clock::new())
    }

    /// The clock that the functions without a time of their own read.
    pub closed spec fn time_source(&self) -> Clock {
        self.clock
    }

    /// A stack without frames that reads `clock`.
    pub fn with_clock(clock: Clock) -> (state: KeyTableState)
        ensures
            state@ == Seq::<Activation>::empty(),
            state.time_source() == clock,
    {
        let state = KeyTableState { stack: Vec::new(), clock };
        assert(state@ =~= Seq::<Activation>::empty());
        state
    }

    /// The clock that the functions without a time of their own read.
    pub fn clock(&self) -> (clock: Clock)
        ensures
            clock == self.time_source(),
    {
        self.clock
    }

    /// The number of frames that the stack holds as it stands: a frame whose
    /// deadline has come counts until a look at the top has made it leave.
    pub fn len(&self) -> (n: usize)
        ensures
            n == self@.len(),
    {
        self.stack.len()
    }

    /// The frame at place `at`, counted from the bottom of the stack as it
    /// stands: a frame whose deadline has come is shown until a look at the
    /// top has made it leave.
    pub fn frame(&self, at: usize) -> (entry: Option<&KeyTableStateEntry>)
        ensures
            match entry {
                Some(e) => at < self@.len() && e@ == self@[at as int],
                None => at >= self@.len(),
            },
    {
        if at < self.stack.len() {
            Some(&self.stack[at])
        } else {
            None
        }
    }

    /// The deadline of the frame on top, where there is a frame and it has
    /// one, once the frames whose deadline has come at `now` have left.
    pub fn next_expiration_at(&mut self, now: u64) -> (at: Option<u128>)
        ensures
            final(self).time_source() == old(self).time_source(),
            final(self)@ == reconciled(old(self)@, now),
            at == (if final(self)@.len() > 0 {
                final(self)@.last().expiration
            } else {
                None
            }),
    {
        self.reconcile_at(now);
        let n = self.stack.len();
        if n == 0 {
            None
        } else {
            self.stack[n - 1].expiration
        }
    }

    /// Pushes the frame of `args`, in place of the top frame where
    /// `replace_current` is set. With a timeout, the frame expires that long
    /// after `now`.
    pub fn activate_at(&mut self, args: KeyTableArgs, now: u64)
        ensures
            final(self).time_source() == old(self).time_source(),
            final(self)@ == activated(old(self)@, args, now),
    {
        if args.replace_current {
            self.pop();
        }
        let expiration = match args.timeout_milliseconds {
            Some(ms) => Some(deadline(now, ms)),
            None => None,
        };
        let entry = KeyTableStateEntry {
            name: args.name.to_owned(),
            expiration,
            one_shot: args.one_shot,
            until_unknown: args.until_unknown,
            prevent_fallback: args.prevent_fallback,
            timeout_milliseconds: args.timeout_milliseconds,
        };
        assert(entry@ == frame_for(args, now));
        self.stack.push(entry);
        assert(self@ =~= activated(old(self)@, args, now));
    }

    /// Removes the top frame. An empty stack stays empty.
    pub fn pop(&mut self)
        ensures
            final(self).time_source() == old(self).time_source(),
            final(self)@ == popped(old(self)@),
    {
        self.stack.pop();
        assert(self@ =~= popped(old(self)@));
    }

    /// Removes every frame.
    pub fn clear_stack(&mut self)
        ensures
            final(self).time_source() == old(self).time_source(),
            final(self)@ == Seq::<Activation>::empty(),
    {
        self.stack.clear();
        assert(self@ =~= Seq::<Activation>::empty());
    }

    /// Pops the top frame where its deadline has come at `now`, and says
    /// whether it did. Nothing else changes.
    pub fn process_expiration_at(&mut self, now: u64) -> (expired: bool)
        ensures
            final(self).time_source() == old(self).time_source(),
            expired == top_expired(old(self)@, now),
            final(self)@ == (if expired {
                old(self)@.drop_last()
            } else {
                old(self)@
            }),
    {
        let n = self.stack.len();
        let should_pop = if n == 0 {
            false
        } else {
            match self.stack[n - 1].expiration {
                Some(at) => reached(at, now),
                None => false,
            }
        };
        if !should_pop {
            return false;
        }
        self.pop();
        true
    }

    /// Pops until-unknown frames off the top until a frame that is not one
    /// is on top, or none is left. Before the top is read, each time, the
    /// frames whose deadline has come at `now` leave.
    pub fn pop_until_unknown_at(&mut self, now: u64)
        ensures
            final(self).time_source() == old(self).time_source(),
            final(self)@ == dismissed(old(self)@, now),
    {
        loop
            invariant
                dismissed(self@, now) == dismissed(old(self)@, now),
                self.time_source() == old(self).time_source(),
            ensures
                self@ == dismissed(old(self)@, now),
            decreases self@.len(),
        {
            let expired = self.process_expiration_at(now);
            if !expired {
                let n = self.stack.len();
                if n == 0 || !self.stack[n - 1].until_unknown {
                    break ;
                }
                self.pop();
            }
        }
    }

    /// Pops every frame on top whose deadline has come at `now`.
    pub fn reconcile_at(&mut self, now: u64)
        ensures
            final(self).time_source() == old(self).time_source(),
            final(self)@ == reconciled(old(self)@, now),
    {
        loop
            invariant
                reconciled(self@, now) == reconciled(old(self)@, now),
                self.time_source() == old(self).time_source(),
            ensures
                self@ == reconciled(old(self)@, now),
            decreases self@.len(),
        {
            if !self.process_expiration_at(now) {
                break ;
            }
        }
    }

    /// The name of the table on top, once the frames whose deadline has
    /// come at `now` have left.
    pub fn current_table_at(&mut self, now: u64) -> (name: Option<&str>)
        ensures
            final(self).time_source() == old(self).time_source(),
            final(self)@ == reconciled(old(self)@, now),
            match name {
                Some(n) => final(self)@.len() > 0 && n@ == final(self)@.last().name,
                None => final(self)@.len() == 0,
            },
    {
        self.reconcile_at(now);
        let n = self.stack.len();
        if n == 0 {
            None
        } else {
            Some(self.stack[n - 1].name.as_str())
        }
    }

    /// Pops `count` frames.
    fn pop_many(&mut self, count: usize)
        requires
            count <= old(self)@.len(),
        ensures
            final(self).time_source() == old(self).time_source(),
            final(self)@ == old(self)@.take(old(self)@.len() - count),
    {
        let mut k: usize = 0;
        while k < count
            invariant
                k <= count <= old(self)@.len(),
                self@ == old(self)@.take(old(self)@.len() - k),
                self.time_source() == old(self).time_source(),
            decreases count - k,
        {
            self.pop();
            k += 1;
            assert(self@ =~= old(self)@.take(old(self)@.len() - k));
        }
        assert(old(self)@.take(old(self)@.len() as int) =~= old(self)@);
    }

    /// Sets the deadline of the frame at place `at` anew, its timeout after
    /// `now`.
    fn rearm(&mut self, at: usize, now: u64)
        requires
            at < old(self)@.len(),
        ensures
            final(self).time_source() == old(self).time_source(),
            final(self)@ == old(self)@.update(at as int, rearmed(old(self)@[at as int], now)),
    {
        match self.stack[at].timeout_milliseconds {
            Some(ms) => {
                let entry = KeyTableStateEntry {
                    name: self.stack[at].name.clone(),
                    expiration: Some(deadline(now, ms)),
                    one_shot: self.stack[at].one_shot,
                    until_unknown: self.stack[at].until_unknown,
                    prevent_fallback: self.stack[at].prevent_fallback,
                    timeout_milliseconds: Some(ms),
                };
                self.stack.set(at, entry);
            },
            None => {},
        }
        assert(self@ =~= old(self)@.update(at as int, rearmed(old(self)@[at as int], now)));
    }

    /// Asks the stack for `key` with `mods` at `now`.
    ///
    /// First the frames whose deadline has come leave the top. The frames
    /// are then asked from the top down. The first whose table binds the key
    /// answers with its entry, and its deadline starts anew. A frame that
    /// prevents fallback and does not bind the key answers with `Nop`. With
    /// an answer, one frame leaves the top for each until-unknown frame that
    /// was passed over. Without one the stack stays as it is, for the caller
    /// to dismiss the until-unknown frames once the key has found no binding
    /// under any of its forms.
    pub fn lookup_key_at(&mut self, input_map: &InputMap, key: &KeyCode, mods: Modifiers, now: u64) -> (r:
        Option<(KeyTableEntry, Option<String>)>)
        ensures
            final(self).time_source() == old(self).time_source(),
            final(self)@ == after_lookup(input_map, reconciled(old(self)@, now), *key, mods, now),
            answer_of(r) == looked_up(input_map, reconciled(old(self)@, now), *key, mods),
            r matches Some((_, name)) ==> name is Some,
    {
        self.reconcile_at(now);
        let ghost s = self@;
        let n = self.stack.len();
        let mut i: usize = n;
        let mut pop_count: usize = 0;
        while i > 0
            invariant
                self@ == s,
                self.time_source() == old(self).time_source(),
                s == reconciled(old(self)@, now),
                n == s.len(),
                i <= n,
                pop_count == unknown_from(s, i as int),
                answering(input_map, s, *key, mods) == answering_below(
                    input_map,
                    s,
                    *key,
                    mods,
                    i as int,
                ),
            decreases i,
        {
            i -= 1;
            proof {
                lemma_unknown_from_bound(s, i as int);
                lemma_unknown_from_bound(s, i + 1);
            }
            let name = self.stack[i].name.clone();
            let hit = input_map.lookup_key(key, mods, Some(name.as_str()));
            assert(hit == bound_in(input_map, s[i as int], *key, mods));
            match hit {
                Some(entry) => {
                    assert(answering_below(input_map, s, *key, mods, i + 1) == Some(i as int));
                    self.rearm(i, now);
                    self.pop_many(pop_count);
                    return Some((entry, Some(name)));
                },
                None => {},
            }
            if self.stack[i].until_unknown {
                pop_count += 1;
            }
            if self.stack[i].prevent_fallback {
                assert(answering_below(input_map, s, *key, mods, i + 1) == Some(i as int));
                self.pop_many(pop_count);
                return Some((KeyTableEntry { action: KeyAssignment::Nop }, Some(name)));
            }
        }
        None
    }

    /// Pushes the frame of `args`, in place of the top frame where
    /// `replace_current` is set. With a timeout, the frame expires that long
    /// after the time that the clock gives.
    pub fn activate(&mut self, args: KeyTableArgs)
        ensures
            final(self).time_source() == old(self).time_source(),
            exists|now: u64| final(self)@ == #[trigger] activated(old(self)@, args, now),
            args.timeout_milliseconds is None ==> final(self)@ == activated(old(self)@, args, 0),
    {
        let now: u64 = self.clock.now();
        self.activate_at(args, now);
        assert(args.timeout_milliseconds is None ==> frame_for(args, now) == frame_for(args, 0));
    }

    /// Pops the top frame where its deadline has come at the time that the
    /// clock gives, and says whether it did. A top frame without a deadline
    /// stays, whatever the time.
    pub fn process_expiration(&mut self) -> (expired: bool)
        ensures
            final(self).time_source() == old(self).time_source(),
            exists|now: u64|
                expired == #[trigger] top_expired(old(self)@, now) && final(self)@ == (if expired {
                    old(self)@.drop_last()
                } else {
                    old(self)@
                }),
            final(self)@ == (if expired {
                old(self)@.drop_last()
            } else {
                old(self)@
            }),
            expired ==> old(self)@.len() > 0 && old(self)@.last().expiration is Some,
    {
        let now: u64 = self.clock.now();
        self.process_expiration_at(now)
    }

    /// The name of the table on top, once the frames whose deadline has
    /// come at the time that the clock gives have left.
    pub fn current_table(&mut self) -> (name: Option<&str>)
        ensures
            final(self).time_source() == old(self).time_source(),
            exists|now: u64| final(self)@ == #[trigger] reconciled(old(self)@, now),
            match name {
                Some(n) => final(self)@.len() > 0 && n@ == final(self)@.last().name,
                None => final(self)@.len() == 0,
            },
    {
        let now: u64 = self.clock.now();
        self.current_table_at(now)
    }

    /// Asks the stack for `key` with `mods` at the time that the clock
    /// gives.
    pub fn lookup_key(&mut self, input_map: &InputMap, key: &KeyCode, mods: Modifiers) -> (r: Option<
        (KeyTableEntry, Option<String>),
    >)
        ensures
            final(self).time_source() == old(self).time_source(),
            exists|now: u64|
                final(self)@ == #[trigger] after_lookup(
                    input_map,
                    reconciled(old(self)@, now),
                    *key,
                    mods,
                    now,
                ) && answer_of(r) == looked_up(input_map, reconciled(old(self)@, now), *key, mods),
            r matches Some((_, name)) ==> name is Some,
    {
        let now: u64 = self.clock.now();
        self.lookup_key_at(input_map, key, mods, now)
    }

    /// After a key was served at `now`: the frames whose deadline has come
    /// leave, and the frame that is then on top is popped where it is one
    /// shot.
    pub fn did_process_key_at(&mut self, now: u64)
        ensures
            final(self).time_source() == old(self).time_source(),
            final(self)@ == served(reconciled(old(self)@, now)),
    {
        self.reconcile_at(now);
        let n = self.stack.len();
        let should_pop = n > 0 && self.stack[n - 1].one_shot;
        if should_pop {
            self.pop();
        }
    }

    /// The deadline of the frame on top, once the frames whose deadline has
    /// come at the time that the clock gives have left.
    pub fn next_expiration(&mut self) -> (at: Option<u128>)
        ensures
            final(self).time_source() == old(self).time_source(),
            exists|now: u64| final(self)@ == #[trigger] reconciled(old(self)@, now),
            at == (if final(self)@.len() > 0 {
                final(self)@.last().expiration
            } else {
                None
            }),
    {
        let now: u64 = self.clock.now();
        self.next_expiration_at(now)
    }

    /// Pops until-unknown frames off the top, and before each look at the
    /// top the frames whose deadline has come at the time that the clock
    /// gives.
    pub fn pop_until_unknown(&mut self)
        ensures
            final(self).time_source() == old(self).time_source(),
            exists|now: u64| final(self)@ == #[trigger] dismissed(old(self)@, now),
    {
        let now: u64 = self.clock.now();
        self.pop_until_unknown_at(now);
    }

    /// After a key was served: the frames whose deadline has come at the
    /// time that the clock gives leave, and the frame that is then on top is
    /// popped where it is one shot.
    pub fn did_process_key(&mut self)
        ensures
            final(self).time_source() == old(self).time_source(),
            exists|now: u64| final(self)@ == served(#[trigger] reconciled(old(self)@, now)),
    {
        let now: u64 = self.clock.now();
        self.did_process_key_at(now);
    }
}

impl Default for KeyTableState {
    fn default() -> (state: KeyTableState)
        ensures
            state@ == Seq::<Activation>::empty(),
    {
        KeyTableState::new()
    }
}

} // verus!
