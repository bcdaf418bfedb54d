//! Modifier keys as a bitset.

use vstd::prelude::*;

verus! {

/// Nothing held.
pub const NONE: u16 = 0;

/// Either shift key.
pub const SHIFT: u16 = 0x0002;

/// An alt key, reported without its side.
pub const ALT: u16 = 0x0004;

/// Either control key.
pub const CTRL: u16 = 0x0008;

/// The super ("windows", "command") key.
pub const SUPER: u16 = 0x0010;

/// The alt key on the left.
pub const LEFT_ALT: u16 = 0x0020;

/// The alt key on the right.
pub const RIGHT_ALT: u16 = 0x0040;

/// The leader: a virtual modifier that no keyboard reports.
pub const LEADER: u16 = 0x0080;

/// The control key on the left.
pub const LEFT_CTRL: u16 = 0x0100;

/// The control key on the right.
pub const RIGHT_CTRL: u16 = 0x0200;

/// The shift key on the left.
pub const LEFT_SHIFT: u16 = 0x0400;

/// The shift key on the right.
pub const RIGHT_SHIFT: u16 = 0x0800;

/// Marks a key of the enhanced part of the keyboard.
pub const ENHANCED_KEY: u16 = 0x1000;

/// A set of modifier flags, one bit each.
#[derive(Clone, Copy, Debug, PartialEq, Eq, Structural, Hash)]
pub struct Modifiers {
    pub bits: u16,
}

impl Modifiers {
    /// Does the set hold every flag of `mask`?
    pub open spec fn has(self, mask: u16) -> bool {
        self.bits & mask == mask
    }

    /// The empty set.
    pub fn none() -> (m: Modifiers)
        ensures
            m.bits == 0,
    {
        Modifiers { bits: 0 }
    }

    /// The set with exactly the flags of `bits`.
    pub fn from_bits(bits: u16) -> (m: Modifiers)
        ensures
            m.bits == bits,
    {
        Modifiers { bits }
    }

    /// True where every flag of `mask` is in the set.
    pub fn contains(self, mask: u16) -> (r: bool)
        ensures
            r == self.has(mask),
    {
        self.bits & mask == mask
    }

    /// Adds the flags of `mask` to the set.
    pub fn insert(&mut self, mask: u16)
        ensures
            final(self).bits == old(self).bits | mask,
    {
        self.bits = self.bits | mask;
    }

    /// The set with the flags of both.
    pub fn union(self, other: Modifiers) -> (m: Modifiers)
        ensures
            m.bits == self.bits | other.bits,
    {
        Modifiers { bits: self.bits | other.bits }
    }
}

/// What the terminal is told of a set of modifiers: shift, control, super and
/// the leader as they are, alt where the left or the unsided alt key is held.
/// The right alt key alone does not count as alt, and the sided and enhanced
/// flags are dropped.
pub open spec fn terminal_bits(bits: u16) -> u16 {
    (bits & (SHIFT | CTRL | SUPER | LEADER | ALT)) | (if bits & LEFT_ALT == LEFT_ALT {
        ALT
    } else {
        0
    })
}

/// The modifiers that go to the terminal with a key, for the modifiers that
/// the window system reported.
pub fn window_mods_to_termwiz_mods(modifiers: Modifiers) -> (result: Modifiers)
    ensures
        result.bits == terminal_bits(modifiers.bits),
{
    let mut result = Modifiers::none();
    if modifiers.contains(SHIFT) {
        result.insert(SHIFT);
    }
    if modifiers.contains(LEFT_ALT) {
        result.insert(ALT);
    }
    if modifiers.contains(ALT) {
        result.insert(ALT);
    }
    if modifiers.contains(CTRL) {
        result.insert(CTRL);
    }
    if modifiers.contains(SUPER) {
        result.insert(SUPER);
    }
    if modifiers.contains(LEADER) {
        result.insert(LEADER);
    }
    proof {
        lemma_terminal_bits(modifiers.bits);
    }
    result
}

/// The flags of `terminal_bits`, gathered one at a time.
proof fn lemma_terminal_bits(b: u16)
    ensures
        terminal_bits(b) == gather(
            gather(
                gather(gather(gather(gather(0, b, SHIFT, SHIFT), b, LEFT_ALT, ALT), b, ALT, ALT), b, CTRL, CTRL),
                b,
                SUPER,
                SUPER,
            ),
            b,
            LEADER,
            LEADER,
        ),
{
    assert((b & (0x0002u16 | 0x0008 | 0x0010 | 0x0080 | 0x0004)) | (if b & 0x0020 == 0x0020 {
        0x0004u16
    } else {
        0
    }) == (((((0u16 | (if b & 0x0002 == 0x0002 {
        0x0002u16
    } else {
        0
    })) | (if b & 0x0020 == 0x0020 {
        0x0004u16
    } else {
        0
    })) | (if b & 0x0004 == 0x0004 {
        0x0004u16
    } else {
        0
    })) | (if b & 0x0008 == 0x0008 {
        0x0008u16
    } else {
        0
    })) | (if b & 0x0010 == 0x0010 {
        0x0010u16
    } else {
        0
    })) | (if b & 0x0080 == 0x0080 {
        0x0080u16
    } else {
        0
    })) by (bit_vector);
    assert(forall|x: u16| #[trigger] (x | 0) == x) by (bit_vector);
}

/// `acc` with the flag `give` added where `b` holds the flag `when`.
spec fn gather(acc: u16, b: u16, when: u16, give: u16) -> u16 {
    if b & when == when {
        acc | give
    } else {
        acc
    }
}

} // verus!
