//! What goes in and out of the dispatcher: key events as the window system
//! delivers them, the operations that the dispatcher asks of its host, and
//! the host's replies.

use crate::input_map::KeyAssignment;
use crate::modifiers::Modifiers;
use termwiz::input::KeyCode as TermKeyCode;
use vstd::prelude::*;
use wezterm_input_types::KeyCode;
use wezterm_input_types::PhysKeyCode;

verus! {

/// The settings that the dispatcher reads.
#[derive(Clone, Copy, Debug, PartialEq, Eq, Structural)]
pub struct KeyConfig {
    /// Backspace and delete trade places on the way to the terminal.
    pub swap_backspace_and_delete: bool,
    /// With the left alt key held, the composed key goes to the terminal.
    pub send_composed_key_when_left_alt_is_pressed: bool,
    /// With the right alt key held, the composed key goes to the terminal.
    pub send_composed_key_when_right_alt_is_pressed: bool,
    /// A terminal that asks for the win32 input encoding gets it.
    pub allow_win32_input_mode: bool,
}

/// A key event before any composition: it names the key by its place on
/// the keyboard and by the platform's own code as well.
#[derive(Debug, PartialEq, Eq)]
pub struct RawKeyEvent {
    pub key: KeyCode,
    pub modifiers: Modifiers,
    /// The place of the key on the keyboard, where it is known.
    pub phys_code: Option<PhysKeyCode>,
    /// The platform's code of the key.
    pub raw_code: u32,
    /// A key press; else a release.
    pub key_is_down: bool,
}

impl Clone for RawKeyEvent {
    fn clone(&self) -> (copy: RawKeyEvent)
        ensures
            copy == *self,
    {
        RawKeyEvent {
            key: self.key.clone(),
            modifiers: self.modifiers,
            phys_code: self.phys_code,
            raw_code: self.raw_code,
            key_is_down: self.key_is_down,
        }
    }
}

/// A key event after composition.
#[derive(Clone, Debug, PartialEq, Eq)]
pub struct KeyEvent {
    pub key: KeyCode,
    pub modifiers: Modifiers,
    /// A key press; else a release.
    pub key_is_down: bool,
    /// The event in the win32 input encoding, where it has one.
    pub win32_input: Option<String>,
}

/// What the host knows of the pane that has the focus when an event comes.
#[derive(Clone, Copy, Debug, PartialEq, Eq, Structural)]
pub struct PaneInfo {
    /// There is a pane to take the event.
    pub active: bool,
    /// A modal is shown over the pane and takes its keys.
    pub has_modal: bool,
    /// The pane has asked for the win32 input encoding.
    pub win32_encoding: bool,
}

/// Whether a dead key or an input method is in the middle of composing.
#[derive(Clone, Debug, PartialEq, Eq)]
pub enum DeadKeyStatus {
    /// Nothing is being composed.
    NotComposing,
    /// The text composed so far.
    Composing(String),
}

/// One operation that the dispatcher asks of its host.
#[derive(Debug, PartialEq, Eq)]
pub enum HostOp {
    /// Redraw the window.
    Invalidate,
    /// Redraw the window at this time.
    InvalidateAt(u128),
    /// Bring the window title up to date.
    UpdateTitle,
    /// Take back the cursor shape that a hover had set.
    ClearCursor,
    /// Scroll the pane to its bottom, as typing does.
    ScrollToBottom,
    /// Run the action, and report what came of it. With the action comes
    /// the name of the key table whose binding asks for it; `None` where the
    /// binding is one of the default table.
    Perform(KeyAssignment, Option<String>),
    /// Hand the key press to the modal.
    ModalKeyDown(TermKeyCode, Modifiers),
    /// Hand the key press to the pane.
    PaneKeyDown(TermKeyCode, Modifiers),
    /// Hand the key release to the pane.
    PaneKeyUp(TermKeyCode, Modifiers),
    /// Write the text to the pane.
    PaneWrite(String),
}

/// An operation as contracts see it: text and names by their characters.
pub ghost enum HostOpView {
    Invalidate,
    InvalidateAt(u128),
    UpdateTitle,
    ClearCursor,
    ScrollToBottom,
    Perform(KeyAssignment, Option<Seq<char>>),
    ModalKeyDown(TermKeyCode, Modifiers),
    PaneKeyDown(TermKeyCode, Modifiers),
    PaneKeyUp(TermKeyCode, Modifiers),
    PaneWrite(Seq<char>),
}

/// A name, where there is one, by its characters.
pub open spec fn text_of(name: Option<String>) -> Option<Seq<char>> {
    match name {
        Some(text) => Some(text@),
        None => None,
    }
}

impl View for HostOp {
    type V = HostOpView;

    open spec fn view(&self) -> HostOpView {
        match *self {
            HostOp::Invalidate => HostOpView::Invalidate,
            HostOp::InvalidateAt(at) => HostOpView::InvalidateAt(at),
            HostOp::UpdateTitle => HostOpView::UpdateTitle,
            HostOp::ClearCursor => HostOpView::ClearCursor,
            HostOp::ScrollToBottom => HostOpView::ScrollToBottom,
            HostOp::Perform(action, table) => HostOpView::Perform(action, text_of(table)),
            HostOp::ModalKeyDown(key, mods) => HostOpView::ModalKeyDown(key, mods),
            HostOp::PaneKeyDown(key, mods) => HostOpView::PaneKeyDown(key, mods),
            HostOp::PaneKeyUp(key, mods) => HostOpView::PaneKeyUp(key, mods),
            HostOp::PaneWrite(text) => HostOpView::PaneWrite(text@),
        }
    }
}

/// Operations as contracts see them, in their order.
pub open spec fn ops_of(ops: Seq<HostOp>) -> Seq<HostOpView> {
    ops.map_values(|op: HostOp| op@)
}

impl Clone for HostOp {
    fn clone(&self) -> (copy: HostOp)
        ensures
            copy == *self,
    {
        match self {
            HostOp::Invalidate => HostOp::Invalidate,
            HostOp::InvalidateAt(at) => HostOp::InvalidateAt(*at),
            HostOp::UpdateTitle => HostOp::UpdateTitle,
            HostOp::ClearCursor => HostOp::ClearCursor,
            HostOp::ScrollToBottom => HostOp::ScrollToBottom,
            HostOp::Perform(action, table) => HostOp::Perform(
                *action,
                match table {
                    Some(name) => Some(name.clone()),
                    None => None,
                },
            ),
            HostOp::ModalKeyDown(key, mods) => HostOp::ModalKeyDown(*key, *mods),
            HostOp::PaneKeyDown(key, mods) => HostOp::PaneKeyDown(*key, *mods),
            HostOp::PaneKeyUp(key, mods) => HostOp::PaneKeyUp(*key, *mods),
            HostOp::PaneWrite(text) => HostOp::PaneWrite(text.clone()),
        }
    }
}

/// What came of an operation that the dispatcher waits for. Of an action:
/// what the action reports. Of a key or text on its way to a modal or a
/// pane: `Handled` where it was taken, `Failed` where it was not.
#[derive(Clone, Copy, Debug, PartialEq, Eq, Structural)]
pub enum HostReply {
    Handled,
    Ignored,
    Failed,
}

/// Where an event stands once the dispatcher returns.
#[derive(Clone, Copy, Debug, PartialEq, Eq, Structural)]
pub enum Verdict {
    /// The last operation asked of the host decides how the event goes on:
    /// the dispatcher waits for the reply.
    Pending,
    /// The leader or a binding took the event, or its key went to the
    /// terminal in place of the composed one.
    Handled,
    /// Nothing took the event. Its key or text may have gone to the terminal.
    Unhandled,
}

/// The forms under which a raw key event is resolved, in their order.
#[derive(Clone, Copy, Debug, PartialEq, Eq, Structural)]
pub enum Pass {
    /// The place of the key on the keyboard.
    Physical,
    /// The platform's code of the key.
    Raw,
    /// The key as the event names it.
    Mapped,
}

/// What the dispatcher waits for, and what it needs to go on from there.
#[derive(Debug, PartialEq, Eq)]
pub enum Pending {
    /// Nothing: the dispatcher takes the next event.
    Idle,
    /// The action that a raw key event found in `pass`.
    RawAction { event: RawKeyEvent, pass: Pass, leader_active: bool },
    /// The action that a key event found.
    KeyAction { event: KeyEvent, pane: PaneInfo, leader_active: bool },
    /// The key that went to the modal or the pane in place of the composed
    /// one.
    KeyBypass { event: KeyEvent, pane: PaneInfo, leader_active: bool },
    /// The key or the encoded text that went to the pane.
    KeyDelivery { key_is_down: bool, is_modifier: bool },
}

/// How one form of a key starts out.
#[derive(Clone, Copy, Debug, PartialEq, Eq, Structural)]
pub enum PassStart {
    /// The key is the leader key: the leader is now active.
    LeaderStarted,
    /// A binding was found: its action is to be run.
    Perform(KeyAssignment),
    /// No binding was found.
    NoBinding,
}

} // verus!
