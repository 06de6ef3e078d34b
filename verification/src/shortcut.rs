//! The shortcut listener model: one process-wide key combination, its
//! registration state, and the filtering of raw key transitions down to
//! toggle events.

use vstd::prelude::*;

verus! {

/// The modifier keys held during a key transition.
#[derive(Clone, Copy, Debug, PartialEq, Eq, Structural)]
pub struct Modifiers {
    pub control: bool,
    pub shift: bool,
    pub alt: bool,
    pub super_key: bool,
}

/// Whether a key transition is a press or a release. Only presses drive
/// the toggle; releases are ignored.
#[derive(Clone, Copy, Debug, PartialEq, Eq, Structural)]
pub enum KeyState {
    Pressed,
    Released,
}

/// One key transition delivered by the host input subsystem for some
/// registered combination.
#[derive(Clone, Copy, Debug, PartialEq, Eq, Structural)]
pub struct ShortcutEvent {
    pub modifiers: Modifiers,
    pub key: char,
    pub state: KeyState,
}

/// An immutable pairing of a modifier set with a key, fixed at startup,
/// used to register with the host and to match incoming events.
#[derive(Clone, Copy, Debug, PartialEq, Eq, Structural)]
pub struct ShortcutBinding {
    pub modifiers: Modifiers,
    pub key: char,
}

impl ShortcutBinding {
    /// An event carries this binding's combination exactly.
    pub open spec fn spec_matches(self, e: ShortcutEvent) -> bool {
        e.modifiers == self.modifiers && e.key == self.key
    }

    /// Match an event against this binding; events for other combinations
    /// must not be dispatched to the toggle controller.
    pub fn matches(&self, e: &ShortcutEvent) -> (r: bool)
        ensures
            r == self.spec_matches(*e),
    {
        self.modifiers == e.modifiers && self.key == e.key
    }
}

/// The combination the palette listens for: the platform command key
/// together with the letter G.
pub fn palette_binding() -> (b: ShortcutBinding)
    ensures
        b.modifiers == (Modifiers { control: false, shift: false, alt: false, super_key: true }),
        b.key == 'g',
{
    ShortcutBinding {
        modifiers: Modifiers { control: false, shift: false, alt: false, super_key: true },
        key: 'g',
    }
}

/// Registering the combination with the host failed; the feature degrades
/// to "shortcut unavailable" and nothing else is affected.
#[derive(Clone, Copy, Debug, PartialEq, Eq, Structural)]
pub enum RegistrationError {
    /// Another process already claims the combination.
    AlreadyClaimed,
    /// The combination cannot be expressed on the host platform.
    Unsupported,
}

/// One shortcut-press occurrence, ready for the toggle controller. It
/// carries no payload and is consumed exactly once.
pub struct ToggleEvent;

/// The listener: the fixed binding and whether the system-wide hook is
/// currently installed. It owns no window state.
pub struct Listener {
    pub binding: ShortcutBinding,
    pub registered: bool,
}

impl Listener {
    /// A listener for `binding`, not yet registered with the host.
    pub fn new(binding: ShortcutBinding) -> (l: Listener)
        ensures
            l.binding == binding,
            !l.registered,
    {
        Listener { binding, registered: false }
    }

    /// Record the host's answer to the registration request. On failure
    /// the listener stays unregistered and nothing else changes: the rest
    /// of the application keeps working with the shortcut unavailable.
    pub fn apply_registration(&mut self, outcome: Result<(), RegistrationError>)
        ensures
            final(self).binding == old(self).binding,
            final(self).registered == outcome is Ok,
    {
        self.registered = outcome.is_ok();
    }

    /// Drop the system-wide hook. Idempotent: the outcome does not depend
    /// on whether the listener was still registered, and no window state
    /// is involved, so it is safe at any time.
    pub fn unregister(&mut self)
        ensures
            final(self).binding == old(self).binding,
            !final(self).registered,
    {
        self.registered = false;
    }

    /// Filter a raw key transition down to a toggle event: one is produced
    /// exactly when the hook is installed, the transition is a press, and
    /// the combination is this listener's own.
    pub fn filter(&self, e: &ShortcutEvent) -> (r: Option<ToggleEvent>)
        ensures
            r is Some <==> self.registered && e.state is Pressed && self.binding.spec_matches(*e),
    {
        if self.registered && matches!(e.state, KeyState::Pressed) && self.binding.matches(e) {
            Some(ToggleEvent)
        } else {
            None
        }
    }
}

} // verus!
