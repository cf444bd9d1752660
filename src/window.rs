use vstd::prelude::*;
use crate::reply::{reply, reply_of, reply_view};

verus! {

/// Opacities arrive as the IEEE-754 bit pattern of a double (`f64::to_bits`),
/// so that the library holds no floating-point value. This is the pattern
/// of `1.0`, a fully opaque window.
pub const OPAQUE_BITS: u64 = 0x3FF0_0000_0000_0000;

/// The pattern of `-0.0`, which compares equal to `0.0`.
pub const NEGATIVE_ZERO_BITS: u64 = 0x8000_0000_0000_0000;

/// Whether the double with pattern `bits` lies in `[0.0, 1.0]`. Non-negative
/// doubles are ordered as their patterns, from `0.0` (all bits clear) up to
/// `1.0`; every NaN and every negative value other than `-0.0` lies outside.
pub open spec fn opacity_in_range(bits: u64) -> bool {
    bits <= OPAQUE_BITS || bits == NEGATIVE_ZERO_BITS
}

/// The message of an opacity that is refused before it reaches the toolkit.
pub open spec fn out_of_range_text() -> Seq<char> {
    "opacity must lie between 0.0 and 1.0"@
}

/// A request from the front-end that changes one property of the window.
#[derive(Clone, Copy, Debug, PartialEq, Eq, Structural)]
pub enum WindowCommand {
    /// Let pointer events pass through the window (`true`) or not.
    SetClickThrough { enabled: bool },
    /// Set the window's alpha, given as the bit pattern of a double.
    SetOpacity { bits: u64 },
    /// Pin the window above the others (`true`) or release it.
    SetAlwaysOnTop { enabled: bool },
}

/// Whether a command may be handed to the toolkit. Out-of-range opacities
/// are refused here, every time, rather than left to the platform.
pub open spec fn accepts(cmd: WindowCommand) -> bool {
    match cmd {
        WindowCommand::SetOpacity { bits } => opacity_in_range(bits),
        _ => true,
    }
}

/// The window properties that the commands set.
#[derive(Clone, Copy, Debug, PartialEq, Eq, Structural)]
pub struct WindowFlags {
    pub click_through: bool,
    pub opacity_bits: u64,
    pub always_on_top: bool,
}

impl WindowFlags {
    /// The flags once `cmd` has been carried out: the one property it names
    /// takes its argument, the others stay.
    pub open spec fn applied(self, cmd: WindowCommand) -> WindowFlags {
        match cmd {
            WindowCommand::SetClickThrough { enabled } => WindowFlags {
                click_through: enabled,
                ..self
            },
            WindowCommand::SetOpacity { bits } => WindowFlags { opacity_bits: bits, ..self },
            WindowCommand::SetAlwaysOnTop { enabled } => WindowFlags {
                always_on_top: enabled,
                ..self
            },
        }
    }

    /// A new window: it takes pointer events, is opaque and is not pinned.
    pub fn initial() -> (r: WindowFlags)
        ensures
            r == (WindowFlags { click_through: false, opacity_bits: OPAQUE_BITS, always_on_top: false }),
    {
        WindowFlags { click_through: false, opacity_bits: OPAQUE_BITS, always_on_top: false }
    }

    /// Records the answer of the toolkit to `cmd` and gives the reply for
    /// the front-end. The flags change only where the call succeeded.
    pub fn complete(&mut self, cmd: WindowCommand, outcome: Result<(), String>) -> (r: Result<(), String>)
        ensures
            outcome is Ok ==> *final(self) == old(self).applied(cmd),
            outcome is Err ==> *final(self) == *old(self),
            reply_view(r) == reply_of(outcome),
    {
        if outcome.is_ok() {
            self.apply(cmd);
        }
        reply(outcome)
    }

    /// Sets the property that `cmd` names.
    pub fn apply(&mut self, cmd: WindowCommand)
        ensures
            *final(self) == old(self).applied(cmd),
    {
        match cmd {
            WindowCommand::SetClickThrough { enabled } => self.click_through = enabled,
            WindowCommand::SetOpacity { bits } => self.opacity_bits = bits,
            WindowCommand::SetAlwaysOnTop { enabled } => self.always_on_top = enabled,
        }
    }
}

/// Decides whether `cmd` goes on to the toolkit (`Ok`) or is answered at
/// once with the reason it was refused.
pub fn check(cmd: &WindowCommand) -> (r: Result<(), String>)
    ensures
        r is Ok <==> accepts(*cmd),
        !accepts(*cmd) ==> reply_view(r) == Err::<(), Seq<char>>(out_of_range_text()),
{
    match cmd {
        WindowCommand::SetOpacity { bits } => {
            if *bits <= OPAQUE_BITS || *bits == NEGATIVE_ZERO_BITS {
                Ok(())
            } else {
                Err(String::from_str("opacity must lie between 0.0 and 1.0"))
            }
        },
        _ => Ok(()),
    }
}

/// Turning click-through on and then off leaves it off, whatever the flags
/// were before, and touches no other property.
pub proof fn lemma_click_through_round_trip(flags: WindowFlags)
    ensures
        accepts(WindowCommand::SetClickThrough { enabled: true }),
        accepts(WindowCommand::SetClickThrough { enabled: false }),
        flags.applied(WindowCommand::SetClickThrough { enabled: true }).applied(
            WindowCommand::SetClickThrough { enabled: false },
        ) == (WindowFlags { click_through: false, ..flags }),
{
}

/// Setting an opacity twice is the same as setting it once; a fully opaque
/// window is always accepted.
pub proof fn lemma_opacity_idempotent(flags: WindowFlags, bits: u64)
    ensures
        accepts(WindowCommand::SetOpacity { bits: OPAQUE_BITS }),
        flags.applied(WindowCommand::SetOpacity { bits }).applied(WindowCommand::SetOpacity { bits })
            == flags.applied(WindowCommand::SetOpacity { bits }),
{
}

/// An opacity outside `[0.0, 1.0]` is refused with one fixed message and
/// never reaches the toolkit, so the window keeps its flags.
pub proof fn lemma_out_of_range_refused(bits: u64)
    requires
        !opacity_in_range(bits),
    ensures
        !accepts(WindowCommand::SetOpacity { bits }),
        out_of_range_text().len() > 0,
{
    reveal_strlit("opacity must lie between 0.0 and 1.0");
}

} // verus!
