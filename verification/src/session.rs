//! Terminal session guard: the mode flags of the terminal and their
//! lifecycle, as a verified state machine.
//!
//! The guard owns four flags — raw mode, alternate screen, mouse capture,
//! cursor hidden — and three transitions: `enter` turns the full-screen
//! modes on, `reset` is the restoration used both on orderly shutdown and
//! from a crash handler, and `exit` is `reset` plus showing the cursor
//! again. The host performs the matching platform calls and keeps its
//! terminal in step with these flags; the proofs here guarantee that every
//! path through the lifecycle leaves the flags where they started.

use vstd::prelude::*;

verus! {

/// A failure of the terminal session: the platform refused a mode switch,
/// or a frame could not be painted. Both are fatal for the session.
#[derive(Clone, Copy, Debug, PartialEq, Eq, Structural)]
pub enum TerminalError {
    /// Enabling or disabling a terminal mode failed (for instance, the
    /// output stream is not a terminal).
    ModeSwitchFailed,
    /// A frame could not be written to the terminal.
    DrawFailed,
}

/// The mode flags of the terminal that the session guard owns.
#[derive(Clone, Copy, Debug, PartialEq, Eq, Structural)]
pub struct ModeFlags {
    /// Raw input mode: keystrokes arrive unprocessed, without line
    /// buffering, echo, or signal generation.
    pub raw: bool,
    /// The alternate screen buffer is active.
    pub alternate: bool,
    /// Mouse events are captured.
    pub mouse: bool,
    /// The cursor is hidden.
    pub cursor_hidden: bool,
}

impl ModeFlags {
    /// The flags of an untouched terminal: ordinary line input on the main
    /// screen, no mouse capture, cursor visible.
    pub open spec fn restored_spec() -> ModeFlags {
        ModeFlags { raw: false, alternate: false, mouse: false, cursor_hidden: false }
    }

    /// The flags of a fully entered session: raw input on the alternate
    /// screen, mouse captured, cursor hidden.
    pub open spec fn entered_spec() -> ModeFlags {
        ModeFlags { raw: true, alternate: true, mouse: true, cursor_hidden: true }
    }

    /// The flags of an untouched terminal.
    pub fn restored() -> (m: ModeFlags)
        ensures
            m == ModeFlags::restored_spec(),
    {
        ModeFlags { raw: false, alternate: false, mouse: false, cursor_hidden: false }
    }

    /// The flags of a fully entered session.
    pub fn entered() -> (m: ModeFlags)
        ensures
            m == ModeFlags::entered_spec(),
    {
        ModeFlags { raw: true, alternate: true, mouse: true, cursor_hidden: true }
    }
}

/// What `reset` leaves behind: raw mode off, back on the main screen,
/// mouse capture off. The cursor flag is untouched — only `exit` shows the
/// cursor again, since a crash handler must not assume it was hidden.
pub open spec fn reset_of(m: ModeFlags) -> ModeFlags {
    ModeFlags { raw: false, alternate: false, mouse: false, cursor_hidden: m.cursor_hidden }
}

/// Restoration of the terminal modes, independent of any session instance
/// so a crash handler can apply it without touching session state.
pub fn reset_flags(m: ModeFlags) -> (r: ModeFlags)
    ensures
        r == reset_of(m),
{
    ModeFlags { raw: false, alternate: false, mouse: false, cursor_hidden: m.cursor_hidden }
}

/// Where a session stands in its lifecycle.
#[derive(Clone, Copy, Debug, PartialEq, Eq, Structural)]
pub enum Phase {
    /// Constructed; `enter` has not run yet.
    Created,
    /// `enter` succeeded; the session may draw.
    Active,
    /// The session is over: `exit` ran, or `enter` failed.
    Done,
}

/// The terminal session guard: the current mode flags together with the
/// lifecycle phase. The host pairs one of these with its exclusive handle
/// to the output terminal and mirrors every transition with the
/// corresponding platform calls.
pub struct TerminalSession {
    /// The mode flags the terminal currently has.
    pub modes: ModeFlags,
    /// Where the session stands in its lifecycle.
    pub phase: Phase,
}

impl TerminalSession {
    /// A session over an untouched terminal, not yet entered.
    pub fn new() -> (s: TerminalSession)
        ensures
            s.modes == ModeFlags::restored_spec(),
            s.phase == Phase::Created,
    {
        TerminalSession { modes: ModeFlags::restored(), phase: Phase::Created }
    }

    /// Enter the session: enable raw mode, switch to the alternate screen,
    /// capture the mouse, hide the cursor. Runs exactly once, before any
    /// draw. `platform_ok` reports whether the platform accepted the mode
    /// switches; on failure the session applies a best-effort `reset` so
    /// the terminal is not left partially modified, and the error is
    /// returned with the session unusable.
    pub fn enter(&mut self, platform_ok: bool) -> (r: Result<(), TerminalError>)
        requires
            old(self).phase == Phase::Created,
        ensures
            platform_ok ==> {
                &&& r == Ok::<(), TerminalError>(())
                &&& final(self).modes == ModeFlags::entered_spec()
                &&& final(self).phase == Phase::Active
            },
            !platform_ok ==> {
                &&& r == Err::<(), TerminalError>(TerminalError::ModeSwitchFailed)
                &&& final(self).modes == reset_of(old(self).modes)
                &&& final(self).phase == Phase::Done
            },
    {
        if platform_ok {
            self.modes = ModeFlags::entered();
            self.phase = Phase::Active;
            Ok(())
        } else {
            self.modes = reset_flags(self.modes);
            self.phase = Phase::Done;
            Err(TerminalError::ModeSwitchFailed)
        }
    }

    /// Restore the terminal modes without ending the session's lifecycle
    /// bookkeeping: raw mode off, main screen, mouse capture off. Safe in
    /// every phase, so a crash handler may call it whether or not `enter`
    /// ever ran.
    pub fn reset(&mut self)
        ensures
            final(self).modes == reset_of(old(self).modes),
            final(self).phase == old(self).phase,
    {
        self.modes = reset_flags(self.modes);
    }

    /// End the session: `reset`, then show the cursor again. Runs exactly
    /// once, at loop termination, and leaves the terminal exactly as an
    /// untouched one.
    pub fn exit(&mut self)
        requires
            old(self).phase == Phase::Active,
        ensures
            final(self).modes == exit_of(old(self).modes),
            final(self).modes == ModeFlags::restored_spec(),
            final(self).phase == Phase::Done,
    {
        self.modes = reset_flags(self.modes);
        self.modes.cursor_hidden = false;
        self.phase = Phase::Done;
    }
}

/// What `exit` leaves behind: `reset`, then the cursor shown again —
/// exactly the flags of an untouched terminal.
pub open spec fn exit_of(m: ModeFlags) -> ModeFlags {
    ModeFlags { raw: false, alternate: false, mouse: false, cursor_hidden: false }
}

/// Restoration invariant: whichever way a session that started on an
/// untouched terminal ends, the three full-screen modes — raw, alternate
/// screen, mouse capture — are back at their values from before `enter`.
/// An orderly `exit` also restores the cursor; a crash-path `reset` leaves
/// the cursor flag as it found it.
pub proof fn lemma_restoration(before: ModeFlags)
    requires
        before == ModeFlags::restored_spec(),
    ensures
        exit_of(ModeFlags::entered_spec()) == before,
        reset_of(ModeFlags::entered_spec()).raw == before.raw,
        reset_of(ModeFlags::entered_spec()).alternate == before.alternate,
        reset_of(ModeFlags::entered_spec()).mouse == before.mouse,
{
}

/// Idempotent reset: restoring an already restored terminal changes
/// nothing, so a second `reset` in a row has no observable effect.
pub proof fn lemma_reset_idempotent(m: ModeFlags)
    ensures
        reset_of(reset_of(m)) == reset_of(m),
{
}

} // verus!
