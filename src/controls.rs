//! Keyboard and mouse handling: cursor capture, simulation speed, the
//! navigation-mode command and camera movement axes.
use vstd::prelude::*;

verus! {

/// How the window holds the mouse cursor.
#[derive(PartialEq, Eq, Structural, Clone, Copy, Debug)]
pub enum GrabMode {
    /// The cursor moves freely and may leave the window.
    Free,
    /// The cursor is kept inside the window.
    Confined,
    /// The cursor is locked in place, for mouse-look.
    Locked,
}

/// Cursor capture and whether the camera controller takes input.
#[derive(PartialEq, Eq, Structural, Clone, Copy, Debug)]
pub struct CursorControl {
    pub grab: GrabMode,
    pub cursor_visible: bool,
    pub camera_input_disabled: bool,
}

/// The clicks and keys of one frame that concern the cursor.
#[derive(Clone, Copy, Debug)]
pub struct CursorKeys {
    pub left_click: bool,
    pub escape: bool,
}

/// The result of one frame of cursor handling.
#[derive(PartialEq, Eq, Structural, Clone, Copy, Debug)]
pub struct CursorOutcome {
    pub control: CursorControl,
    /// Whether the application should quit.
    pub exit: bool,
}

/// A left click captures the cursor and hands the mouse to the camera.
pub open spec fn captured() -> CursorControl {
    CursorControl { grab: GrabMode::Locked, cursor_visible: false, camera_input_disabled: false }
}

/// Escape releases the cursor and takes the mouse from the camera.
pub open spec fn released() -> CursorControl {
    CursorControl { grab: GrabMode::Free, cursor_visible: true, camera_input_disabled: true }
}

pub open spec fn after_click(c: CursorControl, k: CursorKeys) -> CursorControl {
    if k.left_click {
        captured()
    } else {
        c
    }
}

/// One frame of cursor handling: a left click, then Escape. Escape quits
/// only when the cursor is free at that point.
pub open spec fn cursor_step(c: CursorControl, k: CursorKeys) -> CursorOutcome {
    CursorOutcome {
        control: if k.escape {
            released()
        } else {
            after_click(c, k)
        },
        exit: k.escape && after_click(c, k).grab == GrabMode::Free,
    }
}

/// Handles a left click, then Escape. Escape quits only when the cursor is
/// free at that point, so a first Escape releases a captured cursor and a
/// second one quits.
pub fn cursor_input(c: CursorControl, k: CursorKeys) -> (r: CursorOutcome)
    ensures
        r == cursor_step(c, k),
{
    let mut control = c;
    if k.left_click {
        control = CursorControl {
            grab: GrabMode::Locked,
            cursor_visible: false,
            camera_input_disabled: false,
        };
    }
    let mut exit = false;
    if k.escape {
        exit = control.grab == GrabMode::Free;
        control = CursorControl {
            grab: GrabMode::Free,
            cursor_visible: true,
            camera_input_disabled: true,
        };
    }
    CursorOutcome { control, exit }
}

/// Escape pressed in two frames in a row quits, whatever the cursor was
/// doing before.
pub proof fn lemma_second_escape_quits(c: CursorControl)
    ensures
        ({
            let esc = CursorKeys { left_click: false, escape: true };
            cursor_step(cursor_step(c, esc).control, esc).exit
        }),
{
}

/// A single Escape quits only if the cursor was already free: a captured
/// cursor is released first.
pub proof fn lemma_escape_releases_before_quitting(c: CursorControl)
    requires
        c.grab != GrabMode::Free,
    ensures
        ({
            let esc = CursorKeys { left_click: false, escape: true };
            !cursor_step(c, esc).exit && cursor_step(c, esc).control == released()
        }),
{
}

/// The largest and smallest simulation speed: 512 and 1/512 times real time.
pub const MAX_TIME_EXPONENT: i32 = 9;

pub const MIN_TIME_EXPONENT: i32 = -9;

/// The physics time scale, a power of two: `2^exponent` times real time.
#[derive(PartialEq, Eq, Structural, Clone, Copy, Debug)]
pub struct TimeScale {
    pub exponent: i32,
}

/// The keys of one frame that change the time scale.
#[derive(Clone, Copy, Debug)]
pub struct TimeKeys {
    /// Doubles the speed, up to the largest.
    pub faster: bool,
    /// Halves the speed, down to the smallest.
    pub slower: bool,
    /// Back to real time.
    pub reset: bool,
}

impl TimeScale {
    pub open spec fn wf(self) -> bool {
        MIN_TIME_EXPONENT <= self.exponent <= MAX_TIME_EXPONENT
    }

    /// Real time.
    pub fn real_time() -> (r: TimeScale)
        ensures
            r.exponent == 0,
            r.wf(),
    {
        TimeScale { exponent: 0 }
    }

    pub open spec fn doubled_exponent(e: int) -> int {
        if e < MAX_TIME_EXPONENT {
            e + 1
        } else {
            MAX_TIME_EXPONENT as int
        }
    }

    pub open spec fn halved_exponent(e: int) -> int {
        if e > MIN_TIME_EXPONENT {
            e - 1
        } else {
            MIN_TIME_EXPONENT as int
        }
    }

    /// Twice as fast, but no faster than the largest speed.
    pub fn doubled(self) -> (r: TimeScale)
        requires
            self.wf(),
        ensures
            r.wf(),
            r.exponent == Self::doubled_exponent(self.exponent as int),
    {
        if self.exponent < MAX_TIME_EXPONENT {
            TimeScale { exponent: self.exponent + 1 }
        } else {
            TimeScale { exponent: MAX_TIME_EXPONENT }
        }
    }

    /// Half as fast, but no slower than the smallest speed.
    pub fn halved(self) -> (r: TimeScale)
        requires
            self.wf(),
        ensures
            r.wf(),
            r.exponent == Self::halved_exponent(self.exponent as int),
    {
        if self.exponent > MIN_TIME_EXPONENT {
            TimeScale { exponent: self.exponent - 1 }
        } else {
            TimeScale { exponent: MIN_TIME_EXPONENT }
        }
    }

    /// Applies the keys of one frame in the order faster, slower, reset.
    pub fn apply_keys(self, k: TimeKeys) -> (r: TimeScale)
        requires
            self.wf(),
        ensures
            r.wf(),
            r.exponent == (if k.reset {
                0
            } else {
                let after_faster = if k.faster {
                    Self::doubled_exponent(self.exponent as int)
                } else {
                    self.exponent as int
                };
                if k.slower {
                    Self::halved_exponent(after_faster)
                } else {
                    after_faster
                }
            }),
    {
        let mut s = self;
        if k.faster {
            s = s.doubled();
        }
        if k.slower {
            s = s.halved();
        }
        if k.reset {
            s = TimeScale::real_time();
        }
        s
    }
}

/// Doubling and then halving the speed gives the speed back, and so does
/// halving and then doubling, except at the limits, where the first step
/// changes nothing.
pub proof fn lemma_double_halve_round_trip(s: TimeScale)
    requires
        s.wf(),
    ensures
        s.exponent < MAX_TIME_EXPONENT ==> TimeScale::halved_exponent(
            TimeScale::doubled_exponent(s.exponent as int),
        ) == s.exponent,
        s.exponent > MIN_TIME_EXPONENT ==> TimeScale::doubled_exponent(
            TimeScale::halved_exponent(s.exponent as int),
        ) == s.exponent,
{
}

/// How the navigation target is chosen when Enter is pressed.
#[derive(PartialEq, Eq, Structural, Clone, Copy, Debug)]
pub enum NavTargetMode {
    /// The object nearest to the camera.
    Nearest,
    /// The object nearest to the cursor on screen.
    Cursor,
}

/// A multi-key command being entered.
#[derive(PartialEq, Eq, Structural, Clone, Copy, Debug)]
pub enum CurrentCommand {
    /// `T` was pressed; `C` or `N` then picks the navigation mode.
    NavTargetModeSelect,
}

/// How long, in seconds, the command window stays open after `T`.
pub const COMMAND_WINDOW_SECS: u64 = 2;

/// The keys of one frame that enter commands.
#[derive(Clone, Copy, Debug)]
pub struct CommandKeys {
    pub t: bool,
    pub c: bool,
    pub n: bool,
}

/// The result of one frame of command entry.
#[derive(PartialEq, Eq, Structural, Clone, Copy, Debug)]
pub struct CommandOutcome {
    pub entry: Option<CurrentCommand>,
    pub mode: NavTargetMode,
    /// Whether the command timer restarts, to run `COMMAND_WINDOW_SECS`.
    pub restart_timer: bool,
}

/// One frame of command entry.
///
/// While a command is open and its timer runs, `C` selects cursor mode and
/// `N` nearest mode (`N` wins if both come in one frame). With no command,
/// or once the timer has finished, `T` opens the command and restarts the
/// timer.
pub fn command_entry(
    entry: Option<CurrentCommand>,
    mode: NavTargetMode,
    timer_finished: bool,
    k: CommandKeys,
) -> (r: CommandOutcome)
    ensures
        (entry.is_some() && !timer_finished) ==> r == (CommandOutcome {
            entry,
            mode: if k.n {
                NavTargetMode::Nearest
            } else if k.c {
                NavTargetMode::Cursor
            } else {
                mode
            },
            restart_timer: false,
        }),
        !(entry.is_some() && !timer_finished) ==> r == (CommandOutcome {
            entry: if k.t {
                Some(CurrentCommand::NavTargetModeSelect)
            } else {
                entry
            },
            mode,
            restart_timer: k.t,
        }),
{
    match entry {
        Some(CurrentCommand::NavTargetModeSelect) => {
            if !timer_finished {
                let mut m = mode;
                if k.c {
                    m = NavTargetMode::Cursor;
                }
                if k.n {
                    m = NavTargetMode::Nearest;
                }
                return CommandOutcome { entry, mode: m, restart_timer: false };
            }
        },
        None => {},
    }
    if k.t {
        CommandOutcome {
            entry: Some(CurrentCommand::NavTargetModeSelect),
            mode,
            restart_timer: true,
        }
    } else {
        CommandOutcome { entry, mode, restart_timer: false }
    }
}

/// The target chosen on Enter: the object nearest to the camera in nearest
/// mode, the cursor's pick (possibly none) in cursor mode.
pub fn chosen_target<E>(mode: NavTargetMode, nearest_object: E, cursor_pick: Option<E>) -> (r:
    Option<E>)
    ensures
        r == (match mode {
            NavTargetMode::Nearest => Some(nearest_object),
            NavTargetMode::Cursor => cursor_pick,
        }),
{
    match mode {
        NavTargetMode::Nearest => Some(nearest_object),
        NavTargetMode::Cursor => cursor_pick,
    }
}

/// One movement axis from a pair of keys: -1 while the negative key is held,
/// else +1 while the positive key is held, else 0. The negative key wins.
pub fn key_axis(negative: bool, positive: bool) -> (r: i32)
    ensures
        r == (if negative {
            -1int
        } else if positive {
            1int
        } else {
            0int
        }),
{
    if negative {
        -1
    } else if positive {
        1
    } else {
        0
    }
}

/// Whether the camera turns to face its target on its own.
#[derive(PartialEq, Eq, Structural, Clone, Copy, Debug)]
pub enum AutomationState {
    Idle,
    FocusingOnTarget,
}

impl AutomationState {
    /// The state after the focus key: idle and focusing swap.
    pub fn toggled(self) -> (r: AutomationState)
        ensures
            r == (match self {
                AutomationState::Idle => AutomationState::FocusingOnTarget,
                AutomationState::FocusingOnTarget => AutomationState::Idle,
            }),
    {
        match self {
            AutomationState::Idle => AutomationState::FocusingOnTarget,
            AutomationState::FocusingOnTarget => AutomationState::Idle,
        }
    }
}

} // verus!
