//! What each command does to the control node, the backup and the configuration.
use vstd::prelude::*;
use crate::brightness::{increment_brightness, screen_state, state_of, stepped, ScreenState};
use crate::command::Command;
use crate::config::{with_increment, Config, Increment};
use crate::text::{decimal_text, lemma_text_round_trip, stored_value};

verus! {

/// The one line a command reports to the user.
#[derive(Clone, Copy, Debug, PartialEq, Eq, Structural)]
pub enum Report {
    /// The current brightness, for `b`.
    Brightness(i16),
    /// The usage text, for `help`.
    Usage,
    BrightnessUp,
    BrightnessDown,
    IncrementSet(Increment, i16),
    BrightnessSet(i16),
    ScreenOn,
    ScreenOff,
    ToggledOff,
    ToggledOn,
    Dimmed,
    CycledToDim,
    CycledToOff,
    CycledToOn,
    /// `on` while the screen is on: nothing is written.
    AlreadyOn,
    /// `off` while the screen is off: nothing is written.
    AlreadyOff,
    /// Nothing is reported.
    Quiet,
}

/// The writes a command performs and what it reports. A `None` write leaves
/// that store untouched.
#[derive(Clone, Copy, Debug, PartialEq, Eq, Structural)]
pub struct Outcome {
    /// The value written to the control node.
    pub brightness: Option<i16>,
    /// The value written to the backup node.
    pub backup: Option<i16>,
    /// The configuration to persist.
    pub config: Option<Config>,
    pub report: Report,
}

/// Why a command cannot complete.
#[derive(Clone, Copy, Debug, PartialEq, Eq, Structural)]
pub enum Fatal {
    /// The command restores the backup, and the backup holds no value.
    NoBackup,
}

/// An outcome that writes nothing.
pub open spec fn report_only(report: Report) -> Outcome {
    Outcome { brightness: None, backup: None, config: None, report }
}

/// An outcome that writes `value` to the control node only.
pub open spec fn write_only(value: Option<i16>, report: Report) -> Outcome {
    Outcome { brightness: value, backup: None, config: None, report }
}

/// An outcome that backs up `current`, then writes `value` to the control node.
pub open spec fn backup_and_write(current: i16, value: i16, report: Report) -> Outcome {
    Outcome { brightness: Some(value), backup: Some(current), config: None, report }
}

/// An outcome that writes the backed-up value to the control node.
pub open spec fn restore(backup: Option<i16>, report: Report) -> Result<Outcome, Fatal> {
    match backup {
        Some(b) => Ok(write_only(Some(b), report)),
        None => Err(Fatal::NoBackup),
    }
}

/// What `cmd` does when the control node holds `current`, the backup node
/// holds `backup` (`None` when it holds no value) and the configuration is `cfg`.
pub open spec fn outcome_of(cmd: Command, current: i16, backup: Option<i16>, cfg: Config) -> Result<
    Outcome,
    Fatal,
> {
    let state = state_of(current as int);
    match cmd {
        Command::Show => Ok(report_only(Report::Brightness(current))),
        Command::Help => Ok(report_only(Report::Usage)),
        Command::Up => Ok(
            write_only(
                stepped(current as int, cfg.positive_increment as int),
                Report::BrightnessUp,
            ),
        ),
        Command::Down => Ok(
            write_only(
                stepped(current as int, cfg.negative_increment as int),
                Report::BrightnessDown,
            ),
        ),
        Command::Configure(which, value) => Ok(
            Outcome {
                brightness: None,
                backup: None,
                config: Some(with_increment(cfg, which, value)),
                report: Report::IncrementSet(which, value),
            },
        ),
        Command::SetBrightness(v) => Ok(write_only(Some(v), Report::BrightnessSet(v))),
        Command::On => if state == ScreenState::On {
            Ok(report_only(Report::AlreadyOn))
        } else {
            restore(backup, Report::ScreenOn)
        },
        Command::Off => if state == ScreenState::Off {
            Ok(report_only(Report::AlreadyOff))
        } else {
            Ok(backup_and_write(current, 0, Report::ScreenOff))
        },
        Command::Toggle => match state {
            ScreenState::On => Ok(backup_and_write(current, 0, Report::ToggledOff)),
            ScreenState::Off => restore(backup, Report::ToggledOn),
            ScreenState::Dim => Ok(report_only(Report::Quiet)),
        },
        Command::Dim => match state {
            ScreenState::On => Ok(backup_and_write(current, 1, Report::Dimmed)),
            ScreenState::Off => Ok(write_only(Some(1), Report::Dimmed)),
            ScreenState::Dim => Ok(report_only(Report::Quiet)),
        },
        Command::Cycle => match state {
            ScreenState::On => Ok(backup_and_write(current, 1, Report::CycledToDim)),
            ScreenState::Dim => Ok(write_only(Some(0), Report::CycledToOff)),
            ScreenState::Off => restore(backup, Report::CycledToOn),
        },
    }
}

/// The control node's value after an outcome.
pub open spec fn brightness_after(current: i16, o: Outcome) -> i16 {
    match o.brightness {
        Some(v) => v,
        None => current,
    }
}

/// The value read back from the backup node after an outcome: a backup is
/// stored as its decimal text and read back by parsing that text.
pub open spec fn backup_after(backup: Option<i16>, o: Outcome) -> Option<i16> {
    match o.backup {
        Some(v) => stored_value(decimal_text(v as int)),
        None => backup,
    }
}

fn restored(backup: Option<i16>, report: Report) -> (r: Result<Outcome, Fatal>)
    ensures
        r == restore(backup, report),
{
    match backup {
        Some(b) => Ok(Outcome { brightness: Some(b), backup: None, config: None, report }),
        None => Err(Fatal::NoBackup),
    }
}

fn nothing_written(report: Report) -> (r: Outcome)
    ensures
        r == report_only(report),
{
    Outcome { brightness: None, backup: None, config: None, report }
}

fn written(value: Option<i16>, report: Report) -> (r: Outcome)
    ensures
        r == write_only(value, report),
{
    Outcome { brightness: value, backup: None, config: None, report }
}

fn backed_up(current: i16, value: i16, report: Report) -> (r: Outcome)
    ensures
        r == backup_and_write(current, value, report),
{
    Outcome { brightness: Some(value), backup: Some(current), config: None, report }
}

/// Runs `cmd` against the current brightness, the backed-up value (`None`
/// when the backup node holds none) and the configuration, and returns the
/// writes to perform and the line to report. Fails only where the command
/// must restore a backup that is not there.
pub fn execute(cmd: Command, current: i16, backup: Option<i16>, cfg: Config) -> (r: Result<
    Outcome,
    Fatal,
>)
    ensures
        r == outcome_of(cmd, current, backup, cfg),
{
    let state = screen_state(current);
    match cmd {
        Command::Show => Ok(nothing_written(Report::Brightness(current))),
        Command::Help => Ok(nothing_written(Report::Usage)),
        Command::Up => Ok(
            written(increment_brightness(current, cfg.positive_increment), Report::BrightnessUp),
        ),
        Command::Down => Ok(
            written(
                increment_brightness(current, cfg.negative_increment),
                Report::BrightnessDown,
            ),
        ),
        Command::Configure(which, value) => {
            let mut next = cfg;
            next.set_increment(which, value);
            Ok(
                Outcome {
                    brightness: None,
                    backup: None,
                    config: Some(next),
                    report: Report::IncrementSet(which, value),
                },
            )
        },
        Command::SetBrightness(v) => Ok(written(Some(v), Report::BrightnessSet(v))),
        Command::On => if state == ScreenState::On {
            Ok(nothing_written(Report::AlreadyOn))
        } else {
            restored(backup, Report::ScreenOn)
        },
        Command::Off => if state == ScreenState::Off {
            Ok(nothing_written(Report::AlreadyOff))
        } else {
            Ok(backed_up(current, 0, Report::ScreenOff))
        },
        Command::Toggle => match state {
            ScreenState::On => Ok(backed_up(current, 0, Report::ToggledOff)),
            ScreenState::Off => restored(backup, Report::ToggledOn),
            ScreenState::Dim => Ok(nothing_written(Report::Quiet)),
        },
        Command::Dim => match state {
            ScreenState::On => Ok(backed_up(current, 1, Report::Dimmed)),
            ScreenState::Off => Ok(written(Some(1), Report::Dimmed)),
            ScreenState::Dim => Ok(nothing_written(Report::Quiet)),
        },
        Command::Cycle => match state {
            ScreenState::On => Ok(backed_up(current, 1, Report::CycledToDim)),
            ScreenState::Dim => Ok(written(Some(0), Report::CycledToOff)),
            ScreenState::Off => restored(backup, Report::CycledToOn),
        },
    }
}

/// `off` while the screen is off writes nothing and reports that the screen
/// is already off.
pub proof fn lemma_off_when_off(backup: Option<i16>, cfg: Config)
    ensures
        outcome_of(Command::Off, 0, backup, cfg) == Ok::<Outcome, Fatal>(
            report_only(Report::AlreadyOff),
        ),
{
}

/// `on` while the screen is on writes nothing and reports that the screen is
/// already on.
pub proof fn lemma_on_when_on(current: i16, backup: Option<i16>, cfg: Config)
    requires
        state_of(current as int) == ScreenState::On,
    ensures
        outcome_of(Command::On, current, backup, cfg) == Ok::<Outcome, Fatal>(
            report_only(Report::AlreadyOn),
        ),
{
}

/// Turning the screen off writes 0 and backs up the brightness it had; turning
/// it on again right after brings that brightness back.
pub proof fn lemma_off_then_on(current: i16, backup: Option<i16>, cfg: Config)
    requires
        current != 0,
    ensures
        ({
            let off = outcome_of(Command::Off, current, backup, cfg);
            &&& off is Ok
            &&& off->Ok_0.brightness == Some(0i16)
            &&& off->Ok_0.backup == Some(current)
            &&& backup_after(backup, off->Ok_0) == Some(current)
            &&& outcome_of(Command::On, 0, backup_after(backup, off->Ok_0), cfg) == Ok::<
                Outcome,
                Fatal,
            >(write_only(Some(current), Report::ScreenOn))
        }),
{
    lemma_text_round_trip(current);
}

/// Three `cycle` commands from a screen that is on go on to dim, then off,
/// then back on at the brightness it started with.
pub proof fn lemma_cycle_closure(current: i16, backup: Option<i16>, cfg: Config)
    requires
        state_of(current as int) == ScreenState::On,
    ensures
        ({
            let first = outcome_of(Command::Cycle, current, backup, cfg);
            let b1 = brightness_after(current, first->Ok_0);
            let k1 = backup_after(backup, first->Ok_0);
            let second = outcome_of(Command::Cycle, b1, k1, cfg);
            let b2 = brightness_after(b1, second->Ok_0);
            let k2 = backup_after(k1, second->Ok_0);
            let third = outcome_of(Command::Cycle, b2, k2, cfg);
            &&& first is Ok && second is Ok && third is Ok
            &&& state_of(b1 as int) == ScreenState::Dim
            &&& state_of(b2 as int) == ScreenState::Off
            &&& brightness_after(b2, third->Ok_0) == current
        }),
{
    lemma_text_round_trip(current);
}

} // verus!
