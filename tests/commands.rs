use screenpadctl::command::{parse_command, same_text, ArgError, Command};
use screenpadctl::config::{Config, Increment};
use screenpadctl::control::{execute, Fatal, Outcome, Report};
use screenpadctl::text::{decimal_chars, stored_brightness};

fn args(words: &[&str]) -> Vec<String> {
    let mut v = vec!["screenpadctl".to_string()];
    for w in words {
        v.push(w.to_string());
    }
    v
}

fn text_of(v: i16) -> String {
    decimal_chars(v).into_iter().collect()
}

fn quiet(report: Report) -> Outcome {
    Outcome { brightness: None, backup: None, config: None, report }
}

#[test]
fn default_config_increments() {
    let cfg = Config::default();
    assert_eq!(cfg.positive_increment, 15);
    assert_eq!(cfg.negative_increment, -15);
    assert_eq!(cfg.increment(Increment::Positive), 15);
    assert_eq!(cfg.increment(Increment::Negative), -15);
}

#[test]
fn set_increment_changes_one_field() {
    let mut cfg = Config::default();
    cfg.set_increment(Increment::Negative, -40);
    assert_eq!(cfg, Config { positive_increment: 15, negative_increment: -40 });
}

#[test]
fn same_text_compares_whole_words() {
    assert!(same_text("bup", "bup"));
    assert!(!same_text("bu", "bup"));
    assert!(!same_text("bup", "bdn"));
    assert!(same_text("", ""));
}

#[test]
fn command_words() {
    assert_eq!(parse_command(&args(&["b"])), Ok(Command::Show));
    assert_eq!(parse_command(&args(&["bup"])), Ok(Command::Up));
    assert_eq!(parse_command(&args(&["bdown"])), Ok(Command::Down));
    assert_eq!(parse_command(&args(&["on"])), Ok(Command::On));
    assert_eq!(parse_command(&args(&["off"])), Ok(Command::Off));
    assert_eq!(parse_command(&args(&["toggle"])), Ok(Command::Toggle));
    assert_eq!(parse_command(&args(&["dim"])), Ok(Command::Dim));
    assert_eq!(parse_command(&args(&["cycle"])), Ok(Command::Cycle));
    assert_eq!(parse_command(&args(&["help"])), Ok(Command::Help));
    assert_eq!(parse_command(&args(&["bset", "0"])), Ok(Command::SetBrightness(0)));
    assert_eq!(parse_command(&args(&["bset", "255"])), Ok(Command::SetBrightness(255)));
    assert_eq!(
        parse_command(&args(&["bconfig", "neg", "-20"])),
        Ok(Command::Configure(Increment::Negative, -20))
    );
}

#[test]
fn command_line_errors() {
    assert_eq!(parse_command(&args(&[])), Err(ArgError::NoCommand));
    assert_eq!(parse_command(&args(&["bconfig"])), Err(ArgError::NoIncrementTarget));
    assert_eq!(parse_command(&args(&["bconfig", "pos"])), Err(ArgError::NoIncrementValue));
    assert_eq!(parse_command(&args(&["bconfig", "pos", "x"])), Err(ArgError::IncrementNotInteger));
    assert_eq!(parse_command(&args(&["bconfig", "up", "x"])), Err(ArgError::IncrementNotInteger));
    assert_eq!(parse_command(&args(&["bconfig", "up", "5"])), Err(ArgError::UnknownIncrementTarget));
    assert_eq!(parse_command(&args(&["bset"])), Err(ArgError::NoBrightnessValue));
    assert_eq!(parse_command(&args(&["bset", "ten"])), Err(ArgError::BrightnessNotInteger));
    assert_eq!(parse_command(&args(&["bset", "40000"])), Err(ArgError::BrightnessNotInteger));
    assert_eq!(parse_command(&args(&["bset", "-1"])), Err(ArgError::BrightnessOutOfRange));
    assert_eq!(parse_command(&args(&["brightness"])), Err(ArgError::UnknownCommand));
}

#[test]
fn bset_out_of_range_is_rejected_before_any_write() {
    assert_eq!(parse_command(&args(&["bset", "300"])), Err(ArgError::BrightnessOutOfRange));
    assert_eq!(parse_command(&args(&["bset", "256"])), Err(ArgError::BrightnessOutOfRange));
}

#[test]
fn bconfig_pos_then_reload_reads_back() {
    let cmd = parse_command(&args(&["bconfig", "pos", "30"])).unwrap();
    assert_eq!(cmd, Command::Configure(Increment::Positive, 30));
    let out = execute(cmd, 100, None, Config::default()).unwrap();
    let saved = out.config.unwrap();
    assert_eq!(saved.positive_increment, 30);
    assert_eq!(saved.negative_increment, -15);
    assert_eq!(out.brightness, None);
    assert_eq!(out.report, Report::IncrementSet(Increment::Positive, 30));
}

#[test]
fn show_and_help_write_nothing() {
    let cfg = Config::default();
    assert_eq!(execute(Command::Show, 77, None, cfg), Ok(quiet(Report::Brightness(77))));
    assert_eq!(execute(Command::Help, 77, None, cfg), Ok(quiet(Report::Usage)));
}

#[test]
fn up_and_down_use_configured_steps() {
    let cfg = Config { positive_increment: 20, negative_increment: -30 };
    let up = execute(Command::Up, 100, None, cfg).unwrap();
    assert_eq!(up.brightness, Some(120));
    assert_eq!(up.report, Report::BrightnessUp);
    let down = execute(Command::Down, 100, None, cfg).unwrap();
    assert_eq!(down.brightness, Some(70));
    assert_eq!(down.report, Report::BrightnessDown);
    let blocked = execute(Command::Up, 250, None, cfg).unwrap();
    assert_eq!(blocked.brightness, None);
    assert_eq!(blocked.backup, None);
}

#[test]
fn off_when_already_off_writes_nothing() {
    assert_eq!(
        execute(Command::Off, 0, Some(80), Config::default()),
        Ok(quiet(Report::AlreadyOff))
    );
}

#[test]
fn on_when_already_on_writes_nothing() {
    assert_eq!(
        execute(Command::On, 120, Some(80), Config::default()),
        Ok(quiet(Report::AlreadyOn))
    );
}

#[test]
fn on_without_backup_cannot_complete() {
    assert_eq!(execute(Command::On, 0, None, Config::default()), Err(Fatal::NoBackup));
    assert_eq!(execute(Command::Toggle, 0, None, Config::default()), Err(Fatal::NoBackup));
    assert_eq!(execute(Command::Cycle, 0, None, Config::default()), Err(Fatal::NoBackup));
}

#[test]
fn off_then_on_scenario() {
    let cfg = Config::default();
    let off = execute(Command::Off, 50, None, cfg).unwrap();
    assert_eq!(off.report, Report::ScreenOff);
    let control = text_of(off.brightness.unwrap());
    let backup = text_of(off.backup.unwrap());
    assert_eq!(control, "0");
    assert_eq!(backup, "50");
    let current = stored_brightness(&control).unwrap();
    let on = execute(Command::On, current, stored_brightness(&backup), cfg).unwrap();
    assert_eq!(on.report, Report::ScreenOn);
    assert_eq!(on.backup, None);
    assert_eq!(text_of(on.brightness.unwrap()), "50");
}

#[test]
fn cycle_three_times_returns_to_start() {
    let cfg = Config::default();
    let mut current: i16 = 180;
    let mut backup: Option<i16> = Some(9);
    let mut reports = Vec::new();
    for _ in 0..3 {
        let out = execute(Command::Cycle, current, backup, cfg).unwrap();
        if let Some(v) = out.backup {
            backup = stored_brightness(&text_of(v));
        }
        if let Some(v) = out.brightness {
            current = v;
        }
        reports.push(out.report);
    }
    assert_eq!(current, 180);
    assert_eq!(reports, vec![Report::CycledToDim, Report::CycledToOff, Report::CycledToOn]);
}

#[test]
fn toggle_between_on_and_off() {
    let cfg = Config::default();
    let off = execute(Command::Toggle, 90, None, cfg).unwrap();
    assert_eq!((off.brightness, off.backup, off.report), (Some(0), Some(90), Report::ToggledOff));
    let on = execute(Command::Toggle, 0, Some(90), cfg).unwrap();
    assert_eq!((on.brightness, on.backup, on.report), (Some(90), None, Report::ToggledOn));
}

#[test]
fn toggle_while_dim_does_nothing() {
    assert_eq!(
        execute(Command::Toggle, 1, Some(90), Config::default()),
        Ok(quiet(Report::Quiet))
    );
}

#[test]
fn dim_from_each_state() {
    let cfg = Config::default();
    let from_on = execute(Command::Dim, 200, None, cfg).unwrap();
    assert_eq!((from_on.brightness, from_on.backup), (Some(1), Some(200)));
    assert_eq!(from_on.report, Report::Dimmed);
    let from_off = execute(Command::Dim, 0, Some(200), cfg).unwrap();
    assert_eq!((from_off.brightness, from_off.backup), (Some(1), None));
    assert_eq!(execute(Command::Dim, 1, None, cfg), Ok(quiet(Report::Quiet)));
}

#[test]
fn set_brightness_writes_value() {
    let out = execute(Command::SetBrightness(42), 200, None, Config::default()).unwrap();
    assert_eq!(out.brightness, Some(42));
    assert_eq!(out.backup, None);
    assert_eq!(out.report, Report::BrightnessSet(42));
}
