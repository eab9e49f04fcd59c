//! Reading the command line into one command.
use vstd::prelude::*;
use crate::brightness::in_range;
use crate::config::Increment;
use crate::text::{i16_of, parse_i16};

verus! {

/// One operation of the controller.
#[derive(Clone, Copy, Debug, PartialEq, Eq, Structural)]
pub enum Command {
    /// Report the current brightness.
    Show,
    /// Step the brightness by the positive increment.
    Up,
    /// Step the brightness by the negative increment.
    Down,
    /// Set and persist one of the increments.
    Configure(Increment, i16),
    /// Write a brightness in `[0, 255]` directly.
    SetBrightness(i16),
    On,
    Off,
    Toggle,
    Dim,
    Cycle,
    Help,
}

/// Why a command line names no command to run.
#[derive(Clone, Copy, Debug, PartialEq, Eq, Structural)]
pub enum ArgError {
    /// No command word at all.
    NoCommand,
    /// `bconfig` without `pos` or `neg`.
    NoIncrementTarget,
    /// `bconfig pos|neg` without a value.
    NoIncrementValue,
    /// The value given to `bconfig` is not an `i16`; the run cannot go on.
    IncrementNotInteger,
    /// `bconfig` names something other than `pos` or `neg`.
    UnknownIncrementTarget,
    /// `bset` without a value.
    NoBrightnessValue,
    /// The value given to `bset` is not an `i16`.
    BrightnessNotInteger,
    /// The value given to `bset` lies outside `[0, 255]`.
    BrightnessOutOfRange,
    /// The command word is not one of the known commands.
    UnknownCommand,
}

/// What `bconfig <target> <value>` asks for, given its two words.
pub open spec fn configure_of(target: Seq<char>, value: Seq<char>) -> Result<Command, ArgError> {
    match i16_of(value) {
        None => Err(ArgError::IncrementNotInteger),
        Some(v) => if target == "pos"@ {
            Ok(Command::Configure(Increment::Positive, v))
        } else if target == "neg"@ {
            Ok(Command::Configure(Increment::Negative, v))
        } else {
            Err(ArgError::UnknownIncrementTarget)
        },
    }
}

/// What `bset <value>` asks for, given its word.
pub open spec fn set_of(value: Seq<char>) -> Result<Command, ArgError> {
    match i16_of(value) {
        None => Err(ArgError::BrightnessNotInteger),
        Some(v) => if in_range(v as int) {
            Ok(Command::SetBrightness(v))
        } else {
            Err(ArgError::BrightnessOutOfRange)
        },
    }
}

/// The command that a command line (program name first) asks for.
pub open spec fn command_of(args: Seq<Seq<char>>) -> Result<Command, ArgError> {
    if args.len() < 2 {
        Err(ArgError::NoCommand)
    } else {
        let word = args[1];
        if word == "b"@ {
            Ok(Command::Show)
        } else if word == "bup"@ {
            Ok(Command::Up)
        } else if word == "bdown"@ {
            Ok(Command::Down)
        } else if word == "bconfig"@ {
            if args.len() <= 2 {
                Err(ArgError::NoIncrementTarget)
            } else if args.len() <= 3 {
                Err(ArgError::NoIncrementValue)
            } else {
                configure_of(args[2], args[3])
            }
        } else if word == "bset"@ {
            if args.len() <= 2 {
                Err(ArgError::NoBrightnessValue)
            } else {
                set_of(args[2])
            }
        } else if word == "on"@ {
            Ok(Command::On)
        } else if word == "off"@ {
            Ok(Command::Off)
        } else if word == "toggle"@ {
            Ok(Command::Toggle)
        } else if word == "dim"@ {
            Ok(Command::Dim)
        } else if word == "cycle"@ {
            Ok(Command::Cycle)
        } else if word == "help"@ {
            Ok(Command::Help)
        } else {
            Err(ArgError::UnknownCommand)
        }
    }
}

/// The texts of a list of arguments.
pub open spec fn texts(args: Seq<String>) -> Seq<Seq<char>> {
    args.map_values(|a: String| a@)
}

/// Whether `s` and `w` are the same text.
pub fn same_text(s: &str, w: &str) -> (r: bool)
    ensures
        r == (s@ == w@),
{
    let n = s.unicode_len();
    if n != w.unicode_len() {
        return false;
    }
    let mut i: usize = 0;
    while i < n
        invariant
            i <= n,
            n == s@.len(),
            n == w@.len(),
            s@.subrange(0, i as int) == w@.subrange(0, i as int),
        decreases n - i,
    {
        if s.get_char(i) != w.get_char(i) {
            return false;
        }
        assert(s@.subrange(0, i + 1) =~= s@.subrange(0, i as int).push(s@[i as int]));
        assert(w@.subrange(0, i + 1) =~= w@.subrange(0, i as int).push(w@[i as int]));
        i = i + 1;
    }
    assert(s@ =~= s@.subrange(0, n as int));
    assert(w@ =~= w@.subrange(0, n as int));
    true
}

fn configure_command(target: &str, value: &str) -> (r: Result<Command, ArgError>)
    ensures
        r == configure_of(target@, value@),
{
    match parse_i16(value) {
        None => Err(ArgError::IncrementNotInteger),
        Some(v) => if same_text(target, "pos") {
            Ok(Command::Configure(Increment::Positive, v))
        } else if same_text(target, "neg") {
            Ok(Command::Configure(Increment::Negative, v))
        } else {
            Err(ArgError::UnknownIncrementTarget)
        },
    }
}

fn set_command(value: &str) -> (r: Result<Command, ArgError>)
    ensures
        r == set_of(value@),
{
    match parse_i16(value) {
        None => Err(ArgError::BrightnessNotInteger),
        Some(v) => if 0 <= v && v <= 255 {
            Ok(Command::SetBrightness(v))
        } else {
            Err(ArgError::BrightnessOutOfRange)
        },
    }
}

/// Reads a command line, program name first, into the command it asks for.
pub fn parse_command(args: &Vec<String>) -> (r: Result<Command, ArgError>)
    ensures
        r == command_of(texts(args@)),
{
    let ghost a = texts(args@);
    assert(a.len() == args@.len());
    if args.len() < 2 {
        return Err(ArgError::NoCommand);
    }
    let word = args[1].as_str();
    assert(word@ == a[1]);
    if same_text(word, "b") {
        Ok(Command::Show)
    } else if same_text(word, "bup") {
        Ok(Command::Up)
    } else if same_text(word, "bdown") {
        Ok(Command::Down)
    } else if same_text(word, "bconfig") {
        if args.len() <= 2 {
            Err(ArgError::NoIncrementTarget)
        } else if args.len() <= 3 {
            Err(ArgError::NoIncrementValue)
        } else {
            assert(args[2]@ == a[2] && args[3]@ == a[3]);
            configure_command(args[2].as_str(), args[3].as_str())
        }
    } else if same_text(word, "bset") {
        if args.len() <= 2 {
            Err(ArgError::NoBrightnessValue)
        } else {
            assert(args[2]@ == a[2]);
            set_command(args[2].as_str())
        }
    } else if same_text(word, "on") {
        Ok(Command::On)
    } else if same_text(word, "off") {
        Ok(Command::Off)
    } else if same_text(word, "toggle") {
        Ok(Command::Toggle)
    } else if same_text(word, "dim") {
        Ok(Command::Dim)
    } else if same_text(word, "cycle") {
        Ok(Command::Cycle)
    } else if same_text(word, "help") {
        Ok(Command::Help)
    } else {
        Err(ArgError::UnknownCommand)
    }
}

/// `bset` with a value outside `[0, 255]` is refused while the command line
/// is read, so no command that writes the brightness comes of it.
pub proof fn lemma_set_out_of_range_refused(program: Seq<char>, value: Seq<char>)
    requires
        i16_of(value) is Some,
        !in_range(i16_of(value)->Some_0 as int),
    ensures
        command_of(seq![program, "bset"@, value]) == Err::<Command, ArgError>(
            ArgError::BrightnessOutOfRange,
        ),
{
    let args = seq![program, "bset"@, value];
    assert(args[1] == "bset"@);
    assert("bset"@ != "b"@) by {
        reveal_strlit("bset");
        reveal_strlit("b");
    }
    assert("bset"@ != "bup"@) by {
        reveal_strlit("bset");
        reveal_strlit("bup");
        assert("bset"@[1] != "bup"@[1]);
    }
    assert("bset"@ != "bdown"@) by {
        reveal_strlit("bset");
        reveal_strlit("bdown");
    }
    assert("bset"@ != "bconfig"@) by {
        reveal_strlit("bset");
        reveal_strlit("bconfig");
    }
}

} // verus!
