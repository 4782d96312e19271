use vstd::prelude::*;

use std::io::Write;
use termcolor::WriteColor;

verus! {

/// The console logging collaborator: colours each line by its severity.
pub struct LogSystem;

/// The severity classes of console lines.
pub enum LogType {
    Log,
    Subprocess,
    Success,
    Warn,
    Error,
}

/// The foreground colours the log uses.
#[derive(Clone, Copy, PartialEq, Eq, Structural, Debug)]
pub enum LogColor {
    Rgb(u8, u8, u8),
    Green,
    Yellow,
    Red,
}

/// The foreground colour of each severity; `None` is the console's default.
pub open spec fn color_of(t: LogType) -> Option<LogColor> {
    match t {
        LogType::Log => None,
        LogType::Subprocess => Some(LogColor::Rgb(100, 100, 100)),
        LogType::Success => Some(LogColor::Green),
        LogType::Warn => Some(LogColor::Yellow),
        LogType::Error => Some(LogColor::Red),
    }
}

impl LogType {
    /// The foreground colour a line of this severity is printed in.
    pub fn color(&self) -> (r: Option<LogColor>)
        ensures
            r == color_of(*self),
    {
        match self {
            LogType::Log => None,
            LogType::Subprocess => Some(LogColor::Rgb(100, 100, 100)),
            LogType::Success => Some(LogColor::Green),
            LogType::Warn => Some(LogColor::Yellow),
            LogType::Error => Some(LogColor::Red),
        }
    }
}

/// Relies on termcolor's `StandardStream` (`stdout`, `set_color`, `reset`) and
/// the standard `writeln!` macro: prints one line to standard output, in the
/// given foreground colour when one is given, and resets the colour after it.
/// Nothing is promised of the console.
#[verifier::external_body]
fn write_colored(color: Option<LogColor>, text: &str) {
    let mut stream = termcolor::StandardStream::stdout(termcolor::ColorChoice::Always);
    let c = match color {
        Some(LogColor::Rgb(r, g, b)) => Some(termcolor::Color::Rgb(r, g, b)),
        Some(LogColor::Green) => Some(termcolor::Color::Green),
        Some(LogColor::Yellow) => Some(termcolor::Color::Yellow),
        Some(LogColor::Red) => Some(termcolor::Color::Red),
        None => None,
    };
    if let Some(col) = c {
        let _ = stream.set_color(termcolor::ColorSpec::new().set_fg(Some(col)));
    }
    let _ = writeln!(&mut stream, "{}", text);
    let _ = stream.reset();
}

impl LogSystem {
    /// Writes one line at normal severity.
    pub fn log(text: String) {
        LogSystem::writeln(LogType::Log, text)
    }

    /// Writes one line of a subprocess's forwarded output.
    pub fn subprocess(text: String) {
        LogSystem::writeln(LogType::Subprocess, text)
    }

    /// Writes one line reporting a success.
    pub fn success(text: String) {
        LogSystem::writeln(LogType::Success, text)
    }

    /// Writes one warning line.
    pub fn warn(text: String) {
        LogSystem::writeln(LogType::Warn, text)
    }

    /// Writes one error line.
    pub fn err(text: String) {
        LogSystem::writeln(LogType::Error, text)
    }

    /// Writes one line in the colour of the given severity.
    pub fn writeln(log_type: LogType, text: String) {
        let color = log_type.color();
        write_colored(color, text.as_str())
    }
}

} // verus!
