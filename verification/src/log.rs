//! The console-log relay: engine-native log records become text lines.
//!
//! The engine reports a diagnostic as two numbers (level and source), two
//! UTF-16 strings (message and source identifier) and a position. The relay
//! maps the numbers to symbolic values, decodes the strings, and renders one
//! line. Nothing here can fail: an unknown number maps to `Unknown`, and text
//! that does not decode is replaced by a fixed placeholder.

use vstd::prelude::*;
use vstd::string::*;
use crate::handles::ViewHandle;

verus! {

/// The engine's number for the level "log".
pub const MESSAGE_LEVEL_LOG: u32 = 1;
/// The engine's number for the level "warning".
pub const MESSAGE_LEVEL_WARNING: u32 = 2;
/// The engine's number for the level "error".
pub const MESSAGE_LEVEL_ERROR: u32 = 3;
/// The engine's number for the level "debug".
pub const MESSAGE_LEVEL_DEBUG: u32 = 4;
/// The engine's number for the level "info".
pub const MESSAGE_LEVEL_INFO: u32 = 5;

/// The engine's number for the source "xml".
pub const MESSAGE_SOURCE_XML: u32 = 0;
/// The engine's number for the source "js".
pub const MESSAGE_SOURCE_JS: u32 = 1;
/// The engine's number for the source "network".
pub const MESSAGE_SOURCE_NETWORK: u32 = 2;
/// The engine's number for the source "consoleapi".
pub const MESSAGE_SOURCE_CONSOLE_API: u32 = 3;
/// The engine's number for the source "storage".
pub const MESSAGE_SOURCE_STORAGE: u32 = 4;
/// The engine's number for the source "appcache".
pub const MESSAGE_SOURCE_APP_CACHE: u32 = 5;
/// The engine's number for the source "rendering".
pub const MESSAGE_SOURCE_RENDERING: u32 = 6;
/// The engine's number for the source "css".
pub const MESSAGE_SOURCE_CSS: u32 = 7;
/// The engine's number for the source "security".
pub const MESSAGE_SOURCE_SECURITY: u32 = 8;
/// The engine's number for the source "contentblocker".
pub const MESSAGE_SOURCE_CONTENT_BLOCKER: u32 = 9;
/// The engine's number for the source "other".
pub const MESSAGE_SOURCE_OTHER: u32 = 10;

/// How severe a diagnostic is.
#[derive(Clone, Copy, Debug, PartialEq, Eq, Structural)]
pub enum LogLevel {
    Log,
    Warning,
    Error,
    Debug,
    Info,
    Unknown,
}

/// Which part of the engine produced a diagnostic.
#[derive(Clone, Copy, Debug, PartialEq, Eq, Structural)]
pub enum LogSource {
    Xml,
    Js,
    Network,
    ConsoleApi,
    Storage,
    AppCache,
    Rendering,
    Css,
    Security,
    ContentBlocker,
    Other,
    Unknown,
}

impl LogLevel {
    /// The level that an engine number stands for.
    pub open spec fn of_native(level: u32) -> LogLevel {
        if level == MESSAGE_LEVEL_LOG {
            LogLevel::Log
        } else if level == MESSAGE_LEVEL_WARNING {
            LogLevel::Warning
        } else if level == MESSAGE_LEVEL_ERROR {
            LogLevel::Error
        } else if level == MESSAGE_LEVEL_DEBUG {
            LogLevel::Debug
        } else if level == MESSAGE_LEVEL_INFO {
            LogLevel::Info
        } else {
            LogLevel::Unknown
        }
    }

    /// The engine number of a named level; `Unknown` has none.
    pub open spec fn native(self) -> Option<u32> {
        match self {
            LogLevel::Log => Some(MESSAGE_LEVEL_LOG),
            LogLevel::Warning => Some(MESSAGE_LEVEL_WARNING),
            LogLevel::Error => Some(MESSAGE_LEVEL_ERROR),
            LogLevel::Debug => Some(MESSAGE_LEVEL_DEBUG),
            LogLevel::Info => Some(MESSAGE_LEVEL_INFO),
            LogLevel::Unknown => None,
        }
    }

    /// The text a level is printed as.
    pub open spec fn name_text(self) -> Seq<char> {
        match self {
            LogLevel::Log => "log"@,
            LogLevel::Warning => "warning"@,
            LogLevel::Error => "error"@,
            LogLevel::Debug => "debug"@,
            LogLevel::Info => "info"@,
            LogLevel::Unknown => "unknown"@,
        }
    }

    /// Maps an engine number to its level. Numbers the engine does not define
    /// give `Unknown`.
    pub fn from_native(level: u32) -> (mapped: LogLevel)
        ensures
            mapped == Self::of_native(level),
    {
        if level == MESSAGE_LEVEL_LOG {
            LogLevel::Log
        } else if level == MESSAGE_LEVEL_WARNING {
            LogLevel::Warning
        } else if level == MESSAGE_LEVEL_ERROR {
            LogLevel::Error
        } else if level == MESSAGE_LEVEL_DEBUG {
            LogLevel::Debug
        } else if level == MESSAGE_LEVEL_INFO {
            LogLevel::Info
        } else {
            LogLevel::Unknown
        }
    }

    /// The text a level is printed as.
    pub fn name(self) -> (text: &'static str)
        ensures
            text@ == self.name_text(),
    {
        match self {
            LogLevel::Log => "log",
            LogLevel::Warning => "warning",
            LogLevel::Error => "error",
            LogLevel::Debug => "debug",
            LogLevel::Info => "info",
            LogLevel::Unknown => "unknown",
        }
    }
}

impl LogSource {
    /// The source that an engine number stands for.
    pub open spec fn of_native(source: u32) -> LogSource {
        if source == MESSAGE_SOURCE_XML {
            LogSource::Xml
        } else if source == MESSAGE_SOURCE_JS {
            LogSource::Js
        } else if source == MESSAGE_SOURCE_NETWORK {
            LogSource::Network
        } else if source == MESSAGE_SOURCE_CONSOLE_API {
            LogSource::ConsoleApi
        } else if source == MESSAGE_SOURCE_STORAGE {
            LogSource::Storage
        } else if source == MESSAGE_SOURCE_APP_CACHE {
            LogSource::AppCache
        } else if source == MESSAGE_SOURCE_RENDERING {
            LogSource::Rendering
        } else if source == MESSAGE_SOURCE_CSS {
            LogSource::Css
        } else if source == MESSAGE_SOURCE_SECURITY {
            LogSource::Security
        } else if source == MESSAGE_SOURCE_CONTENT_BLOCKER {
            LogSource::ContentBlocker
        } else if source == MESSAGE_SOURCE_OTHER {
            LogSource::Other
        } else {
            LogSource::Unknown
        }
    }

    /// The engine number of a named source; `Unknown` has none.
    pub open spec fn native(self) -> Option<u32> {
        match self {
            LogSource::Xml => Some(MESSAGE_SOURCE_XML),
            LogSource::Js => Some(MESSAGE_SOURCE_JS),
            LogSource::Network => Some(MESSAGE_SOURCE_NETWORK),
            LogSource::ConsoleApi => Some(MESSAGE_SOURCE_CONSOLE_API),
            LogSource::Storage => Some(MESSAGE_SOURCE_STORAGE),
            LogSource::AppCache => Some(MESSAGE_SOURCE_APP_CACHE),
            LogSource::Rendering => Some(MESSAGE_SOURCE_RENDERING),
            LogSource::Css => Some(MESSAGE_SOURCE_CSS),
            LogSource::Security => Some(MESSAGE_SOURCE_SECURITY),
            LogSource::ContentBlocker => Some(MESSAGE_SOURCE_CONTENT_BLOCKER),
            LogSource::Other => Some(MESSAGE_SOURCE_OTHER),
            LogSource::Unknown => None,
        }
    }

    /// The text a source is printed as.
    pub open spec fn name_text(self) -> Seq<char> {
        match self {
            LogSource::Xml => "xml"@,
            LogSource::Js => "js"@,
            LogSource::Network => "network"@,
            LogSource::ConsoleApi => "consoleapi"@,
            LogSource::Storage => "storage"@,
            LogSource::AppCache => "appcache"@,
            LogSource::Rendering => "rendering"@,
            LogSource::Css => "css"@,
            LogSource::Security => "security"@,
            LogSource::ContentBlocker => "contentblocker"@,
            LogSource::Other => "other"@,
            LogSource::Unknown => "unknown"@,
        }
    }

    /// Maps an engine number to its source. Numbers the engine does not define
    /// give `Unknown`.
    pub fn from_native(source: u32) -> (mapped: LogSource)
        ensures
            mapped == Self::of_native(source),
    {
        if source == MESSAGE_SOURCE_XML {
            LogSource::Xml
        } else if source == MESSAGE_SOURCE_JS {
            LogSource::Js
        } else if source == MESSAGE_SOURCE_NETWORK {
            LogSource::Network
        } else if source == MESSAGE_SOURCE_CONSOLE_API {
            LogSource::ConsoleApi
        } else if source == MESSAGE_SOURCE_STORAGE {
            LogSource::Storage
        } else if source == MESSAGE_SOURCE_APP_CACHE {
            LogSource::AppCache
        } else if source == MESSAGE_SOURCE_RENDERING {
            LogSource::Rendering
        } else if source == MESSAGE_SOURCE_CSS {
            LogSource::Css
        } else if source == MESSAGE_SOURCE_SECURITY {
            LogSource::Security
        } else if source == MESSAGE_SOURCE_CONTENT_BLOCKER {
            LogSource::ContentBlocker
        } else if source == MESSAGE_SOURCE_OTHER {
            LogSource::Other
        } else {
            LogSource::Unknown
        }
    }

    /// The text a source is printed as.
    pub fn name(self) -> (text: &'static str)
        ensures
            text@ == self.name_text(),
    {
        match self {
            LogSource::Xml => "xml",
            LogSource::Js => "js",
            LogSource::Network => "network",
            LogSource::ConsoleApi => "consoleapi",
            LogSource::Storage => "storage",
            LogSource::AppCache => "appcache",
            LogSource::Rendering => "rendering",
            LogSource::Css => "css",
            LogSource::Security => "security",
            LogSource::ContentBlocker => "contentblocker",
            LogSource::Other => "other",
            LogSource::Unknown => "unknown",
        }
    }
}

/// The level mapping is total and exact: a named level is what its own engine
/// number maps to, and a number that belongs to no named level maps to
/// `Unknown`.
pub proof fn law_level_mapping_total(level: LogLevel, number: u32)
    ensures
        level.native() matches Some(n) ==> LogLevel::of_native(n) == level,
        LogLevel::of_native(number) != LogLevel::Unknown ==> LogLevel::of_native(number).native()
            == Some(number),
        LogLevel::of_native(number) == LogLevel::Unknown <==> !(1 <= number <= 5),
{
}

/// The source mapping is total and exact: a named source is what its own
/// engine number maps to, and a number that belongs to no named source maps
/// to `Unknown`.
pub proof fn law_source_mapping_total(source: LogSource, number: u32)
    ensures
        source.native() matches Some(n) ==> LogSource::of_native(n) == source,
        LogSource::of_native(number) != LogSource::Unknown ==> LogSource::of_native(
            number,
        ).native() == Some(number),
        LogSource::of_native(number) == LogSource::Unknown <==> number > 10,
{
}

/// A UTF-16 code unit that is half of a surrogate pair.
pub open spec fn is_surrogate(unit: u16) -> bool {
    0xD800 <= unit <= 0xDFFF
}

/// A code unit that opens a surrogate pair.
pub open spec fn is_lead(unit: u16) -> bool {
    0xD800 <= unit <= 0xDBFF
}

/// A code unit that closes a surrogate pair.
pub open spec fn is_trail(unit: u16) -> bool {
    0xDC00 <= unit <= 0xDFFF
}

/// The code point that a surrogate pair encodes.
pub open spec fn pair_scalar(lead: u16, trail: u16) -> int {
    0x10000 + (lead - 0xD800) * 0x400 + (trail - 0xDC00)
}

/// `prefix` followed by `rest`, where there is a `rest`.
pub open spec fn prepend(prefix: Seq<char>, rest: Option<Seq<char>>) -> Option<Seq<char>> {
    match rest {
        Some(tail) => Some(prefix + tail),
        None => None,
    }
}

/// The text that a sequence of UTF-16 code units encodes, or `None` where the
/// sequence is ill-formed: a trail unit with no lead before it, or a lead unit
/// with no trail after it.
pub open spec fn decode_wide(units: Seq<u16>) -> Option<Seq<char>>
    decreases units.len(),
{
    if units.len() == 0 {
        Some(Seq::empty())
    } else if !is_surrogate(units[0]) {
        prepend(seq![units[0] as char], decode_wide(units.skip(1)))
    } else if is_lead(units[0]) && units.len() >= 2 && is_trail(units[1]) {
        prepend(seq![pair_scalar(units[0], units[1]) as char], decode_wide(units.skip(2)))
    } else {
        None
    }
}

/// What is printed in place of text that does not decode.
pub open spec fn placeholder_text() -> Seq<char> {
    "!parsing failed!"@
}

/// The text of an engine string as the relay prints it: its decoding, or the
/// placeholder.
pub open spec fn relayed_text(units: Seq<u16>) -> Seq<char> {
    match decode_wide(units) {
        Some(text) => text,
        None => placeholder_text(),
    }
}

/// The character of one decimal digit.
pub open spec fn digit_char(digit: nat) -> char {
    (48 + digit) as char
}

/// A number in decimal, without leading zeros.
pub open spec fn decimal(n: nat) -> Seq<char>
    decreases n,
{
    if n < 10 {
        seq![digit_char(n)]
    } else {
        decimal(n / 10).push(digit_char(n % 10))
    }
}

/// The line that the relay prints for one diagnostic:
/// `[level] [source] message (source_id:line:column)`.
pub open spec fn log_line(
    level: LogLevel,
    source: LogSource,
    message: Seq<char>,
    source_id: Seq<char>,
    line: u32,
    column: u32,
) -> Seq<char> {
    "["@ + level.name_text() + "] ["@ + source.name_text() + "] "@ + message + " ("@ + source_id
        + ":"@ + decimal(line as nat) + ":"@ + decimal(column as nat) + ")"@
}

/// `String::push` of std: appends one character to the end of the string.
pub assume_specification[ String::push ](text: &mut String, c: char)
    ensures
        final(text)@ == old(text)@.push(c),
;

/// `char::from_u32` of std: the character with the given code point, or
/// `None` where the number is no Unicode scalar value (a surrogate, or above
/// 0x10FFFF).
pub assume_specification[ char::from_u32 ](i: u32) -> (c: Option<char>)
    ensures
        c == if i <= 0xD7FF || (0xE000 <= i <= 0x10FFFF) {
            Some(i as char)
        } else {
            None
        },
;

/// Decodes UTF-16 text. Returns `None` exactly where the code units are
/// ill-formed.
pub fn decode_wide_text(units: &[u16]) -> (decoded: Option<String>)
    ensures
        match decoded {
            Some(text) => decode_wide(units@) == Some(text@),
            None => decode_wide(units@) is None,
        },
{
    let mut out = String::new();
    let mut i: usize = 0;
    assert(units@.skip(0) =~= units@);
    while i < units.len()
        invariant
            0 <= i <= units@.len(),
            decode_wide(units@) == prepend(out@, decode_wide(units@.skip(i as int))),
        decreases units@.len() - i,
    {
        let ghost rest = units@.skip(i as int);
        let unit: u16 = units[i];
        if unit < 0xD800 || unit > 0xDFFF {
            match char::from_u32(unit as u32) {
                Some(c) => {
                    out.push(c);
                },
                None => {
                    return None;
                },
            }
            assert(rest.skip(1) =~= units@.skip(i + 1));
            i += 1;
        } else if unit <= 0xDBFF && i + 1 < units.len() && 0xDC00 <= units[i + 1] && units[i + 1]
            <= 0xDFFF {
            let trail: u16 = units[i + 1];
            let high: u32 = (unit - 0xD800) as u32;
            let low: u32 = (trail - 0xDC00) as u32;
            let scalar: u32 = 0x10000 + high * 0x400 + low;
            match char::from_u32(scalar) {
                Some(c) => {
                    out.push(c);
                },
                None => {
                    return None;
                },
            }
            assert(rest.skip(2) =~= units@.skip(i + 2));
            i += 2;
        } else {
            return None;
        }
    }
    Some(out)
}

/// The text of an engine string as the relay prints it. Ill-formed text is
/// not an error: the placeholder stands in for it.
pub fn decode_or_placeholder(units: &[u16]) -> (text: String)
    ensures
        text@ == relayed_text(units@),
{
    match decode_wide_text(units) {
        Some(text) => text,
        None => "!parsing failed!".to_owned(),
    }
}

/// Appends `n` in decimal to `out`.
pub fn push_decimal(out: &mut String, n: u32)
    ensures
        final(out)@ == old(out)@ + decimal(n as nat),
    decreases n,
{
    if n >= 10 {
        push_decimal(out, n / 10);
    }
    let digit: u8 = (n % 10) as u8;
    let c: char = (48u8 + digit) as char;
    out.push(c);
}

/// One diagnostic of the engine, decoded.
pub struct LogRecord {
    pub level: LogLevel,
    pub source: LogSource,
    pub message: String,
    pub source_id: String,
    pub line: u32,
    pub column: u32,
}

impl LogRecord {
    /// Builds a record from what the engine hands to its console callback.
    pub fn from_native(
        source: u32,
        level: u32,
        message: &[u16],
        line_number: u32,
        column_number: u32,
        source_id: &[u16],
    ) -> (record: LogRecord)
        ensures
            record.level == LogLevel::of_native(level),
            record.source == LogSource::of_native(source),
            record.message@ == relayed_text(message@),
            record.source_id@ == relayed_text(source_id@),
            record.line == line_number,
            record.column == column_number,
    {
        LogRecord {
            level: LogLevel::from_native(level),
            source: LogSource::from_native(source),
            message: decode_or_placeholder(message),
            source_id: decode_or_placeholder(source_id),
            line: line_number,
            column: column_number,
        }
    }

    /// The line this record is printed as.
    pub open spec fn line_text(&self) -> Seq<char> {
        log_line(self.level, self.source, self.message@, self.source_id@, self.line, self.column)
    }

    /// Renders the record as one line.
    pub fn format(&self) -> (line: String)
        ensures
            line@ == self.line_text(),
    {
        let mut out = "[".to_owned();
        out.append(self.level.name());
        out.append("] [");
        out.append(self.source.name());
        out.append("] ");
        out.append(self.message.as_str());
        out.append(" (");
        out.append(self.source_id.as_str());
        out.append(":");
        push_decimal(&mut out, self.line);
        out.append(":");
        push_decimal(&mut out, self.column);
        out.append(")");
        out
    }
}

/// The console callback of the relay: turns one engine diagnostic into the
/// line to report. `caller` is the view that produced the diagnostic.
///
/// Lines come out in the order of the calls; nothing is buffered.
pub fn log_forward_cb(
    caller: ViewHandle,
    source: u32,
    level: u32,
    message: &[u16],
    line_number: u32,
    column_number: u32,
    source_id: &[u16],
) -> (line: String)
    ensures
        line@ == log_line(
            LogLevel::of_native(level),
            LogSource::of_native(source),
            relayed_text(message@),
            relayed_text(source_id@),
            line_number,
            column_number,
        ),
{
    let record = LogRecord::from_native(
        source,
        level,
        message,
        line_number,
        column_number,
        source_id,
    );
    record.format()
}

} // verus!
