//! The line model of the terminal history: commands the user entered, the
//! standard output and standard error they produced, and system
//! notifications, each stamped with a millisecond timestamp.

use vstd::prelude::*;
use vstd::string::*;

use crate::text::{fnv_from, hex_str, str_contains, u64_to_hex16, FNV_OFFSET_BASIS};
use crate::text::fnv_extend;
use crate::text::seq_contains;

verus! {

/// Notification severity level.
#[derive(Debug, Clone, Copy, PartialEq, Eq, Structural)]
pub enum NotificationLevel {
    Info,
    Warning,
    Error,
}

/// Represents a single line in the terminal history buffer.
#[derive(Debug, Clone, PartialEq, Eq)]
pub enum OutputLine {
    /// User-entered command
    Command { text: String, timestamp: u64 },
    /// Standard output from command
    Stdout { text: String, timestamp: u64 },
    /// Standard error from command
    Stderr { text: String, timestamp: u64 },
    /// System notification (e.g., "Output truncated ...")
    Notification { message: String, level: NotificationLevel, timestamp: u64 },
}

/// The mathematical shape of an output line: the same tagged union, with
/// character sequences in place of heap-allocated strings. Contracts speak
/// about lines through this model.
pub enum LineModel {
    Command { text: Seq<char>, timestamp: u64 },
    Stdout { text: Seq<char>, timestamp: u64 },
    Stderr { text: Seq<char>, timestamp: u64 },
    Notification { message: Seq<char>, level: NotificationLevel, timestamp: u64 },
}

impl View for OutputLine {
    type V = LineModel;

    open spec fn view(&self) -> LineModel {
        match self {
            OutputLine::Command { text, timestamp } => LineModel::Command {
                text: text@,
                timestamp: *timestamp,
            },
            OutputLine::Stdout { text, timestamp } => LineModel::Stdout {
                text: text@,
                timestamp: *timestamp,
            },
            OutputLine::Stderr { text, timestamp } => LineModel::Stderr {
                text: text@,
                timestamp: *timestamp,
            },
            OutputLine::Notification { message, level, timestamp } => LineModel::Notification {
                message: message@,
                level: *level,
                timestamp: *timestamp,
            },
        }
    }
}

impl LineModel {
    /// The timestamp carried by a line, whatever its kind.
    pub open spec fn timestamp(self) -> u64 {
        match self {
            LineModel::Command { timestamp, .. } => timestamp,
            LineModel::Stdout { timestamp, .. } => timestamp,
            LineModel::Stderr { timestamp, .. } => timestamp,
            LineModel::Notification { timestamp, .. } => timestamp,
        }
    }

    /// The text carried by a line: the command, the output, or the
    /// notification message.
    pub open spec fn text(self) -> Seq<char> {
        match self {
            LineModel::Command { text, .. } => text,
            LineModel::Stdout { text, .. } => text,
            LineModel::Stderr { text, .. } => text,
            LineModel::Notification { message, .. } => message,
        }
    }

    /// The CSS class a renderer uses for this kind of line.
    pub open spec fn css_class(self) -> Seq<char> {
        match self {
            LineModel::Command { .. } => "line-command"@,
            LineModel::Stdout { .. } => "line-stdout"@,
            LineModel::Stderr { .. } => "line-stderr"@,
            LineModel::Notification { .. } => "line-notification"@,
        }
    }
}

/// The models of a sequence of lines, element by element.
pub open spec fn models(v: Seq<OutputLine>) -> Seq<LineModel> {
    Seq::new(v.len(), |i: int| v[i]@)
}

/// `m` is a notification whose message contains `needle`.
pub open spec fn notification_contains(m: LineModel, needle: Seq<char>) -> bool {
    m matches LineModel::Notification { message, .. } && seq_contains(message, needle)
}

/// The short tag that starts a line's unique key, one per line kind and
/// notification level.
pub open spec fn key_prefix(m: LineModel) -> Seq<char> {
    match m {
        LineModel::Command { .. } => "cmd"@,
        LineModel::Stdout { .. } => "out"@,
        LineModel::Stderr { .. } => "err"@,
        LineModel::Notification { level, .. } => match level {
            NotificationLevel::Info => "not_info"@,
            NotificationLevel::Warning => "not_warn"@,
            NotificationLevel::Error => "not_err"@,
        },
    }
}

/// The digest mixed into a line's unique key: an FNV-1a hash over the key
/// prefix, the hexadecimal timestamp, and the line's text.
pub open spec fn key_digest(m: LineModel) -> u64 {
    fnv_from(
        fnv_from(fnv_from(FNV_OFFSET_BASIS, key_prefix(m)), hex_str(m.timestamp() as nat, 16)),
        m.text(),
    )
}

/// The full unique key of a line: prefix, timestamp and digest, separated by
/// underscores.
pub open spec fn unique_key_seq(m: LineModel) -> Seq<char> {
    key_prefix(m) + "_"@ + hex_str(m.timestamp() as nat, 16) + "_"@ + hex_str(
        key_digest(m) as nat,
        16,
    )
}

impl OutputLine {
    /// Get the timestamp of this output line.
    pub fn timestamp(&self) -> (r: u64)
        ensures
            r == self@.timestamp(),
    {
        match self {
            OutputLine::Command { timestamp, .. } => *timestamp,
            OutputLine::Stdout { timestamp, .. } => *timestamp,
            OutputLine::Stderr { timestamp, .. } => *timestamp,
            OutputLine::Notification { timestamp, .. } => *timestamp,
        }
    }

    /// Get the text content of this output line.
    pub fn text(&self) -> (r: &str)
        ensures
            r@ == self@.text(),
    {
        match self {
            OutputLine::Command { text, .. } => text.as_str(),
            OutputLine::Stdout { text, .. } => text.as_str(),
            OutputLine::Stderr { text, .. } => text.as_str(),
            OutputLine::Notification { message, .. } => message.as_str(),
        }
    }

    /// Get the CSS class for styling this line type.
    pub fn css_class(&self) -> (r: &'static str)
        ensures
            r@ == self@.css_class(),
    {
        match self {
            OutputLine::Command { .. } => "line-command",
            OutputLine::Stdout { .. } => "line-stdout",
            OutputLine::Stderr { .. } => "line-stderr",
            OutputLine::Notification { .. } => "line-notification",
        }
    }

    /// Generate a session-unique key for this output line. Combines the
    /// timestamp with a digest of the text content to reduce collisions when
    /// multiple lines share the same timestamp (millisecond resolution).
    pub fn unique_key(&self) -> (r: String)
        ensures
            r@ == unique_key_seq(self@),
    {
        let prefix: &str = match self {
            OutputLine::Command { .. } => "cmd",
            OutputLine::Stdout { .. } => "out",
            OutputLine::Stderr { .. } => "err",
            OutputLine::Notification { level, .. } => match level {
                NotificationLevel::Info => "not_info",
                NotificationLevel::Warning => "not_warn",
                NotificationLevel::Error => "not_err",
            },
        };
        let ts_hex = u64_to_hex16(self.timestamp());
        let mut digest = fnv_extend(FNV_OFFSET_BASIS, prefix);
        digest = fnv_extend(digest, ts_hex.as_str());
        digest = fnv_extend(digest, self.text());
        let mut key = prefix.to_owned();
        key.append("_");
        key.append(ts_hex.as_str());
        key.append("_");
        let digest_hex = u64_to_hex16(digest);
        key.append(digest_hex.as_str());
        proof {
            assert(key@ =~= unique_key_seq(self@));
        }
        key
    }

    /// An identical copy of this line, sharing nothing with the original.
    pub fn duplicate(&self) -> (r: OutputLine)
        ensures
            r@ == self@,
    {
        match self {
            OutputLine::Command { text, timestamp } => OutputLine::Command {
                text: text.clone(),
                timestamp: *timestamp,
            },
            OutputLine::Stdout { text, timestamp } => OutputLine::Stdout {
                text: text.clone(),
                timestamp: *timestamp,
            },
            OutputLine::Stderr { text, timestamp } => OutputLine::Stderr {
                text: text.clone(),
                timestamp: *timestamp,
            },
            OutputLine::Notification { message, level, timestamp } => OutputLine::Notification {
                message: message.clone(),
                level: *level,
                timestamp: *timestamp,
            },
        }
    }

    /// This line is a notification whose message contains the given text.
    pub fn is_notification_containing(&self, needle: &str) -> (r: bool)
        ensures
            r == notification_contains(self@, needle@),
    {
        match self {
            OutputLine::Notification { message, .. } => str_contains(message.as_str(), needle),
            OutputLine::Command { .. } => false,
            OutputLine::Stdout { .. } => false,
            OutputLine::Stderr { .. } => false,
        }
    }
}

} // verus!
