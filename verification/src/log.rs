//! The log file's line format, its location and rotation rule.
//!
//! Writing the file, the local clock and the panic hook belong to the front
//! end; every line it writes is composed here.

use vstd::prelude::*;
use crate::text::{dec, fmt_u64, push_char};

pub use crate::text::wide;

verus! {

#[derive(Debug, Clone, Copy, PartialEq, Eq, Structural)]
pub enum Level {
    Info,
    Warn,
    Error,
}

/// Rotate the log once it grows past 1 MiB.
pub const MAX_BYTES: u64 = 1048576;

pub open spec fn tag_of(level: Level) -> Seq<char> {
    match level {
        Level::Info => "INFO "@,
        Level::Warn => "WARN "@,
        Level::Error => "ERROR"@,
    }
}

/// The fixed-width tag that follows the time stamp.
pub fn level_tag(level: Level) -> (r: &'static str)
    ensures
        r@ == tag_of(level),
{
    match level {
        Level::Info => "INFO ",
        Level::Warn => "WARN ",
        Level::Error => "ERROR",
    }
}

/// `n` in decimal, left-padded with zeros to at least `width` digits.
pub open spec fn padded(n: nat, width: nat) -> Seq<char> {
    let d = dec(n);
    if d.len() < width {
        Seq::new((width - d.len()) as nat, |_i: int| '0') + d
    } else {
        d
    }
}

pub fn fmt_padded(n: u64, width: usize) -> (r: String)
    ensures
        r@ == padded(n as nat, width as nat),
{
    let d = fmt_u64(n);
    let len = d.unicode_len();
    if len >= width {
        return d;
    }
    let mut out = String::new();
    let mut i: usize = 0;
    while i < width - len
        invariant
            len < width,
            i <= width - len,
            out@ == Seq::new(i as nat, |_i: int| '0'),
        decreases width - len - i,
    {
        push_char(&mut out, '0');
        assert(out@ =~= Seq::new((i + 1) as nat, |_i: int| '0'));
        i = i + 1;
    }
    out.append(d.as_str());
    out
}

/// `YYYY-MM-DD hh:mm:ss.mmm`, each field zero-padded.
pub open spec fn stamp_spec(
    year: u16,
    month: u16,
    day: u16,
    hour: u16,
    minute: u16,
    second: u16,
    millis: u16,
) -> Seq<char> {
    padded(year as nat, 4) + "-"@ + padded(month as nat, 2) + "-"@ + padded(day as nat, 2) + " "@
        + padded(hour as nat, 2) + ":"@ + padded(minute as nat, 2) + ":"@ + padded(second as nat, 2)
        + "."@ + padded(millis as nat, 3)
}

/// The time stamp that starts every log line, from the local time's fields.
pub fn stamp_text(
    year: u16,
    month: u16,
    day: u16,
    hour: u16,
    minute: u16,
    second: u16,
    millis: u16,
) -> (r: String)
    ensures
        r@ == stamp_spec(year, month, day, hour, minute, second, millis),
{
    let mut s = fmt_padded(year as u64, 4);
    s.append("-");
    s.append(fmt_padded(month as u64, 2).as_str());
    s.append("-");
    s.append(fmt_padded(day as u64, 2).as_str());
    s.append(" ");
    s.append(fmt_padded(hour as u64, 2).as_str());
    s.append(":");
    s.append(fmt_padded(minute as u64, 2).as_str());
    s.append(":");
    s.append(fmt_padded(second as u64, 2).as_str());
    s.append(".");
    s.append(fmt_padded(millis as u64, 3).as_str());
    s
}

/// One log line: time stamp, level tag, message, newline.
pub fn format_line(stamp: &str, level: Level, msg: &str) -> (r: String)
    ensures
        r@ == stamp@ + " "@ + tag_of(level) + " "@ + msg@ + "\n"@,
{
    let mut s = String::from_str(stamp);
    s.append(" ");
    s.append(level_tag(level));
    s.append(" ");
    s.append(msg);
    s.append("\n");
    s
}

/// The log file inside the config directory.
pub fn log_path(dir: &str) -> (r: String)
    ensures
        r@ == crate::config::join_spec(dir@, "widget.log"@),
{
    crate::config::join_path(dir, "widget.log")
}

/// Where an oversized log is moved before a fresh one is started.
pub fn rotated_path(dir: &str) -> (r: String)
    ensures
        r@ == crate::config::join_spec(dir@, "widget.log.1"@),
{
    crate::config::join_path(dir, "widget.log.1")
}

/// An existing log of `len` bytes is rotated when it is larger than
/// [`MAX_BYTES`].
pub fn needs_rotation(len: u64) -> (r: bool)
    ensures
        r == (len > MAX_BYTES),
{
    len > MAX_BYTES
}

} // verus!
