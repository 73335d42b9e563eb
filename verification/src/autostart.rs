//! Starting at logon: the per-user `Run` registry value, what it holds, and
//! when it is (re)written. Reading and writing the registry is the front
//! end's part; it reports the status codes and bytes, and this module decides.
//!
//! Writing to the `Run` key is a system-level change, so it never happens
//! silently: it is driven by the `autostart` config value.

use vstd::prelude::*;
use crate::text::{push_char, str_eq};

verus! {

/// The per-user key whose values are started at logon.
pub const RUN_KEY: &'static str = "Software\\Microsoft\\Windows\\CurrentVersion\\Run";

/// The value this build registers.
pub const VALUE_NAME: &'static str = "DesktopMusicWidget";

/// The pre-rename build's value. Detected and offered for removal, but never
/// deleted unless the user asks: touching it would break an existing install
/// of the older version.
pub const LEGACY_VALUE_NAME: &'static str = "HorizMusicWidget";

/// The status code for a value that is not there.
pub const ERROR_FILE_NOT_FOUND: u32 = 2;

/// The command line stored in the `Run` value: the executable's path in
/// double quotes. Unquoted, a path such as `C:\Program Files\...\app.exe` is
/// split at the first space and the entry silently fails to launch.
pub open spec fn run_value_spec(exe: Seq<char>) -> Seq<char> {
    seq!['"'] + exe + seq!['"']
}

pub fn run_value_for(exe: &str) -> (r: String)
    ensures
        r@ == run_value_spec(exe@),
{
    let mut s = String::new();
    push_char(&mut s, '"');
    s.append(exe);
    push_char(&mut s, '"');
    assert(s@ =~= run_value_spec(exe@));
    s
}

/// A registry status code as a result: zero is success, anything else is
/// that error.
pub fn check(code: u32) -> (r: Result<(), u32>)
    ensures
        code == 0 ==> r is Ok,
        code != 0 ==> r == Err::<(), u32>(code),
{
    if code == 0 {
        Ok(())
    } else {
        Err(code)
    }
}

/// The outcome of deleting a value: removing something that is not there
/// counts as success.
pub fn delete_outcome(code: u32) -> (r: Result<(), u32>)
    ensures
        (code == 0 || code == ERROR_FILE_NOT_FOUND) ==> r is Ok,
        !(code == 0 || code == ERROR_FILE_NOT_FOUND) ==> r == Err::<(), u32>(code),
{
    if code == 0 || code == ERROR_FILE_NOT_FOUND {
        Ok(())
    } else {
        check(code)
    }
}

/// What to write when reconciling the registry with the config at startup.
/// Only ever adds or repairs: with autostart on and the value missing or
/// pointing somewhere else (the folder was moved), the quoted path of `exe`
/// is written. With autostart off nothing is read or written, and entries
/// the config knows nothing about are never removed here.
pub open spec fn ensure_spec(enabled: bool, registered: Option<Seq<char>>, exe: Seq<char>) -> Option<Seq<char>> {
    if !enabled {
        None
    } else if registered == Some(run_value_spec(exe)) {
        None
    } else {
        Some(run_value_spec(exe))
    }
}

/// The value to write, if any: see [`ensure_spec`]. `registered` is what the
/// `Run` value holds now (`None` when absent or unreadable); the caller only
/// needs to read it when autostart is on.
pub fn ensure(enabled: bool, registered: Option<&str>, exe: &str) -> (r: Option<String>)
    ensures
        match r {
            Some(v) => ensure_spec(enabled, crate::config::opt_str_view(registered), exe@) == Some(v@),
            None => ensure_spec(enabled, crate::config::opt_str_view(registered), exe@) is None,
        },
{
    if !enabled {
        return None;
    }
    let want = run_value_for(exe);
    match registered {
        Some(cur) => {
            if str_eq(cur, want.as_str()) {
                None
            } else {
                Some(want)
            }
        },
        None => Some(want),
    }
}

/// A `REG_SZ` value's bytes: the UTF-16 units, low byte first.
pub open spec fn le_bytes(words: Seq<u16>) -> Seq<u8>
    decreases words.len(),
{
    if words.len() == 0 {
        Seq::empty()
    } else {
        le_bytes(words.drop_last()) + seq![(words.last() % 256) as u8, (words.last() / 256) as u8]
    }
}

pub fn to_le_bytes(words: &Vec<u16>) -> (r: Vec<u8>)
    ensures
        r@ == le_bytes(words@),
{
    let mut out: Vec<u8> = Vec::new();
    let mut i: usize = 0;
    while i < words.len()
        invariant
            i <= words@.len(),
            out@ == le_bytes(words@.subrange(0, i as int)),
        decreases words@.len() - i,
    {
        let w = words[i];
        out.push((w % 256) as u8);
        out.push((w / 256) as u8);
        assert(words@.subrange(0, i + 1).drop_last() =~= words@.subrange(0, i as int));
        assert(out@ =~= le_bytes(words@.subrange(0, i + 1)));
        i = i + 1;
    }
    assert(words@.subrange(0, words@.len() as int) =~= words@);
    out
}

/// The UTF-16 units of a `REG_SZ` value read back: pairs of bytes, low byte
/// first; an odd trailing byte is ignored.
pub open spec fn le_words(bytes: Seq<u8>) -> Seq<u16> {
    Seq::new((bytes.len() / 2) as nat, |i: int| (bytes[2 * i] + 256 * bytes[2 * i + 1]) as u16)
}

pub fn from_le_bytes(bytes: &Vec<u8>) -> (r: Vec<u16>)
    ensures
        r@ == le_words(bytes@),
{
    let len = bytes.len();
    let n = len / 2;
    let mut out: Vec<u16> = Vec::new();
    let mut i: usize = 0;
    while i < n
        invariant
            len == bytes@.len(),
            n == len / 2,
            i <= n,
            out@ == le_words(bytes@).subrange(0, i as int),
        decreases n - i,
    {
        assert(2 * i + 1 < len) by (nonlinear_arith)
            requires
                i < n,
                n == len / 2,
        ;
        let lo = bytes[2 * i] as u16;
        let hi = bytes[2 * i + 1] as u16;
        out.push(lo + 256 * hi);
        assert(out@ =~= le_words(bytes@).subrange(0, i + 1));
        i = i + 1;
    }
    assert(le_words(bytes@).subrange(0, n as int) =~= le_words(bytes@));
    out
}

/// A value's text with the terminating NULs dropped from the end.
pub open spec fn without_trailing_nuls(s: Seq<char>) -> Seq<char>
    decreases s.len(),
{
    if s.len() > 0 && s.last() == '\0' {
        without_trailing_nuls(s.drop_last())
    } else {
        s
    }
}

/// `str::trim_end_matches('\0')`.
pub fn trim_nuls(s: &str) -> (r: String)
    ensures
        r@ == without_trailing_nuls(s@),
{
    let n = s.unicode_len();
    let mut j: usize = n;
    assert(s@.subrange(0, n as int) =~= s@);
    while j > 0 && s.get_char(j - 1) == '\0'
        invariant
            n == s@.len(),
            j <= n,
            without_trailing_nuls(s@) == without_trailing_nuls(s@.subrange(0, j as int)),
        decreases j,
    {
        assert(s@.subrange(0, j as int).drop_last() =~= s@.subrange(0, j - 1));
        j = j - 1;
    }
    crate::text::substring(s, 0, j)
}

} // verus!
