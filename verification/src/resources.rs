//! The Windows resource script (icon, manifest, version block) that the build
//! embeds. The script is rendered from a template so that the version numbers
//! always follow the package version; the build writes the text out and hands
//! it to the resource compiler.

use vstd::prelude::*;
use crate::lists::strings_view;
use crate::text::{fmt_u64, has_prefix, parse_u32, parse_u32_str, push_char, substring, dec};

verus! {

/// Resource script with `{...}` placeholders. Blocks are delimited with
/// `BEGIN`/`END` so that the only braces in the text are the placeholders,
/// and the literal `\0` terminators that the version block needs are kept
/// as they are.
pub const RC_TEMPLATE: &'static str = r#"1 ICON "{ICON}"
1 24 "{MANIFEST}"

1 VERSIONINFO
FILEVERSION {VER}
PRODUCTVERSION {VER}
FILEOS 0x40004
FILETYPE 0x1
BEGIN
  BLOCK "StringFileInfo"
  BEGIN
    BLOCK "040904b0"
    BEGIN
      VALUE "FileDescription", "DesktopMusicWidget\0"
      VALUE "FileVersion", "{VERSION}\0"
      VALUE "InternalName", "desktop-music-widget\0"
      VALUE "LegalCopyright", "MIT License\0"
      VALUE "OriginalFilename", "desktop-music-widget.exe\0"
      VALUE "ProductName", "DesktopMusicWidget\0"
      VALUE "ProductVersion", "{VERSION}\0"
    END
  END
  BLOCK "VarFileInfo"
  BEGIN
    VALUE "Translation", 0x409, 1200
  END
END
"#;

// ---------------------------------------------------------------------------
// Splitting
// ---------------------------------------------------------------------------

/// The pieces of `s` between occurrences of `sep`, as `str::split` yields
/// them: always at least one piece, empty pieces included.
pub open spec fn split_on(s: Seq<char>, sep: char) -> Seq<Seq<char>>
    decreases s.len(),
{
    if s.len() == 0 {
        seq![Seq::<char>::empty()]
    } else {
        let r = split_on(s.drop_last(), sep);
        if s.last() == sep {
            r.push(Seq::<char>::empty())
        } else {
            r.update(r.len() - 1, r.last().push(s.last()))
        }
    }
}

/// `str::split` on one character, collected.
pub fn split_char(s: &str, sep: char) -> (r: Vec<String>)
    ensures
        strings_view(r@) == split_on(s@, sep),
{
    let n = s.unicode_len();
    let mut pieces: Vec<String> = Vec::new();
    let mut cur = String::new();
    let mut i: usize = 0;
    assert(s@.subrange(0, 0) =~= Seq::<char>::empty());
    assert(strings_view(pieces@).push(cur@) =~= split_on(s@.subrange(0, 0), sep));
    while i < n
        invariant
            n == s@.len(),
            i <= n,
            strings_view(pieces@).push(cur@) == split_on(s@.subrange(0, i as int), sep),
        decreases n - i,
    {
        let c = s.get_char(i);
        let ghost before = strings_view(pieces@).push(cur@);
        assert(s@.subrange(0, i + 1).drop_last() =~= s@.subrange(0, i as int));
        assert(s@.subrange(0, i + 1).last() == c);
        if c == sep {
            let done = cur;
            pieces.push(done);
            cur = String::new();
            assert(strings_view(pieces@).push(cur@) =~= before.push(Seq::<char>::empty()));
        } else {
            let ghost old_pieces = pieces@;
            push_char(&mut cur, c);
            assert(strings_view(pieces@).push(cur@) =~= before.update(
                before.len() - 1,
                before.last().push(c),
            ));
        }
        i = i + 1;
    }
    assert(s@.subrange(0, n as int) =~= s@);
    pieces.push(cur);
    assert(strings_view(pieces@) =~= split_on(s@, sep));
    pieces
}

// ---------------------------------------------------------------------------
// Version numbers
// ---------------------------------------------------------------------------

/// Start of pre-release (`-`) or build (`+`) metadata in a version field.
pub open spec fn is_metadata_mark(c: char) -> bool {
    c == '-' || c == '+'
}

/// Length of the part of `p` before the first metadata mark.
pub open spec fn release_len(p: Seq<char>) -> nat
    decreases p.len(),
{
    if p.len() == 0 || is_metadata_mark(p[0]) {
        0
    } else {
        1 + release_len(p.drop_first())
    }
}

/// The number a version field stands for: its release part read as a `u32`,
/// or zero when that does not parse.
pub open spec fn field_number(p: Seq<char>) -> u32 {
    match parse_u32(p.take(release_len(p) as int)) {
        Some(v) => v,
        None => 0,
    }
}

/// The `k`-th dot-separated field of a version, or zero where there is none.
pub open spec fn version_field(v: Seq<char>, k: int) -> u32 {
    let parts = split_on(v, '.');
    if k < parts.len() {
        field_number(parts[k])
    } else {
        0
    }
}

/// `major.minor.patch` as three numbers.
pub open spec fn version_quad_spec(v: Seq<char>) -> (u32, u32, u32) {
    (version_field(v, 0), version_field(v, 1), version_field(v, 2))
}

fn field_value(p: &str) -> (r: u32)
    ensures
        r == field_number(p@),
{
    let n = p.unicode_len();
    let mut i: usize = 0;
    assert(p@.subrange(0, n as int) =~= p@);
    while i < n && !(p.get_char(i) == '-' || p.get_char(i) == '+')
        invariant
            n == p@.len(),
            i <= n,
            release_len(p@) == i + release_len(p@.subrange(i as int, n as int)),
        decreases n - i,
    {
        assert(p@.subrange(i as int, n as int).drop_first() =~= p@.subrange(i + 1, n as int));
        i = i + 1;
    }
    assert(release_len(p@) == i);
    assert(p@.take(i as int) =~= p@.subrange(0, i as int));
    let head = substring(p, 0, i);
    match parse_u32_str(head.as_str()) {
        Some(v) => v,
        None => 0,
    }
}

/// `1.2.3` gives `(1, 2, 3)`; pre-release and build metadata are ignored and
/// any field that does not parse, or is missing, counts as zero.
pub fn version_quad(version: &str) -> (r: (u32, u32, u32))
    ensures
        r == version_quad_spec(version@),
{
    let parts = split_char(version, '.');
    let ghost pv = strings_view(parts@);
    assert(pv.len() == parts@.len());
    let a = if parts.len() > 0 {
        assert(pv[0] == parts@[0]@);
        field_value(parts[0].as_str())
    } else {
        0
    };
    let b = if parts.len() > 1 {
        assert(pv[1] == parts@[1]@);
        field_value(parts[1].as_str())
    } else {
        0
    };
    let c = if parts.len() > 2 {
        assert(pv[2] == parts@[2]@);
        field_value(parts[2].as_str())
    } else {
        0
    };
    (a, b, c)
}

// ---------------------------------------------------------------------------
// Paths and placeholders
// ---------------------------------------------------------------------------

pub open spec fn slash(c: char) -> char {
    if c == '\\' {
        '/'
    } else {
        c
    }
}

/// Backslashes turned into forward slashes; resource compilers read a
/// backslash as an escape.
pub fn forward_slashes(path: &str) -> (r: String)
    ensures
        r@ == path@.map_values(|c: char| slash(c)),
        !r@.contains('\\'),
{
    let n = path.unicode_len();
    let mut out = String::new();
    let mut i: usize = 0;
    while i < n
        invariant
            n == path@.len(),
            i <= n,
            out@ == path@.subrange(0, i as int).map_values(|c: char| slash(c)),
        decreases n - i,
    {
        push_char(&mut out, slash_char(path.get_char(i)));
        assert(path@.subrange(0, i + 1).map_values(|c: char| slash(c)) =~= path@.subrange(
            0,
            i as int,
        ).map_values(|c: char| slash(c)).push(slash(path@[i as int])));
        i = i + 1;
    }
    assert(path@.subrange(0, n as int) =~= path@);
    assert(!out@.contains('\\'));
    out
}

fn slash_char(c: char) -> (r: char)
    ensures
        r == slash(c),
{
    if c == '\\' {
        '/'
    } else {
        c
    }
}

/// Every non-overlapping occurrence of `pat`, leftmost first, replaced by
/// `rep`, as `str::replace` does. An empty pattern occurs before every
/// character and at the end, so `rep` goes around each character.
pub open spec fn replaced(s: Seq<char>, pat: Seq<char>, rep: Seq<char>) -> Seq<char>
    decreases s.len(),
{
    if pat.len() == 0 {
        if s.len() == 0 {
            rep
        } else {
            rep + (seq![s[0]] + replaced(s.drop_first(), pat, rep))
        }
    } else if s.len() == 0 {
        s
    } else if has_prefix(s, pat) {
        rep + replaced(s.skip(pat.len() as int), pat, rep)
    } else {
        seq![s[0]] + replaced(s.drop_first(), pat, rep)
    }
}

fn occurs_at(s: &str, i: usize, pat: &str) -> (r: bool)
    requires
        i <= s@.len(),
    ensures
        r == has_prefix(s@.skip(i as int), pat@),
{
    let n = s.unicode_len();
    let m = pat.unicode_len();
    if m > n - i {
        return false;
    }
    let mut k: usize = 0;
    while k < m
        invariant
            n == s@.len(),
            m == pat@.len(),
            i + m <= n,
            k <= m,
            forall|j: int| 0 <= j < k ==> s@[i + j] == pat@[j],
        decreases m - k,
    {
        if s.get_char(i + k) != pat.get_char(k) {
            assert(s@.skip(i as int).subrange(0, m as int)[k as int] != pat@[k as int]);
            return false;
        }
        k = k + 1;
    }
    assert(s@.skip(i as int).subrange(0, m as int) =~= pat@);
    true
}

/// `rep` put before every character of `s` and after the last.
fn surround_each(s: &str, rep: &str) -> (r: String)
    ensures
        r@ == replaced(s@, Seq::<char>::empty(), rep@),
{
    let ghost e = Seq::<char>::empty();
    let n = s.unicode_len();
    let mut out = String::new();
    let mut i: usize = 0;
    assert(s@.skip(0) =~= s@);
    assert(out@ + replaced(s@, e, rep@) =~= replaced(s@, e, rep@));
    while i < n
        invariant
            n == s@.len(),
            i <= n,
            e == Seq::<char>::empty(),
            out@ + replaced(s@.skip(i as int), e, rep@) == replaced(s@, e, rep@),
        decreases n - i,
    {
        let ghost tail = s@.skip(i as int);
        let ghost before = out@;
        let c = s.get_char(i);
        out.append(rep);
        push_char(&mut out, c);
        assert(tail.len() > 0 && tail[0] == c);
        assert(replaced(tail, e, rep@) == rep@ + (seq![c] + replaced(tail.drop_first(), e, rep@)));
        assert(tail.drop_first() =~= s@.skip(i + 1));
        assert(before + (rep@ + (seq![c] + replaced(tail.drop_first(), e, rep@))) =~= out@ + replaced(
            s@.skip(i + 1),
            e,
            rep@,
        ));
        i = i + 1;
    }
    assert(s@.skip(n as int) =~= Seq::<char>::empty());
    out.append(rep);
    out
}

/// `str::replace`.
pub fn replace_all(s: &str, pat: &str, rep: &str) -> (r: String)
    ensures
        r@ == replaced(s@, pat@, rep@),
{
    let n = s.unicode_len();
    let m = pat.unicode_len();
    if m == 0 {
        assert(pat@ =~= Seq::<char>::empty());
        return surround_each(s, rep);
    }
    let mut out = String::new();
    let mut i: usize = 0;
    assert(s@.skip(0) =~= s@);
    assert(out@ + replaced(s@, pat@, rep@) =~= replaced(s@, pat@, rep@));
    while i < n
        invariant
            n == s@.len(),
            m == pat@.len(),
            m > 0,
            i <= n,
            out@ + replaced(s@.skip(i as int), pat@, rep@) == replaced(s@, pat@, rep@),
        decreases n - i,
    {
        let ghost tail = s@.skip(i as int);
        let ghost before = out@;
        if occurs_at(s, i, pat) {
            out.append(rep);
            assert(tail.skip(m as int) =~= s@.skip(i + m));
            assert(before + (rep@ + replaced(tail.skip(m as int), pat@, rep@)) =~= out@ + replaced(
                s@.skip(i + m),
                pat@,
                rep@,
            ));
            i = i + m;
        } else {
            let c = s.get_char(i);
            push_char(&mut out, c);
            assert(tail.drop_first() =~= s@.skip(i + 1));
            assert(before + (seq![c] + replaced(tail.drop_first(), pat@, rep@)) =~= out@ + replaced(
                s@.skip(i + 1),
                pat@,
                rep@,
            ));
            i = i + 1;
        }
    }
    assert(replaced(s@.skip(n as int), pat@, rep@) =~= Seq::<char>::empty());
    assert(out@ + Seq::<char>::empty() =~= out@);
    out
}

/// The text written for `FILEVERSION` and `PRODUCTVERSION`: the three fields
/// and a zero, separated by commas.
pub open spec fn file_version_text(v: Seq<char>) -> Seq<char> {
    let q = version_quad_spec(v);
    dec(q.0 as nat) + seq![','] + dec(q.1 as nat) + seq![','] + dec(q.2 as nat) + seq![',', '0']
}

pub fn file_version(version: &str) -> (r: String)
    ensures
        r@ == file_version_text(version@),
{
    let (a, b, c) = version_quad(version);
    let mut s = fmt_u64(a as u64);
    push_char(&mut s, ',');
    let t = fmt_u64(b as u64);
    s.append(t.as_str());
    push_char(&mut s, ',');
    let u = fmt_u64(c as u64);
    s.append(u.as_str());
    push_char(&mut s, ',');
    push_char(&mut s, '0');
    assert(s@ =~= file_version_text(version@));
    s
}

/// The resource script for an icon file, a manifest file and a package
/// version: the template with each placeholder substituted in turn.
pub open spec fn rc_text(icon: Seq<char>, manifest: Seq<char>, version: Seq<char>) -> Seq<char> {
    replaced(
        replaced(
            replaced(
                replaced(RC_TEMPLATE@, "{ICON}"@, forward_slash_text(icon)),
                "{MANIFEST}"@,
                forward_slash_text(manifest),
            ),
            "{VER}"@,
            file_version_text(version),
        ),
        "{VERSION}"@,
        version,
    )
}

pub open spec fn forward_slash_text(p: Seq<char>) -> Seq<char> {
    p.map_values(|c: char| slash(c))
}

/// Renders the resource script; the paths are written with forward slashes.
pub fn rc_source(icon: &str, manifest: &str, version: &str) -> (r: String)
    ensures
        r@ == rc_text(icon@, manifest@, version@),
{
    proof {
        reveal_strlit("{ICON}");
        reveal_strlit("{MANIFEST}");
        reveal_strlit("{VER}");
        reveal_strlit("{VERSION}");
    }
    let icon_path = forward_slashes(icon);
    let manifest_path = forward_slashes(manifest);
    let ver = file_version(version);
    let a = replace_all(RC_TEMPLATE, "{ICON}", icon_path.as_str());
    let b = replace_all(a.as_str(), "{MANIFEST}", manifest_path.as_str());
    let c = replace_all(b.as_str(), "{VER}", ver.as_str());
    replace_all(c.as_str(), "{VERSION}", version)
}

} // verus!
