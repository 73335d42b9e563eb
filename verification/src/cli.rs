//! Command-line parsing.
//!
//! Several flags exist purely so the program can be exercised without a GUI:
//! `--count-tracks` and `--dump-config` cover the scanning and configuration
//! code on a headless runner.

use vstd::prelude::*;
use crate::lists::strings_view;
use crate::text::{find_char, str_eq, substring};

verus! {

/// The parsed command line. Paths are kept as the text the user typed.
#[derive(Debug, Clone)]
pub struct Args {
    pub help: bool,
    pub version: bool,
    /// Overrides the config directory (highest priority).
    pub config_dir: Option<String>,
    /// Force portable mode: config lives next to the executable.
    pub portable: bool,
    /// `auto` | `zh-CN` | `en`
    pub lang: Option<String>,
    pub dump_config: bool,
    /// Print how many tracks the configured folders contain, then exit.
    pub count_tracks: bool,
    /// Directory for `--count-tracks`; falls back to the configured library.
    pub dir: Option<String>,
    /// Debug helper: bypass the library and play exactly these files.
    pub play: Vec<String>,
    pub install_autostart: bool,
    pub remove_autostart: bool,
    /// Back up and rewrite the config with defaults, then exit.
    pub reset_config: bool,
    pub verbose: bool,
    /// One-shot override that beats `autoplay` in the config.
    pub autoplay: Option<bool>,
    /// Open config.toml in the default editor and exit.
    pub open_config: bool,
    /// Open the settings window as soon as the widget is up.
    pub open_settings: bool,
}

/// The mathematical content of [`Args`]: every string taken by its characters.
pub struct ArgsModel {
    pub help: bool,
    pub version: bool,
    pub config_dir: Option<Seq<char>>,
    pub portable: bool,
    pub lang: Option<Seq<char>>,
    pub dump_config: bool,
    pub count_tracks: bool,
    pub dir: Option<Seq<char>>,
    pub play: Seq<Seq<char>>,
    pub install_autostart: bool,
    pub remove_autostart: bool,
    pub reset_config: bool,
    pub verbose: bool,
    pub autoplay: Option<bool>,
    pub open_config: bool,
    pub open_settings: bool,
}

pub open spec fn opt_view(o: Option<String>) -> Option<Seq<char>> {
    match o {
        Some(s) => Some(s@),
        None => None,
    }
}

impl View for Args {
    type V = ArgsModel;

    open spec fn view(&self) -> ArgsModel {
        ArgsModel {
            help: self.help,
            version: self.version,
            config_dir: opt_view(self.config_dir),
            portable: self.portable,
            lang: opt_view(self.lang),
            dump_config: self.dump_config,
            count_tracks: self.count_tracks,
            dir: opt_view(self.dir),
            play: strings_view(self.play@),
            install_autostart: self.install_autostart,
            remove_autostart: self.remove_autostart,
            reset_config: self.reset_config,
            verbose: self.verbose,
            autoplay: self.autoplay,
            open_config: self.open_config,
            open_settings: self.open_settings,
        }
    }
}

/// Nothing set: no flag given.
pub open spec fn default_args() -> ArgsModel {
    ArgsModel {
        help: false,
        version: false,
        config_dir: None,
        portable: false,
        lang: None,
        dump_config: false,
        count_tracks: false,
        dir: None,
        play: Seq::empty(),
        install_autostart: false,
        remove_autostart: false,
        reset_config: false,
        verbose: false,
        autoplay: None,
        open_config: false,
        open_settings: false,
    }
}

impl Default for Args {
    fn default() -> (r: Self)
        ensures
            r@ == default_args(),
    {
        let r = Args {
            help: false,
            version: false,
            config_dir: None,
            portable: false,
            lang: None,
            dump_config: false,
            count_tracks: false,
            dir: None,
            play: Vec::new(),
            install_autostart: false,
            remove_autostart: false,
            reset_config: false,
            verbose: false,
            autoplay: None,
            open_config: false,
            open_settings: false,
        };
        assert(r@.play =~= Seq::<Seq<char>>::empty());
        r
    }
}


/// `s` begins with a dash, which marks it as a flag.
pub open spec fn starts_dash(s: Seq<char>) -> bool {
    s.len() > 0 && s[0] == '-'
}

/// Index of the first `=` in a token.
pub open spec fn eq_index(tok: Seq<char>) -> Option<int> {
    crate::text::first_index_of(tok, '=')
}

/// The flag name: the token up to its first `=`.
pub open spec fn key_of(tok: Seq<char>) -> Seq<char> {
    match eq_index(tok) {
        Some(i) => tok.subrange(0, i),
        None => tok,
    }
}

/// The inline value of `--opt=value`, if the token has one.
pub open spec fn inline_of(tok: Seq<char>) -> Option<Seq<char>> {
    match eq_index(tok) {
        Some(i) => Some(tok.subrange(i + 1, tok.len() as int)),
        None => None,
    }
}

/// The effect of a flag that takes no value, or `None` for any other key.
#[verifier::opaque]
pub open spec fn flag_update(a: ArgsModel, key: Seq<char>) -> Option<ArgsModel> {
    if key == "-h"@ || key == "--help"@ {
        Some(ArgsModel { help: true, ..a })
    } else if key == "-V"@ || key == "--version"@ {
        Some(ArgsModel { version: true, ..a })
    } else if key == "--portable"@ {
        Some(ArgsModel { portable: true, ..a })
    } else if key == "--dump-config"@ {
        Some(ArgsModel { dump_config: true, ..a })
    } else if key == "--count-tracks"@ {
        Some(ArgsModel { count_tracks: true, ..a })
    } else if key == "--install-autostart"@ {
        Some(ArgsModel { install_autostart: true, ..a })
    } else if key == "--remove-autostart"@ {
        Some(ArgsModel { remove_autostart: true, ..a })
    } else if key == "--reset-config"@ {
        Some(ArgsModel { reset_config: true, ..a })
    } else if key == "--verbose"@ || key == "-v"@ {
        Some(ArgsModel { verbose: true, ..a })
    } else if key == "--autoplay"@ {
        Some(ArgsModel { autoplay: Some(true), ..a })
    } else if key == "--no-autoplay"@ {
        Some(ArgsModel { autoplay: Some(false), ..a })
    } else if key == "--open-config"@ {
        Some(ArgsModel { open_config: true, ..a })
    } else if key == "--open-settings"@ {
        Some(ArgsModel { open_settings: true, ..a })
    } else {
        None
    }
}

/// The flags that need a value, inline or as the next argument.
pub open spec fn is_value_key(key: Seq<char>) -> bool {
    key == "--config-dir"@ || key == "--lang"@ || key == "--dir"@
}

#[verifier::opaque]
pub open spec fn value_update(a: ArgsModel, key: Seq<char>, v: Seq<char>) -> ArgsModel {
    if key == "--config-dir"@ {
        ArgsModel { config_dir: Some(v), ..a }
    } else if key == "--lang"@ {
        ArgsModel { lang: Some(v), ..a }
    } else {
        ArgsModel { dir: Some(v), ..a }
    }
}

/// `{key} 缺少参数 / {key} needs a value`
pub open spec fn missing_value_message(key: Seq<char>) -> Seq<char> {
    key + " 缺少参数 / "@ + key + " needs a value"@
}

/// `未知参数 / unknown argument: {key}`
pub open spec fn unknown_argument_message(key: Seq<char>) -> Seq<char> {
    "未知参数 / unknown argument: "@ + key
}

/// Parses `raw` from position `i` with the arguments gathered so far. While
/// `in_play` holds, arguments that do not start with a dash belong to
/// `--play`.
pub open spec fn parse_from(raw: Seq<Seq<char>>, i: int, a: ArgsModel, in_play: bool) -> Result<
    ArgsModel,
    Seq<char>,
>
    decreases raw.len() - i,
{
    if i < 0 || i >= raw.len() {
        Ok(a)
    } else if in_play && !starts_dash(raw[i]) {
        parse_from(raw, i + 1, ArgsModel { play: a.play.push(raw[i]), ..a }, true)
    } else {
        let key = key_of(raw[i]);
        let inline = inline_of(raw[i]);
        if flag_update(a, key) is Some {
            parse_from(raw, i + 1, flag_update(a, key)->0, false)
        } else if is_value_key(key) {
            match inline {
                Some(v) => parse_from(raw, i + 1, value_update(a, key, v), false),
                None => if i + 1 < raw.len() {
                    parse_from(raw, i + 2, value_update(a, key, raw[i + 1]), false)
                } else {
                    Err(missing_value_message(key))
                },
            }
        } else if key == "--play"@ {
            let play = match inline {
                Some(v) => a.play.push(v),
                None => a.play,
            };
            parse_from(raw, i + 1, ArgsModel { play: play, ..a }, true)
        } else {
            Err(unknown_argument_message(key))
        }
    }
}

/// The command line `raw` (arguments after argv[0]) as the parser reads it.
pub open spec fn parse_spec(raw: Seq<Seq<char>>) -> Result<ArgsModel, Seq<char>> {
    parse_from(raw, 0, default_args(), false)
}

proof fn lemma_first_index(s: Seq<char>, c: char, i: int)
    requires
        0 <= i < s.len(),
        s[i] == c,
        forall|k: int| 0 <= k < i ==> s[k] != c,
    ensures
        crate::text::first_index_of(s, c) == Some(i),
{
    assert(s.contains(c));
    let j = choose|j: int| 0 <= j < s.len() && s[j] == c && forall|k: int| 0 <= k < j ==> s[k] != c;
    assert(0 <= j < s.len() && s[j] == c && forall|k: int| 0 <= k < j ==> s[k] != c);
    if j < i {
        assert(s[j] != c);
    }
    if i < j {
        assert(s[i] != c);
    }
}

/// Splits `--opt=value` into its two halves.
fn split_eq(tok: &str) -> (r: (String, Option<String>))
    ensures
        r.0@ == key_of(tok@),
        opt_view(r.1) == inline_of(tok@),
{
    match find_char(tok, '=') {
        Some(i) => {
            proof {
                lemma_first_index(tok@, '=', i as int);
            }
            let n = tok.unicode_len();
            (substring(tok, 0, i), Some(substring(tok, i + 1, n)))
        },
        None => {
            assert(!(tok@.contains('=')));
            (String::from_str(tok), None)
        },
    }
}

/// Applies a flag that takes no value. Returns false, changing nothing, for
/// any other key.
fn apply_flag(args: &mut Args, key: &str) -> (r: bool)
    ensures
        r == flag_update(old(args)@, key@) is Some,
        r ==> final(args)@ == flag_update(old(args)@, key@)->0,
        !r ==> final(args)@ == old(args)@,
{
    reveal(flag_update);
    if str_eq(key, "-h") || str_eq(key, "--help") {
        args.help = true;
    } else if str_eq(key, "-V") || str_eq(key, "--version") {
        args.version = true;
    } else if str_eq(key, "--portable") {
        args.portable = true;
    } else if str_eq(key, "--dump-config") {
        args.dump_config = true;
    } else if str_eq(key, "--count-tracks") {
        args.count_tracks = true;
    } else if str_eq(key, "--install-autostart") {
        args.install_autostart = true;
    } else if str_eq(key, "--remove-autostart") {
        args.remove_autostart = true;
    } else if str_eq(key, "--reset-config") {
        args.reset_config = true;
    } else if str_eq(key, "--verbose") || str_eq(key, "-v") {
        args.verbose = true;
    } else if str_eq(key, "--autoplay") {
        args.autoplay = Some(true);
    } else if str_eq(key, "--no-autoplay") {
        args.autoplay = Some(false);
    } else if str_eq(key, "--open-config") {
        args.open_config = true;
    } else if str_eq(key, "--open-settings") {
        args.open_settings = true;
    } else {
        return false;
    }
    true
}

fn is_value_flag(key: &str) -> (r: bool)
    ensures
        r == is_value_key(key@),
{
    str_eq(key, "--config-dir") || str_eq(key, "--lang") || str_eq(key, "--dir")
}

fn set_value(args: &mut Args, key: &str, v: String)
    ensures
        final(args)@ == value_update(old(args)@, key@, v@),
{
    reveal(value_update);
    if str_eq(key, "--config-dir") {
        args.config_dir = Some(v);
    } else if str_eq(key, "--lang") {
        args.lang = Some(v);
    } else {
        args.dir = Some(v);
    }
}

fn push_play(args: &mut Args, v: String)
    ensures
        final(args)@ == (ArgsModel { play: old(args)@.play.push(v@), ..old(args)@ }),
{
    args.play.push(v);
    assert(strings_view(args.play@) =~= old(args)@.play.push(v@));
}

/// Handles the argument at `*i`, advancing past everything it consumes.
/// Returns the error message when the command line is rejected there.
fn parse_step(raw: &[String], i: &mut usize, in_play: &mut bool, args: &mut Args) -> (r: Option<String>)
    requires
        *old(i) < raw@.len(),
    ensures
        *old(i) < *final(i) <= raw@.len(),
        match r {
            Some(e) => parse_from(strings_view(raw@), *old(i) as int, old(args)@, *old(in_play))
                == Err::<ArgsModel, Seq<char>>(e@),
            None => parse_from(strings_view(raw@), *old(i) as int, old(args)@, *old(in_play))
                == parse_from(strings_view(raw@), *final(i) as int, final(args)@, *final(in_play)),
        },
{
    let ghost rv = strings_view(raw@);
    let tok = raw[*i].as_str();
    assert(rv[*i as int] == tok@);
    let starts = tok.unicode_len() > 0 && tok.get_char(0) == '-';
    if *in_play && !starts {
        push_play(args, raw[*i].clone());
        *i = *i + 1;
        return None;
    }
    *in_play = false;
    let (key, inline) = split_eq(tok);
    if apply_flag(args, key.as_str()) {
        *i = *i + 1;
        return None;
    }
    if is_value_flag(key.as_str()) {
        match inline {
            Some(v) => {
                set_value(args, key.as_str(), v);
                *i = *i + 1;
                None
            },
            None => {
                if *i + 1 < raw.len() {
                    assert(rv[*i + 1] == raw@[*i + 1]@);
                    set_value(args, key.as_str(), raw[*i + 1].clone());
                    *i = *i + 2;
                    None
                } else {
                    let mut msg = key.clone();
                    msg.append(" 缺少参数 / ");
                    msg.append(key.as_str());
                    msg.append(" needs a value");
                    *i = *i + 1;
                    Some(msg)
                }
            },
        }
    } else if str_eq(key.as_str(), "--play") {
        match inline {
            Some(v) => push_play(args, v),
            None => {},
        }
        *in_play = true;
        *i = *i + 1;
        None
    } else {
        let mut msg = String::from_str("未知参数 / unknown argument: ");
        msg.append(key.as_str());
        *i = *i + 1;
        Some(msg)
    }
}

/// Parses `raw` (arguments *after* argv[0]).
///
/// Both `--opt value` and `--opt=value` are accepted. `--play` swallows every
/// following argument that is not itself a flag, so `--play a.mp3 b.mp3` works.
pub fn parse(raw: &[String]) -> (r: Result<Args, String>)
    ensures
        match r {
            Ok(a) => parse_spec(strings_view(raw@)) == Ok::<ArgsModel, Seq<char>>(a@),
            Err(e) => parse_spec(strings_view(raw@)) == Err::<ArgsModel, Seq<char>>(e@),
        },
{
    let ghost rv = strings_view(raw@);
    let mut args = Args::default();
    let mut i: usize = 0;
    let mut in_play = false;
    while i < raw.len()
        invariant
            rv == strings_view(raw@),
            i <= raw@.len(),
            parse_spec(rv) == parse_from(rv, i as int, args@, in_play),
        decreases raw@.len() - i,
    {
        match parse_step(raw, &mut i, &mut in_play, &mut args) {
            Some(e) => {
                return Err(e);
            },
            None => {},
        }
    }
    Ok(args)
}


/// Parsing from position `i` reads only the arguments from `i` on.
proof fn lemma_parse_suffix(raw: Seq<Seq<char>>, i: int, a: ArgsModel, in_play: bool)
    requires
        0 <= i <= raw.len(),
    ensures
        parse_from(raw, i, a, in_play) == parse_from(raw.skip(i), 0, a, in_play),
    decreases raw.len() - i,
{
    let s = raw.skip(i);
    if i < raw.len() {
        assert(s[0] == raw[i]);
        assert(s.skip(1) =~= raw.skip(i + 1));
        if in_play && !starts_dash(raw[i]) {
            let a1 = ArgsModel { play: a.play.push(raw[i]), ..a };
            lemma_parse_suffix(raw, i + 1, a1, true);
            lemma_parse_suffix(s, 1, a1, true);
        } else {
            let key = key_of(raw[i]);
            let inline = inline_of(raw[i]);
            if flag_update(a, key) is Some {
                let f = flag_update(a, key)->0;
                lemma_parse_suffix(raw, i + 1, f, false);
                lemma_parse_suffix(s, 1, f, false);
            } else if is_value_key(key) {
                match inline {
                    Some(v) => {
                        let a2 = value_update(a, key, v);
                        lemma_parse_suffix(raw, i + 1, a2, false);
                        lemma_parse_suffix(s, 1, a2, false);
                    },
                    None => {
                        if i + 1 < raw.len() {
                            assert(s[1] == raw[i + 1]);
                            assert(s.skip(2) =~= raw.skip(i + 2));
                            let a3 = value_update(a, key, raw[i + 1]);
                            lemma_parse_suffix(raw, i + 2, a3, false);
                            lemma_parse_suffix(s, 2, a3, false);
                        }
                    },
                }
            } else if key == "--play"@ {
                let play = match inline {
                    Some(v) => a.play.push(v),
                    None => a.play,
                };
                let a4 = ArgsModel { play: play, ..a };
                lemma_parse_suffix(raw, i + 1, a4, true);
                lemma_parse_suffix(s, 1, a4, true);
            }
        }
    } else {
        assert(s.len() == 0);
    }
}

/// The three flags that take a value contain no `=` and are no plain flag.
proof fn lemma_value_keys(key: Seq<char>, a: ArgsModel)
    requires
        is_value_key(key),
    ensures
        !key.contains('='),
        flag_update(a, key) is None,
        key != "--play"@,
{
    reveal(flag_update);
    reveal_strlit("--config-dir");
    reveal_strlit("--lang");
    reveal_strlit("--dir");
    reveal_strlit("--play");
    reveal_strlit("-h");
    reveal_strlit("--help");
    reveal_strlit("-V");
    reveal_strlit("--version");
    reveal_strlit("--portable");
    reveal_strlit("--dump-config");
    reveal_strlit("--count-tracks");
    reveal_strlit("--install-autostart");
    reveal_strlit("--remove-autostart");
    reveal_strlit("--reset-config");
    reveal_strlit("--verbose");
    reveal_strlit("-v");
    reveal_strlit("--autoplay");
    reveal_strlit("--no-autoplay");
    reveal_strlit("--open-config");
    reveal_strlit("--open-settings");
    assert forall|k: int| 0 <= k < key.len() implies key[k] != '=' by {}
    assert("-h"@.len() == 2 && "-V"@.len() == 2 && "-v"@.len() == 2);
    assert("--help"@.len() == 6 && "--play"@.len() == 6);
    assert("--version"@.len() == 9 && "--verbose"@.len() == 9);
    assert("--portable"@.len() == 10 && "--autoplay"@.len() == 10);
    assert("--dump-config"@.len() == 13 && "--no-autoplay"@.len() == 13);
    assert("--open-config"@.len() == 13);
    assert("--count-tracks"@.len() == 14 && "--reset-config"@.len() == 14);
    assert("--install-autostart"@.len() == 19 && "--remove-autostart"@.len() == 18);
    assert("--open-settings"@.len() == 15);
    assert("--config-dir"@.len() == 12 && "--lang"@.len() == 6 && "--dir"@.len() == 5);
    if key == "--lang"@ {
        assert(key[2] != "--help"@[2]);
        assert(key[2] != "--play"@[2]);
    }
}

/// `--opt=value` and `--opt value` mean the same, for each of the flags that
/// take a value, whatever the value and whatever follows.
#[verifier::rlimit(40)]
pub proof fn inline_and_separate_values_agree(key: Seq<char>, value: Seq<char>, rest: Seq<Seq<char>>)
    requires
        is_value_key(key),
    ensures
        parse_spec(seq![key + seq!['='] + value] + rest) == parse_spec(seq![key, value] + rest),
{
    let d = default_args();
    lemma_value_keys(key, d);
    let tok = key + seq!['='] + value;
    let joined = seq![tok] + rest;
    let split = seq![key, value] + rest;
    assert(joined[0] == tok);
    assert(split[0] == key);
    assert(split[1] == value);
    lemma_first_index(tok, '=', key.len() as int);
    assert(key_of(tok) =~= key);
    assert(inline_of(tok) == Some(value)) by {
        assert(tok.subrange((key.len() + 1) as int, tok.len() as int) =~= value);
    }
    assert(eq_index(key) is None);
    assert(key_of(key) == key);
    assert(inline_of(key) is None);
    let a = value_update(d, key, value);
    assert(key_of(joined[0]) == key && inline_of(joined[0]) == Some(value));
    assert(key_of(split[0]) == key && inline_of(split[0]) is None);
    assert(parse_spec(joined) == parse_from(joined, 1, a, false));
    assert(parse_spec(split) == parse_from(split, 2, a, false));
    lemma_parse_suffix(joined, 1, a, false);
    lemma_parse_suffix(split, 2, a, false);
    assert(joined.skip(1) =~= rest);
    assert(split.skip(2) =~= rest);
}

/// The flags that take no value.
pub open spec fn is_flag_key(key: Seq<char>) -> bool {
    ||| key == "-h"@ || key == "--help"@
    ||| key == "-V"@ || key == "--version"@
    ||| key == "--portable"@ || key == "--dump-config"@ || key == "--count-tracks"@
    ||| key == "--install-autostart"@ || key == "--remove-autostart"@ || key == "--reset-config"@
    ||| key == "--verbose"@ || key == "-v"@
    ||| key == "--autoplay"@ || key == "--no-autoplay"@
    ||| key == "--open-config"@ || key == "--open-settings"@
}

/// Every flag the parser knows.
pub open spec fn is_known_key(key: Seq<char>) -> bool {
    is_flag_key(key) || is_value_key(key) || key == "--play"@
}

proof fn lemma_flag_keys(a: ArgsModel, key: Seq<char>)
    ensures
        (flag_update(a, key) is Some) == is_flag_key(key),
{
    reveal(flag_update);
}

/// `--play` holds no `=`, takes no value and is no plain flag.
proof fn lemma_play_key(a: ArgsModel)
    ensures
        forall|k: int| 0 <= k < "--play"@.len() ==> "--play"@[k] != '=',
        "--play"@.len() == 6,
        key_of("--play"@) == "--play"@,
        inline_of("--play"@) is None,
        flag_update(a, "--play"@) is None,
        !is_value_key("--play"@),
{
    reveal(flag_update);
    reveal_strlit("--play");
    reveal_strlit("--help");
    reveal_strlit("--lang");
    reveal_strlit("--dir");
    reveal_strlit("--config-dir");
    reveal_strlit("-h");
    reveal_strlit("-V");
    reveal_strlit("-v");
    reveal_strlit("--version");
    reveal_strlit("--portable");
    reveal_strlit("--dump-config");
    reveal_strlit("--count-tracks");
    reveal_strlit("--install-autostart");
    reveal_strlit("--remove-autostart");
    reveal_strlit("--reset-config");
    reveal_strlit("--verbose");
    reveal_strlit("--autoplay");
    reveal_strlit("--no-autoplay");
    reveal_strlit("--open-config");
    reveal_strlit("--open-settings");
    let p = "--play"@;
    assert(!p.contains('='));
    assert(p[2] != "--help"@[2]);
    assert(p[2] != "--lang"@[2]);
}

/// A command line of one argument is refused exactly when the flag is unknown,
/// or when it needs a value and none is given inline; the message names the
/// flag.
pub proof fn a_lone_argument_is_refused_only_when_unknown_or_missing_its_value(t: Seq<char>)
    ensures
        parse_spec(seq![t]) is Err <==> (!is_known_key(key_of(t)) || (is_value_key(key_of(t))
            && inline_of(t) is None)),
        !is_known_key(key_of(t)) ==> parse_spec(seq![t]) == Err::<ArgsModel, Seq<char>>(
            unknown_argument_message(key_of(t)),
        ),
        is_value_key(key_of(t)) && inline_of(t) is None ==> parse_spec(seq![t]) == Err::<
            ArgsModel,
            Seq<char>,
        >(missing_value_message(key_of(t))),
{
    let d = default_args();
    let k = key_of(t);
    let raw = seq![t];
    assert(raw[0] == t);
    let inline = inline_of(t);
    lemma_flag_keys(d, k);
    lemma_play_key(d);
    if is_value_key(k) {
        lemma_value_keys(k, d);
    }
    if is_flag_key(k) {
        let f = flag_update(d, k)->0;
        assert(parse_from(raw, 1, f, false) == Ok::<ArgsModel, Seq<char>>(f));
        assert(parse_spec(raw) == Ok::<ArgsModel, Seq<char>>(f));
    } else if is_value_key(k) {
        if inline is Some {
            let a = value_update(d, k, inline->0);
            assert(parse_from(raw, 1, a, false) == Ok::<ArgsModel, Seq<char>>(a));
            assert(parse_spec(raw) == Ok::<ArgsModel, Seq<char>>(a));
        } else {
            assert(parse_spec(raw) == Err::<ArgsModel, Seq<char>>(missing_value_message(k)));
        }
    } else if k == "--play"@ {
        let play = match inline {
            Some(v) => d.play.push(v),
            None => d.play,
        };
        let a = ArgsModel { play: play, ..d };
        assert(parse_from(raw, 1, a, true) == Ok::<ArgsModel, Seq<char>>(a));
        assert(parse_spec(raw) == Ok::<ArgsModel, Seq<char>>(a));
    } else {
        assert(parse_spec(raw) == Err::<ArgsModel, Seq<char>>(unknown_argument_message(k)));
    }
}

/// The flags that take no value are all different words.
proof fn lemma_flag_words_differ()
    ensures
        "-h"@ != "-V"@ && "-h"@ != "-v"@ && "-V"@ != "-v"@,
        "--version"@ != "--verbose"@,
        "--portable"@ != "--autoplay"@,
        "--dump-config"@ != "--no-autoplay"@ && "--dump-config"@ != "--open-config"@
            && "--no-autoplay"@ != "--open-config"@,
        "--count-tracks"@ != "--reset-config"@,
        "-h"@.len() == 2 && "-V"@.len() == 2 && "-v"@.len() == 2,
        "--help"@.len() == 6,
        "--version"@.len() == 9 && "--verbose"@.len() == 9,
        "--portable"@.len() == 10 && "--autoplay"@.len() == 10,
        "--dump-config"@.len() == 13 && "--no-autoplay"@.len() == 13 && "--open-config"@.len() == 13,
        "--count-tracks"@.len() == 14 && "--reset-config"@.len() == 14,
        "--open-settings"@.len() == 15,
        "--remove-autostart"@.len() == 18,
        "--install-autostart"@.len() == 19,
{
    reveal_strlit("-h");
    reveal_strlit("--help");
    reveal_strlit("-V");
    reveal_strlit("--version");
    reveal_strlit("--portable");
    reveal_strlit("--dump-config");
    reveal_strlit("--count-tracks");
    reveal_strlit("--install-autostart");
    reveal_strlit("--remove-autostart");
    reveal_strlit("--reset-config");
    reveal_strlit("--verbose");
    reveal_strlit("-v");
    reveal_strlit("--autoplay");
    reveal_strlit("--no-autoplay");
    reveal_strlit("--open-config");
    reveal_strlit("--open-settings");
    assert("-h"@[1] != "-V"@[1] && "-h"@[1] != "-v"@[1] && "-V"@[1] != "-v"@[1]);
    assert("--version"@[5] != "--verbose"@[5]);
    assert("--portable"@[2] != "--autoplay"@[2]);
    assert("--dump-config"@[2] != "--no-autoplay"@[2]);
    assert("--dump-config"@[2] != "--open-config"@[2]);
    assert("--no-autoplay"@[2] != "--open-config"@[2]);
    assert("--count-tracks"@[2] != "--reset-config"@[2]);
}

/// A flag that takes no value, given alone, sets its own field of the
/// arguments and nothing else: every other field keeps its default. So
/// `--install-autostart` asks to install the logon entry and not to remove
/// it, `--no-autoplay` turns autoplay off for the run, and so on.
#[verifier::spinoff_prover]
#[verifier::rlimit(60)]
pub proof fn a_lone_flag_sets_its_own_field_only(t: Seq<char>)
    requires
        is_flag_key(key_of(t)),
    ensures
        match parse_spec(seq![t]) {
            Ok(a) => {
                let k = key_of(t);
                &&& a.help == (k == "-h"@ || k == "--help"@)
                &&& a.version == (k == "-V"@ || k == "--version"@)
                &&& a.portable == (k == "--portable"@)
                &&& a.dump_config == (k == "--dump-config"@)
                &&& a.count_tracks == (k == "--count-tracks"@)
                &&& a.install_autostart == (k == "--install-autostart"@)
                &&& a.remove_autostart == (k == "--remove-autostart"@)
                &&& a.reset_config == (k == "--reset-config"@)
                &&& a.verbose == (k == "--verbose"@ || k == "-v"@)
                &&& a.autoplay == (if k == "--autoplay"@ {
                    Some(true)
                } else if k == "--no-autoplay"@ {
                    Some(false)
                } else {
                    None
                })
                &&& a.open_config == (k == "--open-config"@)
                &&& a.open_settings == (k == "--open-settings"@)
                &&& a.config_dir is None
                &&& a.lang is None
                &&& a.dir is None
                &&& a.play.len() == 0
            },
            Err(_) => false,
        },
{
    let d = default_args();
    let k = key_of(t);
    let raw = seq![t];
    assert(raw[0] == t);
    lemma_flag_keys(d, k);
    let f = flag_update(d, k)->0;
    assert(parse_from(raw, 1, f, false) == Ok::<ArgsModel, Seq<char>>(f));
    assert(parse_spec(raw) == Ok::<ArgsModel, Seq<char>>(f));
    lemma_flag_words_differ();
    reveal(flag_update);
}

/// A value flag given alone, with its value inline or as the next argument,
/// sets that value and nothing else.
pub proof fn a_lone_value_option_parses(key: Seq<char>, value: Seq<char>)
    requires
        is_value_key(key),
    ensures
        parse_spec(seq![key, value]) == Ok::<ArgsModel, Seq<char>>(value_update(default_args(), key, value)),
        parse_spec(seq![key + seq!['='] + value]) == parse_spec(seq![key, value]),
{
    let d = default_args();
    lemma_value_keys(key, d);
    let split = seq![key, value];
    assert(split[0] == key && split[1] == value);
    assert(eq_index(key) is None);
    assert(key_of(key) == key);
    assert(parse_spec(split) == parse_from(split, 2, value_update(d, key, value), false));
    inline_and_separate_values_agree(key, value, Seq::empty());
    assert(seq![key + seq!['='] + value] + Seq::<Seq<char>>::empty() =~= seq![key + seq!['='] + value]);
    assert(seq![key, value] + Seq::<Seq<char>>::empty() =~= split);
}

/// A flag that takes a value, given alone with its value, sets its own field
/// to that value and leaves every other field at its default.
pub proof fn a_value_option_sets_its_own_field_only(key: Seq<char>, value: Seq<char>)
    requires
        is_value_key(key),
    ensures
        match parse_spec(seq![key, value]) {
            Ok(a) => {
                &&& a.config_dir == (if key == "--config-dir"@ {
                    Some(value)
                } else {
                    None
                })
                &&& a.lang == (if key == "--lang"@ {
                    Some(value)
                } else {
                    None
                })
                &&& a.dir == (if key == "--dir"@ {
                    Some(value)
                } else {
                    None
                })
                &&& !a.help && !a.version && !a.portable && !a.dump_config && !a.count_tracks
                &&& !a.install_autostart && !a.remove_autostart && !a.reset_config && !a.verbose
                &&& !a.open_config && !a.open_settings
                &&& a.autoplay is None
                &&& a.play.len() == 0
            },
            Err(_) => false,
        },
{
    a_lone_value_option_parses(key, value);
    reveal(value_update);
    reveal_strlit("--config-dir");
    reveal_strlit("--lang");
    reveal_strlit("--dir");
    assert("--config-dir"@.len() == 12 && "--lang"@.len() == 6 && "--dir"@.len() == 5);
}

/// The arguments with `x` put before the files to play.
pub open spec fn with_play(a: ArgsModel, x: Seq<Seq<char>>) -> ArgsModel {
    ArgsModel { play: x + a.play, ..a }
}

/// A parse result with `x` put before its files to play; an error stays as
/// it is.
pub open spec fn prefix_play(r: Result<ArgsModel, Seq<char>>, x: Seq<Seq<char>>) -> Result<
    ArgsModel,
    Seq<char>,
> {
    match r {
        Ok(b) => Ok(with_play(b, x)),
        Err(e) => Err(e),
    }
}

#[verifier::spinoff_prover]
#[verifier::rlimit(80)]
proof fn lemma_flag_keeps_play(a: ArgsModel, x: Seq<Seq<char>>, key: Seq<char>)
    ensures
        (flag_update(with_play(a, x), key) is Some) == (flag_update(a, key) is Some),
        flag_update(a, key) is Some ==> flag_update(with_play(a, x), key)->0 == with_play(
            flag_update(a, key)->0,
            x,
        ),
{
    reveal(flag_update);
    let w = with_play(a, x);
    if key == "-h"@ || key == "--help"@ {
        assert(flag_update(w, key) == Some(with_play(ArgsModel { help: true, ..a }, x)));
    } else if key == "-V"@ || key == "--version"@ {
        assert(flag_update(w, key) == Some(with_play(ArgsModel { version: true, ..a }, x)));
    } else if key == "--portable"@ {
        assert(flag_update(w, key) == Some(with_play(ArgsModel { portable: true, ..a }, x)));
    } else if key == "--dump-config"@ {
        assert(flag_update(w, key) == Some(with_play(ArgsModel { dump_config: true, ..a }, x)));
    } else if key == "--count-tracks"@ {
        assert(flag_update(w, key) == Some(with_play(ArgsModel { count_tracks: true, ..a }, x)));
    } else if key == "--install-autostart"@ {
        assert(flag_update(w, key) == Some(with_play(ArgsModel { install_autostart: true, ..a }, x)));
    } else if key == "--remove-autostart"@ {
        assert(flag_update(w, key) == Some(with_play(ArgsModel { remove_autostart: true, ..a }, x)));
    } else if key == "--reset-config"@ {
        assert(flag_update(w, key) == Some(with_play(ArgsModel { reset_config: true, ..a }, x)));
    } else if key == "--verbose"@ || key == "-v"@ {
        assert(flag_update(w, key) == Some(with_play(ArgsModel { verbose: true, ..a }, x)));
    } else if key == "--autoplay"@ {
        assert(flag_update(w, key) == Some(with_play(ArgsModel { autoplay: Some(true), ..a }, x)));
    } else if key == "--no-autoplay"@ {
        assert(flag_update(w, key) == Some(with_play(ArgsModel { autoplay: Some(false), ..a }, x)));
    } else if key == "--open-config"@ {
        assert(flag_update(w, key) == Some(with_play(ArgsModel { open_config: true, ..a }, x)));
    } else if key == "--open-settings"@ {
        assert(flag_update(w, key) == Some(with_play(ArgsModel { open_settings: true, ..a }, x)));
    }
}

proof fn lemma_value_keeps_play(a: ArgsModel, x: Seq<Seq<char>>, key: Seq<char>, v: Seq<char>)
    ensures
        value_update(with_play(a, x), key, v) == with_play(value_update(a, key, v), x),
{
    reveal(value_update);
}

/// Files already gathered for `--play` ride through the rest of the parse.
#[verifier::spinoff_prover]
#[verifier::rlimit(80)]
proof fn lemma_play_prefix_carries(raw: Seq<Seq<char>>, i: int, a: ArgsModel, in_play: bool, x: Seq<Seq<char>>)
    requires
        0 <= i,
    ensures
        parse_from(raw, i, with_play(a, x), in_play) == prefix_play(parse_from(raw, i, a, in_play), x),
    decreases raw.len() - i,
{
    if i < raw.len() {
        let wa = with_play(a, x);
        let key = key_of(raw[i]);
        let inline = inline_of(raw[i]);
        if in_play && !starts_dash(raw[i]) {
            let a1 = ArgsModel { play: a.play.push(raw[i]), ..a };
            assert(wa.play.push(raw[i]) =~= x + a1.play);
            lemma_play_prefix_carries(raw, i + 1, a1, true, x);
        } else {
            lemma_flag_keeps_play(a, x, key);
            if flag_update(a, key) is Some {
                lemma_play_prefix_carries(raw, i + 1, flag_update(a, key)->0, false, x);
            } else if is_value_key(key) {
                match inline {
                    Some(v) => {
                        lemma_value_keeps_play(a, x, key, v);
                        lemma_play_prefix_carries(raw, i + 1, value_update(a, key, v), false, x);
                    },
                    None => {
                        if i + 1 < raw.len() {
                            lemma_value_keeps_play(a, x, key, raw[i + 1]);
                            lemma_play_prefix_carries(raw, i + 2, value_update(a, key, raw[i + 1]), false, x);
                        }
                    },
                }
            } else if key == "--play"@ {
                let play = match inline {
                    Some(v) => a.play.push(v),
                    None => a.play,
                };
                let a4 = ArgsModel { play: play, ..a };
                let wplay = match inline {
                    Some(v) => wa.play.push(v),
                    None => wa.play,
                };
                assert(wplay =~= x + play);
                lemma_play_prefix_carries(raw, i + 1, a4, true, x);
            }
        }
    }
}

/// While `--play` is gathering, a run of arguments without a leading dash is
/// taken as files, in order.
proof fn lemma_play_run(raw: Seq<Seq<char>>, i: int, n: int, a: ArgsModel)
    requires
        0 <= i,
        0 <= n,
        i + n <= raw.len(),
        forall|k: int| i <= k < i + n ==> !starts_dash(#[trigger] raw[k]),
    ensures
        parse_from(raw, i, a, true) == parse_from(
            raw,
            i + n,
            ArgsModel { play: a.play + raw.subrange(i, i + n), ..a },
            true,
        ),
    decreases n,
{
    if n > 0 {
        let a1 = ArgsModel { play: a.play.push(raw[i]), ..a };
        lemma_play_run(raw, i + 1, n - 1, a1);
        assert(a1.play + raw.subrange(i + 1, i + n) =~= a.play + raw.subrange(i, i + n));
    } else {
        assert(a.play + raw.subrange(i, i) =~= a.play);
    }
}

/// `--play` takes every following argument up to the next flag (or the end)
/// as a file to play, after the one given inline if any; the flags after them
/// are read as they would be on their own.
#[verifier::spinoff_prover]
#[verifier::rlimit(80)]
pub proof fn play_takes_paths_until_the_next_flag(first: Seq<char>, paths: Seq<Seq<char>>, rest: Seq<Seq<char>>)
    requires
        forall|k: int| 0 <= k < paths.len() ==> !starts_dash(#[trigger] paths[k]),
        rest.len() > 0 ==> starts_dash(rest[0]),
    ensures
        parse_spec(seq!["--play"@] + paths + rest) == prefix_play(parse_spec(rest), paths),
        parse_spec(seq!["--play"@ + seq!['='] + first] + paths + rest) == prefix_play(
            parse_spec(rest),
            seq![first] + paths,
        ),
{
    let d = default_args();
    lemma_play_key(d);
    let n = paths.len() as int;
    // The flag written on its own.
    let raw = seq!["--play"@] + paths + rest;
    assert(raw[0] == "--play"@);
    assert(parse_spec(raw) == parse_from(raw, 1, d, true));
    assert forall|k: int| 1 <= k < 1 + n implies !starts_dash(#[trigger] raw[k]) by {
        assert(raw[k] == paths[k - 1]);
    }
    lemma_play_run(raw, 1, n, d);
    assert(raw.subrange(1, 1 + n) =~= paths);
    let dp = ArgsModel { play: d.play + paths, ..d };
    assert(dp.play =~= paths + d.play);
    assert(dp == with_play(d, paths));
    if rest.len() > 0 {
        assert(raw[1 + n] == rest[0]);
    }
    assert(parse_from(raw, 1 + n, dp, true) == parse_from(raw, 1 + n, dp, false));
    lemma_parse_suffix(raw, 1 + n, dp, false);
    assert(raw.skip(1 + n) =~= rest);
    lemma_play_prefix_carries(rest, 0, d, false, paths);
    // The flag with its first file inline.
    let tok = "--play"@ + seq!['='] + first;
    let raw2 = seq![tok] + paths + rest;
    assert(raw2[0] == tok);
    lemma_first_index(tok, '=', 6);
    assert(key_of(tok) =~= "--play"@);
    assert(inline_of(tok) == Some(first)) by {
        assert(tok.subrange(7, tok.len() as int) =~= first);
    }
    let d1 = ArgsModel { play: d.play.push(first), ..d };
    assert(parse_spec(raw2) == parse_from(raw2, 1, d1, true));
    assert forall|k: int| 1 <= k < 1 + n implies !starts_dash(#[trigger] raw2[k]) by {
        assert(raw2[k] == paths[k - 1]);
    }
    lemma_play_run(raw2, 1, n, d1);
    assert(raw2.subrange(1, 1 + n) =~= paths);
    let x = seq![first] + paths;
    let dq = ArgsModel { play: d1.play + paths, ..d1 };
    assert(dq.play =~= x + d.play);
    assert(dq == with_play(d, x));
    if rest.len() > 0 {
        assert(raw2[1 + n] == rest[0]);
    }
    assert(parse_from(raw2, 1 + n, dq, true) == parse_from(raw2, 1 + n, dq, false));
    lemma_parse_suffix(raw2, 1 + n, dq, false);
    assert(raw2.skip(1 + n) =~= rest);
    lemma_play_prefix_carries(rest, 0, d, false, x);
}

/// Everything in the help text after the version number.
pub const USAGE_TAIL: &'static str = "\n\
         \n\
         USAGE / 用法:\n\
         \x20 desktop-music-widget [OPTIONS]\n\
         \n\
         OPTIONS:\n\
         \x20 -h, --help              Show this help / 显示帮助\n\
         \x20 -V, --version           Show version / 显示版本\n\
         \x20     --config-dir <DIR>  Use DIR for config and logs / 指定配置目录\n\
         \x20     --portable          Keep config next to the exe / 便携模式\n\
         \x20     --lang <LANG>       auto | zh-CN | en / 界面语言\n\
         \x20     --autoplay, --no-autoplay\n\
         \x20                         Override autoplay for this run / 本次运行是否自动播放\n\
         \x20     --install-autostart Add to the logon entry / 写入开机自启\n\
         \x20     --remove-autostart  Remove the logon entry / 移除开机自启\n\
         \x20     --open-config       Open config.toml and exit / 打开配置文件\n\
         \x20     --open-settings     Open the settings window at startup / 启动时打开设置\n\
         \x20     --reset-config      Back up and rewrite defaults / 重置配置\n\
         \x20     --dump-config       Print the effective config / 打印当前配置\n\
         \x20     --count-tracks [--dir <DIR>]\n\
         \x20                         Count tracks and exit / 统计曲目数量\n\
         \x20     --play <FILE>...    Play these files instead of the library / 直接播放\n\
         \x20 -v, --verbose           Also log to the console / 输出日志到控制台\n";

/// The help text: the program name and version, then every option.
pub fn usage() -> (r: String)
    ensures
        r@ == "DesktopMusicWidget "@ + crate::VERSION@ + USAGE_TAIL@,
{
    let mut s = String::from_str("DesktopMusicWidget ");
    s.append(crate::VERSION);
    s.append(USAGE_TAIL);
    s
}

} // verus!
