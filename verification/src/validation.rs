//! What validation promises of the configuration as a whole: whatever was
//! read from disk, the validated config is usable; a config that is already
//! clean passes through unchanged and without a warning; the shipped
//! defaults are such a config.

use vstd::prelude::*;
use crate::config::{
    migrate_model, migrate_spec, canonical, canonical_from, clean_extensions, clean_list, clamp_spec, enum_warnings, fixed_enum,
    is_default, normalize_ext, normalize_exts, range_warnings, rest_spec, rest_warnings, shape_spec,
    shape_warnings, strs_view, ConfigModel, ANCHORS, CONFIG_VERSION, DEFAULT_EXTENSIONS,
    HEIGHT_RANGE, HOTKEY_PRESETS, LANGUAGES, MODES, MONITOR_RANGE, PLAY_MODES, SHOW_CONTROLS,
    WIDTH_RANGE,
};
use crate::lists::{dedup, drop_empty, lemma_dedup, lemma_dedup_distinct, lemma_drop_empty, lemma_trim_all, trim_all};
use crate::text::{
    lemma_lower_ascii_seq, lemma_strip_dots_shape, lemma_trim_idempotent, lower_ascii_seq, strip_dots,
    trim,
};

verus! {

/// A cleaned path list: every entry non-empty and trimmed, none repeated.
pub open spec fn clean_entries(v: Seq<Seq<char>>) -> bool {
    &&& v.no_duplicates()
    &&& forall|i: int| 0 <= i < v.len() ==> v[i].len() > 0 && #[trigger] trim(v[i]) == v[i]
}

/// A usable extension: non-empty, ASCII lower case, no leading dot.
pub open spec fn clean_extension(e: Seq<char>) -> bool {
    &&& e.len() > 0
    &&& e[0] != '.'
    &&& lower_ascii_seq(e) == e
}

/// A usable extension list: at least one entry, each usable, none repeated.
pub open spec fn clean_extension_list(v: Seq<Seq<char>>) -> bool {
    &&& v.len() > 0
    &&& v.no_duplicates()
    &&& forall|i: int| 0 <= i < v.len() ==> #[trigger] clean_extension(v[i])
}

/// What every validated config satisfies.
pub open spec fn is_valid(c: ConfigModel) -> bool {
    &&& c.config_version == CONFIG_VERSION
    &&& strs_view(LANGUAGES@).contains(c.language)
    &&& strs_view(PLAY_MODES@).contains(c.play_mode)
    &&& strs_view(MODES@).contains(c.mode)
    &&& strs_view(ANCHORS@).contains(c.anchor)
    &&& strs_view(SHOW_CONTROLS@).contains(c.show_controls)
    &&& strs_view(HOTKEY_PRESETS@).contains(c.hotkey_preset)
    &&& WIDTH_RANGE.0 <= c.width <= WIDTH_RANGE.1
    &&& HEIGHT_RANGE.0 <= c.height <= HEIGHT_RANGE.1
    &&& MONITOR_RANGE.0 <= c.monitor <= MONITOR_RANGE.1
    &&& c.volume <= 100
    &&& trim(c.font_family).len() > 0
    &&& clean_entries(c.library)
    &&& clean_entries(c.exclude_dirs)
    &&& clean_extension_list(c.extensions)
}

/// The allowed values of an enum field: trimmed, and no two of them equal
/// once lower-cased.
pub open spec fn distinct_choices(allowed: Seq<Seq<char>>) -> bool {
    &&& forall|i: int| 0 <= i < allowed.len() ==> #[trigger] trim(allowed[i]) == allowed[i]
    &&& forall|i: int, j: int|
        0 <= i < allowed.len() && 0 <= j < allowed.len() && i != j ==> lower_ascii_seq(
            #[trigger] allowed[i],
        ) != lower_ascii_seq(#[trigger] allowed[j])
}

proof fn lemma_canonical_from_member(allowed: Seq<Seq<char>>, t: Seq<char>, i: int)
    ensures
        canonical_from(allowed, t, i) is Some ==> allowed.contains(canonical_from(allowed, t, i)->0),
    decreases allowed.len() - i,
{
    if 0 <= i < allowed.len() {
        if lower_ascii_seq(allowed[i]) == t {
            assert(allowed[i] == canonical_from(allowed, t, i)->0);
        } else {
            lemma_canonical_from_member(allowed, t, i + 1);
        }
    }
}

/// A validated enum field holds one of the allowed values.
proof fn lemma_fixed_enum_member(v: Seq<char>, allowed: Seq<Seq<char>>, default: Seq<char>)
    requires
        allowed.contains(default),
    ensures
        allowed.contains(fixed_enum(v, allowed, default)),
{
    lemma_canonical_from_member(allowed, lower_ascii_seq(trim(v)), 0);
}

proof fn lemma_canonical_scan(allowed: Seq<Seq<char>>, k: int, i: int)
    requires
        distinct_choices(allowed),
        0 <= i <= k < allowed.len(),
    ensures
        canonical_from(allowed, lower_ascii_seq(allowed[k]), i) == Some(allowed[k]),
    decreases k - i,
{
    if i < k {
        assert(lower_ascii_seq(allowed[i]) != lower_ascii_seq(allowed[k]));
        lemma_canonical_scan(allowed, k, i + 1);
    }
}

/// An allowed value is its own canonical spelling.
proof fn lemma_canonical_of_choice(allowed: Seq<Seq<char>>, v: Seq<char>)
    requires
        distinct_choices(allowed),
        allowed.contains(v),
    ensures
        canonical(allowed, v) == Some(v),
{
    let k = choose|k: int| 0 <= k < allowed.len() && allowed[k] == v;
    assert(trim(allowed[k]) == allowed[k]);
    lemma_canonical_scan(allowed, k, 0);
}

proof fn lemma_lower_differs(a: Seq<char>, b: Seq<char>)
    requires
        a.len() != b.len() || (a.len() > 0 && b.len() > 0 && crate::text::lower_ascii(a[0])
            != crate::text::lower_ascii(b[0])),
    ensures
        lower_ascii_seq(a) != lower_ascii_seq(b),
{
    lemma_lower_ascii_seq(a);
    lemma_lower_ascii_seq(b);
    if a.len() == b.len() {
        assert(lower_ascii_seq(a)[0] != lower_ascii_seq(b)[0]);
    }
}

spec fn sig(s: Seq<char>) -> (nat, char, char, char) {
    (s.len(), s[0], s[1], s[2])
}

/// The enum lists as written, with their defaults among them.
proof fn lemma_enum_lists()
    ensures
        distinct_choices(strs_view(LANGUAGES@)),
        distinct_choices(strs_view(PLAY_MODES@)),
        distinct_choices(strs_view(MODES@)),
        distinct_choices(strs_view(ANCHORS@)),
        distinct_choices(strs_view(SHOW_CONTROLS@)),
        distinct_choices(strs_view(HOTKEY_PRESETS@)),
        strs_view(LANGUAGES@).contains("auto"@),
        strs_view(PLAY_MODES@).contains("shuffle"@),
        strs_view(MODES@).contains("bottom"@),
        strs_view(ANCHORS@).contains("top-center"@),
        strs_view(SHOW_CONTROLS@).contains("hover"@),
        strs_view(HOTKEY_PRESETS@).contains("ctrl-alt"@),
{
    reveal_strlit("auto");
    reveal_strlit("zh-CN");
    reveal_strlit("en");
    reveal_strlit("sequential");
    reveal_strlit("shuffle");
    reveal_strlit("repeat-one");
    reveal_strlit("bottom");
    reveal_strlit("topmost");
    reveal_strlit("top-left");
    reveal_strlit("top-center");
    reveal_strlit("top-right");
    reveal_strlit("free");
    reveal_strlit("hover");
    reveal_strlit("always");
    reveal_strlit("ctrl-alt");
    reveal_strlit("ctrl-shift-alt");
    let lang = strs_view(LANGUAGES@);
    let play = strs_view(PLAY_MODES@);
    let modes = strs_view(MODES@);
    let anchors = strs_view(ANCHORS@);
    let controls = strs_view(SHOW_CONTROLS@);
    let presets = strs_view(HOTKEY_PRESETS@);
    assert(lang =~= seq!["auto"@, "zh-CN"@, "en"@]);
    assert(play =~= seq!["sequential"@, "shuffle"@, "repeat-one"@]);
    assert(modes =~= seq!["bottom"@, "topmost"@]);
    assert(anchors =~= seq!["top-left"@, "top-center"@, "top-right"@, "free"@]);
    assert(controls =~= seq!["hover"@, "always"@]);
    assert(presets =~= seq!["ctrl-alt"@, "ctrl-shift-alt"@]);
    assert(lang[0] == "auto"@);
    assert(play[1] == "shuffle"@);
    assert(modes[0] == "bottom"@);
    assert(anchors[1] == "top-center"@);
    assert(controls[0] == "hover"@);
    assert(presets[0] == "ctrl-alt"@);
    assert forall|s: Seq<char>|
        #![trigger trim(s)]
        lang.contains(s) || play.contains(s) || modes.contains(s) || anchors.contains(s)
            || controls.contains(s) || presets.contains(s) implies trim(s) == s by {
        assert(s.len() > 0 && !crate::text::is_ws(s[0]) && !crate::text::is_ws(s.last()));
    }
    assert(distinct_choices(lang)) by {
        assert forall|i: int| 0 <= i < lang.len() implies #[trigger] trim(lang[i]) == lang[i] by {
            assert(lang.contains(lang[i]));
        }
        assert forall|i: int, j: int|
            0 <= i < lang.len() && 0 <= j < lang.len() && i != j implies lower_ascii_seq(
            #[trigger] lang[i],
        ) != lower_ascii_seq(#[trigger] lang[j]) by {
            lemma_lower_differs(lang[i], lang[j]);
        }
    }
    assert(distinct_choices(play)) by {
        assert forall|i: int| 0 <= i < play.len() implies #[trigger] trim(play[i]) == play[i] by {
            assert(play.contains(play[i]));
        }
        assert forall|i: int, j: int|
            0 <= i < play.len() && 0 <= j < play.len() && i != j implies lower_ascii_seq(
            #[trigger] play[i],
        ) != lower_ascii_seq(#[trigger] play[j]) by {
            lemma_lower_differs(play[i], play[j]);
        }
    }
    assert(distinct_choices(modes)) by {
        assert forall|i: int| 0 <= i < modes.len() implies #[trigger] trim(modes[i]) == modes[i] by {
            assert(modes.contains(modes[i]));
        }
        assert forall|i: int, j: int|
            0 <= i < modes.len() && 0 <= j < modes.len() && i != j implies lower_ascii_seq(
            #[trigger] modes[i],
        ) != lower_ascii_seq(#[trigger] modes[j]) by {
            lemma_lower_differs(modes[i], modes[j]);
        }
    }
    assert(distinct_choices(anchors)) by {
        assert forall|i: int| 0 <= i < anchors.len() implies #[trigger] trim(anchors[i])
            == anchors[i] by {
            assert(anchors.contains(anchors[i]));
        }
        assert forall|i: int, j: int|
            0 <= i < anchors.len() && 0 <= j < anchors.len() && i != j implies lower_ascii_seq(
            #[trigger] anchors[i],
        ) != lower_ascii_seq(#[trigger] anchors[j]) by {
            lemma_lower_differs(anchors[i], anchors[j]);
        }
    }
    assert(distinct_choices(controls)) by {
        assert forall|i: int| 0 <= i < controls.len() implies #[trigger] trim(controls[i])
            == controls[i] by {
            assert(controls.contains(controls[i]));
        }
        assert forall|i: int, j: int|
            0 <= i < controls.len() && 0 <= j < controls.len() && i != j implies lower_ascii_seq(
            #[trigger] controls[i],
        ) != lower_ascii_seq(#[trigger] controls[j]) by {
            lemma_lower_differs(controls[i], controls[j]);
        }
    }
    assert(distinct_choices(presets)) by {
        assert forall|i: int| 0 <= i < presets.len() implies #[trigger] trim(presets[i])
            == presets[i] by {
            assert(presets.contains(presets[i]));
        }
        assert forall|i: int, j: int|
            0 <= i < presets.len() && 0 <= j < presets.len() && i != j implies lower_ascii_seq(
            #[trigger] presets[i],
        ) != lower_ascii_seq(#[trigger] presets[j]) by {
            lemma_lower_differs(presets[i], presets[j]);
        }
    }
}

/// The default extension list is clean, and each entry is trimmed.
proof fn lemma_default_extensions()
    ensures
        clean_extension_list(strs_view(DEFAULT_EXTENSIONS@)),
        forall|i: int|
            0 <= i < strs_view(DEFAULT_EXTENSIONS@).len() ==> #[trigger] trim(
                strs_view(DEFAULT_EXTENSIONS@)[i],
            ) == strs_view(DEFAULT_EXTENSIONS@)[i],
{
    reveal_strlit("mp3");
    reveal_strlit("flac");
    reveal_strlit("wav");
    reveal_strlit("m4a");
    reveal_strlit("m4b");
    reveal_strlit("aac");
    reveal_strlit("ogg");
    reveal_strlit("oga");
    reveal_strlit("aiff");
    let v = strs_view(DEFAULT_EXTENSIONS@);
    assert(v =~= seq!["mp3"@, "flac"@, "wav"@, "m4a"@, "m4b"@, "aac"@, "ogg"@, "oga"@, "aiff"@]);
    assert(sig("mp3"@) == (3nat, 'm', 'p', '3'));
    assert(sig("flac"@) == (4nat, 'f', 'l', 'a'));
    assert(sig("wav"@) == (3nat, 'w', 'a', 'v'));
    assert(sig("m4a"@) == (3nat, 'm', '4', 'a'));
    assert(sig("m4b"@) == (3nat, 'm', '4', 'b'));
    assert(sig("aac"@) == (3nat, 'a', 'a', 'c'));
    assert(sig("ogg"@) == (3nat, 'o', 'g', 'g'));
    assert(sig("oga"@) == (3nat, 'o', 'g', 'a'));
    assert(sig("aiff"@) == (4nat, 'a', 'i', 'f'));
    assert(v.no_duplicates());
    assert forall|i: int| 0 <= i < v.len() implies #[trigger] clean_extension(v[i]) && trim(v[i])
        == v[i] by {
        let e = v[i];
        assert(e.len() > 0 && !crate::text::is_ws(e[0]) && !crate::text::is_ws(e.last()));
        assert(forall|k: int| 0 <= k < e.len() ==> !('A' <= #[trigger] e[k] && e[k] <= 'Z'));
        assert(lower_ascii_seq(e) =~= e);
    }
}

/// Whatever was read from disk, the validated config is usable: every enum
/// field holds an allowed value, the numbers are in range, the font is not
/// blank, the folder and exclusion lists hold non-empty trimmed entries
/// without repeats, and the extension list is non-empty, lower case, without
/// leading dots and without repeats.
pub proof fn validated_config_is_valid(c: ConfigModel)
    ensures
        is_valid(rest_spec(shape_spec(c))),
{
    let s = shape_spec(c);
    let r = rest_spec(s);
    lemma_enum_lists();
    lemma_fixed_enum_member(c.language, strs_view(LANGUAGES@), "auto"@);
    lemma_fixed_enum_member(c.play_mode, strs_view(PLAY_MODES@), "shuffle"@);
    lemma_fixed_enum_member(c.mode, strs_view(MODES@), "bottom"@);
    lemma_fixed_enum_member(c.anchor, strs_view(ANCHORS@), "top-center"@);
    lemma_fixed_enum_member(c.show_controls, strs_view(SHOW_CONTROLS@), "hover"@);
    lemma_fixed_enum_member(c.hotkey_preset, strs_view(HOTKEY_PRESETS@), "ctrl-alt"@);
    assert(trim(r.font_family).len() > 0) by {
        reveal_strlit("Segoe UI");
        if trim(s.font_family).len() == 0 {
            assert(r.font_family == "Segoe UI"@);
            assert(!crate::text::is_ws(r.font_family[0]) && !crate::text::is_ws(
                r.font_family.last(),
            ));
        }
    }
    lemma_clean_list(s.library);
    lemma_clean_list(s.exclude_dirs);
    lemma_clean_extensions(s.extensions);
}

proof fn lemma_clean_list(v: Seq<Seq<char>>)
    ensures
        clean_entries(clean_list(v)),
{
    let t = trim_all(v);
    let d = drop_empty(t);
    let r = dedup(d);
    lemma_trim_all(v);
    lemma_drop_empty(t);
    lemma_dedup(d);
    assert forall|i: int| #![trigger r[i]] 0 <= i < r.len() implies r[i].len() > 0 && trim(r[i])
        == r[i] by {
        assert(r.contains(r[i]));
        assert(d.contains(r[i]));
    }
    assert(clean_list(v) == r);
    assert(clean_entries(r));
}

proof fn lemma_clean_extensions(v: Seq<Seq<char>>)
    ensures
        clean_extension_list(clean_extensions(v)),
{
    let n = normalize_exts(v);
    let d = drop_empty(n);
    let r = dedup(d);
    if r.len() == 0 {
        lemma_default_extensions();
    } else {
        lemma_drop_empty(n);
        lemma_dedup(d);
        assert forall|i: int| 0 <= i < r.len() implies #[trigger] clean_extension(r[i]) by {
            let x = r[i];
            assert(r.contains(x));
            assert(n.contains(x) && x.len() > 0);
            let k = choose|k: int| 0 <= k < n.len() && n[k] == x;
            let sd = strip_dots(trim(v[k]));
            assert(x == lower_ascii_seq(sd));
            lemma_strip_dots_shape(trim(v[k]));
            lemma_lower_ascii_seq(sd);
        }
    }
}

/// A valid config whose extensions are also trimmed comes back from
/// validation unchanged, and nothing is reported.
pub proof fn validation_keeps_a_clean_config(c: ConfigModel)
    requires
        is_valid(c),
        forall|i: int| 0 <= i < c.extensions.len() ==> #[trigger] trim(c.extensions[i]) == c.extensions[i],
    ensures
        rest_spec(shape_spec(c)) == c,
        shape_warnings(c) + rest_warnings(shape_spec(c)) == Seq::<Seq<char>>::empty(),
{
    lemma_enum_lists();
    lemma_canonical_of_choice(strs_view(LANGUAGES@), c.language);
    lemma_canonical_of_choice(strs_view(PLAY_MODES@), c.play_mode);
    lemma_canonical_of_choice(strs_view(MODES@), c.mode);
    lemma_canonical_of_choice(strs_view(ANCHORS@), c.anchor);
    lemma_canonical_of_choice(strs_view(SHOW_CONTROLS@), c.show_controls);
    lemma_canonical_of_choice(strs_view(HOTKEY_PRESETS@), c.hotkey_preset);
    let s = shape_spec(c);
    assert(s == c);
    assert(shape_warnings(c) =~= Seq::<Seq<char>>::empty());
    // The lists are already clean.
    assert forall|i: int| 0 <= i < c.library.len() implies c.library[i].len() > 0 by {
        assert(trim(c.library[i]) == c.library[i]);
    }
    assert forall|i: int| 0 <= i < c.exclude_dirs.len() implies c.exclude_dirs[i].len() > 0 by {
        assert(trim(c.exclude_dirs[i]) == c.exclude_dirs[i]);
    }
    assert forall|i: int| 0 <= i < c.extensions.len() implies c.extensions[i].len() > 0 by {
        assert(clean_extension(c.extensions[i]));
    }
    assert(trim_all(c.library) =~= c.library);
    assert(trim_all(c.exclude_dirs) =~= c.exclude_dirs);
    lemma_drop_empty(c.library);
    lemma_drop_empty(c.exclude_dirs);
    lemma_dedup_distinct(c.library);
    lemma_dedup_distinct(c.exclude_dirs);
    assert(clean_list(c.library) == c.library);
    assert(clean_list(c.exclude_dirs) == c.exclude_dirs);
    assert forall|i: int| 0 <= i < c.extensions.len() implies #[trigger] normalize_ext(c.extensions[i])
        == c.extensions[i] by {
        let e = c.extensions[i];
        assert(clean_extension(e));
        lemma_strip_dots_shape(e);
    }
    assert(normalize_exts(c.extensions) =~= c.extensions);
    lemma_drop_empty(c.extensions);
    lemma_dedup_distinct(c.extensions);
    assert(clean_extensions(c.extensions) == c.extensions);
    assert(rest_spec(s) == c);
    assert(rest_warnings(s) =~= Seq::<Seq<char>>::empty());
}

/// Validation describes every change it makes: on a config of the current
/// schema version, an empty list of warnings means the config came back
/// exactly as it was.
pub proof fn validation_reports_every_change(c: ConfigModel)
    requires
        c.config_version == CONFIG_VERSION,
    ensures
        (shape_warnings(c) + rest_warnings(shape_spec(c))).len() == 0 ==> rest_spec(shape_spec(c)) == c,
{
    let s = shape_spec(c);
    if (shape_warnings(c) + rest_warnings(s)).len() == 0 {
        assert(s == c);
        assert(rest_spec(s) == c);
    }
}

/// The shipped defaults are valid, and validating them changes nothing and
/// reports nothing.
pub proof fn defaults_need_no_correction(c: ConfigModel)
    requires
        is_default(c),
    ensures
        is_valid(c),
        rest_spec(shape_spec(c)) == c,
        shape_warnings(c) + rest_warnings(shape_spec(c)) == Seq::<Seq<char>>::empty(),
{
    lemma_enum_lists();
    lemma_default_extensions();
    reveal_strlit("Segoe UI");
    assert(!crate::text::is_ws(c.font_family[0]) && !crate::text::is_ws(c.font_family.last()));
    assert(c.library.no_duplicates());
    assert(c.exclude_dirs.no_duplicates());
    validation_keeps_a_clean_config(c);
}

/// Migration happens once: a migrated config is current, and migrating it
/// again, whatever the file's text, changes nothing.
pub proof fn migration_happens_once(c: ConfigModel, text: Seq<char>, later: Seq<char>, flag: Option<bool>)
    ensures
        migrate_spec(c, text).config_version >= CONFIG_VERSION,
        migrate_spec(migrate_spec(c, text), later) == migrate_spec(c, text),
        migrate_model(migrate_spec(c, text), flag) == migrate_spec(c, text),
{
}

} // verus!
