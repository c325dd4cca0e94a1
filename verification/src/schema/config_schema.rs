//! Helpers of the configuration schema: enum keys, normalisation of notification
//! filters, custom colours, and desktop-widget paths.

use vstd::prelude::*;
use crate::text::{lemma_push_contains, trim_whitespace, spec_trim_whitespace, to_lowercase, lowercase, str_equal, push_decimal, spec_decimal};
use crate::types::wallpaper::WallpaperTransition;
use crate::types::notification::NotificationFilterConfig;
use crate::types::theme::TemplateColorConfig;
use crate::value::{TomlTable, TomlValue, TomlData, TableData, lookup};

verus! {

/// The configuration key of each wallpaper transition.
pub open spec fn spec_wallpaper_transition_key(t: WallpaperTransition) -> Seq<char> {
    match t {
        WallpaperTransition::Fade => "fade"@,
        WallpaperTransition::Wipe => "wipe"@,
        WallpaperTransition::Disc => "disc"@,
        WallpaperTransition::Stripes => "stripes"@,
        WallpaperTransition::Zoom => "zoom"@,
        WallpaperTransition::Honeycomb => "honeycomb"@,
    }
}

/// The transition whose key is `s`, if any.
pub open spec fn spec_transition_from_key(s: Seq<char>) -> Option<WallpaperTransition> {
    if s == "fade"@ { Some(WallpaperTransition::Fade) }
    else if s == "wipe"@ { Some(WallpaperTransition::Wipe) }
    else if s == "disc"@ { Some(WallpaperTransition::Disc) }
    else if s == "stripes"@ { Some(WallpaperTransition::Stripes) }
    else if s == "zoom"@ { Some(WallpaperTransition::Zoom) }
    else if s == "honeycomb"@ { Some(WallpaperTransition::Honeycomb) }
    else { None }
}

/// The configuration key of `t`.
pub fn wallpaper_transition_key(t: WallpaperTransition) -> (k: &'static str)
    ensures
        k@ == spec_wallpaper_transition_key(t),
{
    match t {
        WallpaperTransition::Fade => "fade",
        WallpaperTransition::Wipe => "wipe",
        WallpaperTransition::Disc => "disc",
        WallpaperTransition::Stripes => "stripes",
        WallpaperTransition::Zoom => "zoom",
        WallpaperTransition::Honeycomb => "honeycomb",
    }
}

/// The transition named by `s`, surrounding whitespace ignored.
pub fn parse_wallpaper_transition(s: &str) -> (r: Option<WallpaperTransition>)
    ensures
        r == spec_transition_from_key(spec_trim_whitespace(s@)),
{
    let t = trim_whitespace(s);
    if str_equal(t, "fade") { Some(WallpaperTransition::Fade) }
    else if str_equal(t, "wipe") { Some(WallpaperTransition::Wipe) }
    else if str_equal(t, "disc") { Some(WallpaperTransition::Disc) }
    else if str_equal(t, "stripes") { Some(WallpaperTransition::Stripes) }
    else if str_equal(t, "zoom") { Some(WallpaperTransition::Zoom) }
    else if str_equal(t, "honeycomb") { Some(WallpaperTransition::Honeycomb) }
    else { None }
}

/// Writing a transition's key and parsing it back gives the transition.
pub proof fn lemma_wallpaper_transition_round_trip(t: WallpaperTransition)
    ensures
        spec_transition_from_key(spec_wallpaper_transition_key(t)) == Some(t),
        spec_trim_whitespace(spec_wallpaper_transition_key(t)) == spec_wallpaper_transition_key(t),
{
    reveal_strlit("fade");
    reveal_strlit("wipe");
    reveal_strlit("disc");
    reveal_strlit("stripes");
    reveal_strlit("zoom");
    reveal_strlit("honeycomb");
    let k = spec_wallpaper_transition_key(t);
    assert(k.len() > 0 && !crate::text::is_unicode_whitespace(k[0]) && !crate::text::is_unicode_whitespace(k[k.len() - 1]));
    crate::text::lemma_trim_untouched(k);
    assert("fade"@ != "wipe"@ && "fade"@ != "disc"@ && "wipe"@ != "disc"@) by {
        assert("fade"@[0] != "wipe"@[0]);
        assert("fade"@[0] != "disc"@[0]);
        assert("wipe"@[0] != "disc"@[0]);
    }
    assert("fade"@.len() != "stripes"@.len() && "fade"@.len() != "honeycomb"@.len());
    assert("wipe"@.len() != "stripes"@.len() && "wipe"@.len() != "honeycomb"@.len());
    assert("disc"@.len() != "stripes"@.len() && "disc"@.len() != "honeycomb"@.len());
    assert("fade"@[0] != "zoom"@[0] && "wipe"@[0] != "zoom"@[0] && "disc"@[0] != "zoom"@[0]);
    assert("stripes"@.len() != "zoom"@.len() && "stripes"@.len() != "honeycomb"@.len());
    assert("zoom"@.len() != "honeycomb"@.len());
}

/// `path` with a leading `~` expanded against the home directory `home`:
/// `~` alone becomes `home`, `~/rest` becomes `home/rest`; any other path, or
/// a missing or empty home, leaves `path` as it is.
pub open spec fn spec_expand_user_path(path: Seq<char>, home: Option<Seq<char>>) -> Seq<char> {
    match home {
        Some(h) => if h.len() > 0 && path == "~"@ {
            h
        } else if h.len() > 0 && "~/"@.is_prefix_of(path) {
            h + path.skip(1)
        } else {
            path
        },
        None => path,
    }
}

/// Expands a leading `~` of `path` against the home directory `home` (the
/// value of `HOME`, if set); see [`spec_expand_user_path`].
pub fn expand_user_path(path: &str, home: Option<&str>) -> (r: String)
    ensures
        r@ == spec_expand_user_path(path@, match home { Some(h) => Some(h@), None => None }),
{
    let pv = crate::text::chars_of(path);
    if pv.len() == 0 || pv[0] != '~' {
        proof {
            reveal_strlit("~");
            reveal_strlit("~/");
            if pv.len() > 0 {
                assert("~/"@[0] == '~');
                assert(!"~/"@.is_prefix_of(path@)) by {
                    if "~/"@.is_prefix_of(path@) {
                        assert(path@[0] == "~/"@[0]);
                    }
                }
                assert(path@ != "~"@) by {
                    if path@ == "~"@ {
                        assert(path@[0] == '~');
                    }
                }
            }
        }
        return path.to_owned();
    }
    match home {
        Some(h) => {
            if h.is_empty() {
                return path.to_owned();
            }
            if str_equal(path, "~") {
                return h.to_owned();
            }
            if crate::text::starts_with(path, "~/") {
                let mut r = h.to_owned();
                let mut i: usize = 1;
                while i < pv.len()
                    invariant
                        pv@ == path@,
                        1 <= i <= pv@.len(),
                        r@ == h@ + path@.subrange(1, i as int),
                    decreases pv.len() - i,
                {
                    crate::text::push_char(&mut r, pv[i]);
                    assert(path@.subrange(1, i + 1) =~= path@.subrange(1, i as int).push(pv@[i as int]));
                    i += 1;
                }
                assert(path@.subrange(1, pv@.len() as int) =~= path@.skip(1));
                return r;
            }
            path.to_owned()
        },
        None => path.to_owned(),
    }
}

/// A notification match token in the form filters compare: trimmed and lower-cased.
pub fn normalize_notification_match_token(token: &str) -> (r: String)
    ensures
        r@ == lowercase(spec_trim_whitespace(token@)),
{
    to_lowercase(trim_whitespace(token))
}

/// Each allowed-urgency string trimmed and lower-cased, in order.
pub fn normalize_filter_allowed_urgency_strings(urgencies: Vec<String>) -> (r: Vec<String>)
    ensures
        r@.len() == urgencies@.len(),
        forall|i: int| 0 <= i < r@.len() ==> #[trigger] r@[i]@ == lowercase(spec_trim_whitespace(urgencies@[i]@)),
{
    let mut r: Vec<String> = Vec::new();
    let mut i: usize = 0;
    while i < urgencies.len()
        invariant
            0 <= i <= urgencies.len(),
            r@.len() == i,
            forall|k: int| 0 <= k < i ==> #[trigger] r@[k]@ == lowercase(spec_trim_whitespace(urgencies@[k]@)),
        decreases urgencies.len() - i,
    {
        r.push(normalize_notification_match_token(urgencies[i].as_str()));
        i += 1;
    }
    r
}

/// The name an unnamed filter at position `i` gets.
pub open spec fn default_filter_name(i: nat) -> Seq<char> {
    "filter_"@ + spec_decimal(i)
}

/// Gives every unnamed filter the name `filter_<position>`; other fields are kept.
pub fn normalize_notification_filter_names(filters: &mut Vec<NotificationFilterConfig>)
    ensures
        final(filters)@.len() == old(filters)@.len(),
        forall|i: int| 0 <= i < final(filters)@.len() ==> {
            &&& (#[trigger] final(filters)@[i]).name@ == if old(filters)@[i].name@.len() == 0 {
                default_filter_name(i as nat)
            } else {
                old(filters)@[i].name@
            }
            &&& final(filters)@[i].enabled == old(filters)@[i].enabled
            &&& final(filters)@[i].match_ == old(filters)@[i].match_
            &&& final(filters)@[i].match_content == old(filters)@[i].match_content
            &&& final(filters)@[i].show_toast == old(filters)@[i].show_toast
            &&& final(filters)@[i].save_history == old(filters)@[i].save_history
            &&& final(filters)@[i].play_sound == old(filters)@[i].play_sound
            &&& final(filters)@[i].allow_permanent == old(filters)@[i].allow_permanent
            &&& final(filters)@[i].override_duration == old(filters)@[i].override_duration
        },
{
    let ghost f0 = filters@;
    let mut i: usize = 0;
    while i < filters.len()
        invariant
            0 <= i <= filters.len(),
            filters@.len() == f0.len(),
            forall|k: int| i <= k < filters@.len() ==> #[trigger] filters@[k] == f0[k],
            forall|k: int| 0 <= k < i ==> {
                &&& (#[trigger] filters@[k]).name@ == if f0[k].name@.len() == 0 { default_filter_name(k as nat) } else { f0[k].name@ }
                &&& filters@[k].enabled == f0[k].enabled
                &&& filters@[k].match_ == f0[k].match_
                &&& filters@[k].match_content == f0[k].match_content
                &&& filters@[k].show_toast == f0[k].show_toast
                &&& filters@[k].save_history == f0[k].save_history
                &&& filters@[k].play_sound == f0[k].play_sound
                &&& filters@[k].allow_permanent == f0[k].allow_permanent
                &&& filters@[k].override_duration == f0[k].override_duration
            },
        decreases f0.len() - i,
    {
        if filters[i].name.as_str().is_empty() {
            let mut f = filters.remove(i);
            let mut name = "filter_".to_owned();
            push_decimal(&mut name, i as u64);
            f.name = name;
            filters.insert(i, f);
        }
        i += 1;
    }
}

/// A plugin id with something other than whitespace in it.
pub fn is_valid_plugin_id(id: &str) -> (r: bool)
    ensures
        r == (spec_trim_whitespace(id@).len() > 0),
{
    !trim_whitespace(id).is_empty()
}

/// The views of the custom-colour names in a list.
pub open spec fn color_names(v: Seq<TemplateColorConfig>) -> Seq<Seq<char>> {
    v.map_values(|c: TemplateColorConfig| c.name@)
}

/// `into` followed by each colour of `additional` whose name is not taken by
/// `into` or by an earlier colour of `additional`.
pub open spec fn spec_append_unique(into: Seq<TemplateColorConfig>, additional: Seq<TemplateColorConfig>) -> Seq<TemplateColorConfig>
    decreases additional.len(),
{
    if additional.len() == 0 {
        into
    } else {
        let prev = spec_append_unique(into, additional.drop_last());
        if color_names(prev).contains(additional.last().name@) { prev } else { prev.push(additional.last()) }
    }
}

/// Appends each colour of `additional` whose name `into` does not hold yet.
pub fn append_unique_custom_colors(into: &mut Vec<TemplateColorConfig>, additional: Vec<TemplateColorConfig>)
    ensures
        final(into)@ == spec_append_unique(old(into)@, additional@),
{
    let ghost i0 = into@;
    let mut additional = additional;
    let ghost a0 = additional@;
    let mut taken: Vec<TemplateColorConfig> = Vec::new();
    let n = additional.len();
    let mut i: usize = 0;
    while i < n
        invariant
            n == a0.len(),
            0 <= i <= n,
            additional@ == a0.skip(i as int),
            into@ == spec_append_unique(i0, a0.take(i as int)),
        decreases n - i,
    {
        let color = additional.remove(0);
        assert(a0.take(i as int + 1).drop_last() =~= a0.take(i as int));
        assert(a0.take(i as int + 1).last() == color);
        let mut found = false;
        let mut j: usize = 0;
        while j < into.len()
            invariant
                0 <= j <= into.len(),
                found == color_names(into@.take(j as int)).contains(color.name@),
            decreases into.len() - j,
        {
            let same = str_equal(into[j].name.as_str(), color.name.as_str());
            assert(color_names(into@.take(j as int + 1)) =~= color_names(into@.take(j as int)).push(into@[j as int].name@));
            proof { lemma_push_contains(color_names(into@.take(j as int)), into@[j as int].name@, color.name@); }
            if same {
                found = true;
            }
            j += 1;
        }
        assert(into@.take(j as int) =~= into@);
        if !found {
            into.push(color);
        }
        assert(additional@ =~= a0.skip(i as int + 1));
        i += 1;
    }
    assert(a0.take(n as int) =~= a0);
}

/// The fields a desktop widget entry may set.
pub open spec fn desktop_widget_keys() -> Seq<Seq<char>> {
    seq!["id"@, "type"@, "output"@, "cx"@, "cy"@, "box_width"@, "box_height"@, "rotation"@, "flip_x"@,
        "flip_y"@, "enabled"@, "settings"@]
}

/// A path under `desktop_widgets` that the schema knows: the widget order, a
/// widget entry, one of its fields, or anything under its settings.
pub open spec fn spec_is_known_desktop_widget_path(path: Seq<Seq<char>>) -> bool {
    if path.len() == 2 && path[1] == "widget_order"@ {
        true
    } else if path.len() < 2 || path[1] != "widget"@ {
        false
    } else if path.len() <= 3 {
        true
    } else {
        desktop_widget_keys().contains(path[3]) && (path.len() == 4 || path[3] == "settings"@)
    }
}

/// Whether the schema knows the dotted path `path` under `desktop_widgets`.
pub fn is_known_desktop_widget_path(path: &[String]) -> (r: bool)
    ensures
        r == spec_is_known_desktop_widget_path(path@.map_values(|s: String| s@)),
{
    let ghost pv = path@.map_values(|s: String| s@);
    if path.len() == 2 && str_equal(path[1].as_str(), "widget_order") {
        return true;
    }
    if path.len() < 2 || !str_equal(path[1].as_str(), "widget") {
        return false;
    }
    if path.len() <= 3 {
        return true;
    }
    let keys: Vec<&'static str> = vec!["id", "type", "output", "cx", "cy", "box_width", "box_height", "rotation",
        "flip_x", "flip_y", "enabled", "settings"];
    let ghost kv = keys@.map_values(|s: &str| s@);
    assert(kv =~= desktop_widget_keys());
    let key = path[3].as_str();
    let mut known = false;
    let mut i: usize = 0;
    while i < keys.len()
        invariant
            kv == keys@.map_values(|s: &str| s@),
            0 <= i <= keys.len(),
            known == kv.take(i as int).contains(key@),
        decreases keys.len() - i,
    {
        assert(kv.take(i as int + 1) =~= kv.take(i as int).push(kv[i as int]));
        proof { lemma_push_contains(kv.take(i as int), kv[i as int], key@); }
        if str_equal(keys[i], key) {
            known = true;
        }
        i += 1;
    }
    assert(kv.take(keys.len() as int) =~= kv);
    if !known {
        return false;
    }
    path.len() == 4 || str_equal(key, "settings")
}


/// The fields of a custom colour: name, colour, dark and light variants, blending.
pub open spec fn color_view(c: TemplateColorConfig) -> (Seq<char>, Seq<char>, Seq<char>, Seq<char>, bool) {
    (c.name@, c.color@, c.color_dark@, c.color_light@, c.blend)
}

/// The string held under `k`, or empty.
pub open spec fn string_field(t: TableData, k: Seq<char>) -> Seq<char> {
    match lookup(t, k) {
        Some(TomlData::String(s)) => s,
        _ => Seq::empty(),
    }
}

/// The custom colour that the entry `name = v` describes: a string is the
/// colour; a table gives `color` (else the dark, else the light variant), the
/// variants and `blend` (default `true`).
pub open spec fn custom_color_from(name: Seq<char>, v: TomlData) -> (Seq<char>, Seq<char>, Seq<char>, Seq<char>, bool) {
    match v {
        TomlData::String(c) => (name, c, Seq::empty(), Seq::empty(), true),
        TomlData::Table(t) => {
            let dark = string_field(t, "color_dark"@);
            let light = string_field(t, "color_light"@);
            let color = match lookup(t, "color"@) {
                Some(TomlData::String(c)) => c,
                _ => if dark.len() > 0 { dark } else { light },
            };
            let blend = match lookup(t, "blend"@) {
                Some(TomlData::Boolean(b)) => b,
                _ => true,
            };
            (name, color, dark, light, blend)
        },
        _ => (name, Seq::empty(), Seq::empty(), Seq::empty(), true),
    }
}

/// The custom colours described by the first `n` entries of `map`, keeping
/// those whose name and colour are not blank.
pub open spec fn parsed_custom_colors(map: TableData, n: int) -> Seq<(Seq<char>, Seq<char>, Seq<char>, Seq<char>, bool)>
    decreases n,
{
    if n <= 0 || n > map.len() {
        Seq::empty()
    } else {
        let prev = parsed_custom_colors(map, n - 1);
        let c = custom_color_from(map[n - 1].0, map[n - 1].1);
        if spec_trim_whitespace(c.0).len() > 0 && spec_trim_whitespace(c.1).len() > 0 { prev.push(c) } else { prev }
    }
}

fn string_field_exec(t: &TomlTable, k: &str) -> (s: String)
    ensures
        s@ == string_field(t@, k@),
{
    match t.get(k) {
        Some(TomlValue::String(c)) => c.clone(),
        _ => String::new(),
    }
}

/// Appends to `out` the custom colours that the entries of `map` describe; see
/// [`parsed_custom_colors`].
pub fn parse_custom_colors_map(map: &TomlTable, out: &mut Vec<TemplateColorConfig>)
    ensures
        final(out)@.map_values(|c: TemplateColorConfig| color_view(c))
            == old(out)@.map_values(|c: TemplateColorConfig| color_view(c)) + parsed_custom_colors(map@, map@.len() as int),
{
    let ghost o0 = out@.map_values(|c: TemplateColorConfig| color_view(c));
    let n = map.len();
    let mut i: usize = 0;
    while i < n
        invariant
            n == map@.len(),
            0 <= i <= n,
            out@.map_values(|c: TemplateColorConfig| color_view(c)) == o0 + parsed_custom_colors(map@, i as int),
        decreases n - i,
    {
        let name = map.key_at(i).to_owned();
        let v = map.value_at(i);
        let color = match v {
            TomlValue::String(c) => TemplateColorConfig {
                name, color: c.clone(), color_dark: String::new(), color_light: String::new(), blend: true,
            },
            TomlValue::Table(t) => {
                let dark = string_field_exec(t, "color_dark");
                let light = string_field_exec(t, "color_light");
                let c = match t.get("color") {
                    Some(TomlValue::String(c)) => c.clone(),
                    _ => if !dark.as_str().is_empty() { dark.clone() } else { light.clone() },
                };
                let blend = match t.get("blend") {
                    Some(TomlValue::Boolean(b)) => *b,
                    _ => true,
                };
                TemplateColorConfig { name, color: c, color_dark: dark, color_light: light, blend }
            },
            _ => TemplateColorConfig {
                name, color: String::new(), color_dark: String::new(), color_light: String::new(), blend: true,
            },
        };
        assert(color_view(color) == custom_color_from(map@[i as int].0, map@[i as int].1));
        let keep = !trim_whitespace(color.name.as_str()).is_empty() && !trim_whitespace(color.color.as_str()).is_empty();
        let ghost before = out@;
        if keep {
            out.push(color);
            assert(out@.map_values(|c: TemplateColorConfig| color_view(c))
                =~= before.map_values(|c: TemplateColorConfig| color_view(c)).push(custom_color_from(map@[i as int].0, map@[i as int].1)));
        }
        i += 1;
    }
}

} // verus!
