//! Identifier rules: which strings may name a plugin, a cache entry or a
//! configuration file.
//!
//! Every string that ends up in a file-system path passes one of the three
//! classifiers of this module first. A string is modelled by its sequence of
//! characters, and lengths are counted in characters.

use vstd::prelude::*;

verus! {

/// Longest plugin id, in characters.
pub const MAX_PLUGIN_ID_LEN: usize = 64;

/// Longest cache key or configuration name, in characters.
pub const MAX_FILE_NAME_LEN: usize = 255;

/// Why a candidate identifier is turned down.
#[derive(Clone, Copy, Debug, PartialEq, Eq, Structural)]
pub enum Rejection {
    /// The string has no characters.
    Empty,
    /// The string has more characters than its kind allows.
    TooLong,
    /// The string holds a `:` or begins with a path separator.
    AbsolutePath,
    /// The string is `.` or `..`, or a separator in it is followed by a dot.
    Traversal,
    /// The string holds `/` or `\`.
    Separator,
    /// The string begins or ends with a dot.
    DotEdge,
    /// The string holds a character outside the alphabet of its kind.
    InvalidChar,
}

/// `/` and `\` both part a path into components.
pub open spec fn is_separator(c: char) -> bool {
    c == '/' || c == '\\'
}

/// The alphabet of plugin ids: ASCII letters and digits, `-` and `_`.
pub open spec fn is_id_char(c: char) -> bool {
    ('a' <= c && c <= 'z') || ('A' <= c && c <= 'Z') || ('0' <= c && c <= '9') || c == '-' || c
        == '_'
}

/// The alphabet of configuration names: that of plugin ids, and the dot.
pub open spec fn is_config_char(c: char) -> bool {
    is_id_char(c) || c == '.'
}

/// Some character of `s` is a path separator.
pub open spec fn has_separator(s: Seq<char>) -> bool {
    exists|i: int| 0 <= i < s.len() && is_separator(#[trigger] s[i])
}

/// `s` is the name of the current or of the parent directory.
pub open spec fn is_dot_name(s: Seq<char>) -> bool {
    s =~= seq!['.'] || s =~= seq!['.', '.']
}

/// `s` names a drive or starts at the root of the file system.
pub open spec fn looks_absolute(s: Seq<char>) -> bool {
    s.contains(':') || (s.len() > 0 && is_separator(s[0]))
}

/// Some separator of `s` is directly followed by a dot.
pub open spec fn has_dot_after_separator(s: Seq<char>) -> bool {
    exists|i: int| 0 <= i && i + 1 < s.len() && is_separator(#[trigger] s[i]) && s[i + 1] == '.'
}

/// `s` begins or ends with a dot.
pub open spec fn has_dot_edge(s: Seq<char>) -> bool {
    s.len() > 0 && (s[0] == '.' || s[s.len() - 1] == '.')
}

/// Every character of `s` belongs to the alphabet of plugin ids.
pub open spec fn all_id_chars(s: Seq<char>) -> bool {
    forall|i: int| 0 <= i < s.len() ==> is_id_char(#[trigger] s[i])
}

/// Every character of `s` belongs to the alphabet of configuration names.
pub open spec fn all_config_chars(s: Seq<char>) -> bool {
    forall|i: int| 0 <= i < s.len() ==> is_config_char(#[trigger] s[i])
}

/// The first rule that `s` breaks as a plugin id, if any: emptiness, then
/// length, then the traversal names, then separators, then the alphabet.
pub open spec fn plugin_id_rejection(s: Seq<char>) -> Option<Rejection> {
    if s.len() == 0 {
        Some(Rejection::Empty)
    } else if s.len() > MAX_PLUGIN_ID_LEN {
        Some(Rejection::TooLong)
    } else if is_dot_name(s) {
        Some(Rejection::Traversal)
    } else if has_separator(s) {
        Some(Rejection::Separator)
    } else if !all_id_chars(s) {
        Some(Rejection::InvalidChar)
    } else {
        None
    }
}

/// The first rule that `s` breaks as a cache key, if any: emptiness, then
/// length, then absolute paths, then traversal, then separators.
pub open spec fn cache_key_rejection(s: Seq<char>) -> Option<Rejection> {
    if s.len() == 0 {
        Some(Rejection::Empty)
    } else if s.len() > MAX_FILE_NAME_LEN {
        Some(Rejection::TooLong)
    } else if looks_absolute(s) {
        Some(Rejection::AbsolutePath)
    } else if is_dot_name(s) || has_dot_after_separator(s) {
        Some(Rejection::Traversal)
    } else if has_separator(s) {
        Some(Rejection::Separator)
    } else {
        None
    }
}

/// The first rule that `s` breaks as a configuration name, if any: those of
/// a cache key in their order, then dots at either end, then the alphabet.
pub open spec fn config_name_rejection(s: Seq<char>) -> Option<Rejection> {
    if cache_key_rejection(s) is Some {
        cache_key_rejection(s)
    } else if has_dot_edge(s) {
        Some(Rejection::DotEdge)
    } else if !all_config_chars(s) {
        Some(Rejection::InvalidChar)
    } else {
        None
    }
}

/// A plugin id: 1 to 64 characters, each an ASCII letter, a digit, `-` or `_`.
pub open spec fn is_plugin_id(s: Seq<char>) -> bool {
    1 <= s.len() <= MAX_PLUGIN_ID_LEN && all_id_chars(s)
}

/// A cache key: 1 to 255 characters that form one file name, which is
/// neither `.` nor `..`, holds no separator and no `:`.
pub open spec fn is_cache_key(s: Seq<char>) -> bool {
    &&& 1 <= s.len() <= MAX_FILE_NAME_LEN
    &&& !s.contains(':')
    &&& !has_separator(s)
    &&& !is_dot_name(s)
}

/// A configuration name: 1 to 255 characters of the configuration alphabet,
/// with no dot at either end.
pub open spec fn is_config_name(s: Seq<char>) -> bool {
    &&& 1 <= s.len() <= MAX_FILE_NAME_LEN
    &&& all_config_chars(s)
    &&& !has_dot_edge(s)
}

/// Whatever holds a path separator, or is `.` or `..`, is no plugin id.
pub proof fn law_plugin_id_rejects_path_syntax(s: Seq<char>)
    requires
        has_separator(s) || is_dot_name(s),
    ensures
        plugin_id_rejection(s) is Some,
{
}

/// One to 64 characters of the id alphabet always make a plugin id.
pub proof fn law_plugin_id_accepts_alphabet(s: Seq<char>)
    requires
        1 <= s.len() <= MAX_PLUGIN_ID_LEN,
        all_id_chars(s),
    ensures
        plugin_id_rejection(s) is None,
{
    if is_dot_name(s) {
        assert(s[0] == '.');
        assert(is_id_char(s[0]));
    }
    if has_separator(s) {
        let i = choose|i: int| 0 <= i < s.len() && is_separator(#[trigger] s[i]);
        assert(is_id_char(s[i]));
    }
}

/// The classifier accepts exactly the plugin ids; the order of its checks
/// decides the reason that is reported, never the outcome.
pub proof fn law_plugin_id_outcome(s: Seq<char>)
    ensures
        plugin_id_rejection(s) is None <==> is_plugin_id(s),
        plugin_id_rejection(s) != Some(Rejection::AbsolutePath),
        plugin_id_rejection(s) != Some(Rejection::DotEdge),
{
    if is_plugin_id(s) {
        law_plugin_id_accepts_alphabet(s);
    }
}

/// The classifier accepts exactly the cache keys.
pub proof fn law_cache_key_outcome(s: Seq<char>)
    ensures
        cache_key_rejection(s) is None <==> is_cache_key(s),
        cache_key_rejection(s) != Some(Rejection::DotEdge),
        cache_key_rejection(s) != Some(Rejection::InvalidChar),
{
    if has_dot_after_separator(s) {
        let i = choose|i: int|
            0 <= i && i + 1 < s.len() && is_separator(#[trigger] s[i]) && s[i + 1] == '.';
        assert(is_separator(s[i]));
    }
    if s.len() > 0 && is_separator(s[0]) {
        assert(has_separator(s));
    }
}

/// The classifier accepts exactly the configuration names, and each of
/// them is a cache key too.
pub proof fn law_config_name_outcome(s: Seq<char>)
    ensures
        config_name_rejection(s) is None <==> is_config_name(s),
        config_name_rejection(s) is None ==> cache_key_rejection(s) is None,
{
    law_cache_key_outcome(s);
    if is_config_name(s) {
        if s.contains(':') {
            let i = choose|i: int| 0 <= i < s.len() && s[i] == ':';
            assert(is_config_char(s[i]));
        }
        if has_separator(s) {
            let i = choose|i: int| 0 <= i < s.len() && is_separator(#[trigger] s[i]);
            assert(is_config_char(s[i]));
        }
        if is_dot_name(s) {
            assert(s[0] == '.');
        }
    }
}

/// Every plugin id would pass as a configuration name and as a cache key.
pub proof fn law_plugin_id_is_file_name(s: Seq<char>)
    requires
        is_plugin_id(s),
    ensures
        is_config_name(s),
        is_cache_key(s),
{
    assert forall|i: int| 0 <= i < s.len() implies is_config_char(#[trigger] s[i]) by {
        assert(is_id_char(s[i]));
    }
    assert(is_id_char(s[0]));
    assert(is_id_char(s[s.len() - 1]));
    law_config_name_outcome(s);
    law_cache_key_outcome(s);
}

/// Collects the characters of `s`, giving up once more than `max` were seen.
fn chars_within(s: &str, max: usize) -> (r: Option<Vec<char>>)
    ensures
        match r {
            Some(v) => v@ == s@ && s@.len() <= max,
            None => s@.len() > max,
        },
{
    let mut v: Vec<char> = Vec::new();
    for c in it: s.chars()
        invariant
            it.seq() == s@,
            v@ == s@.take(it.index()),
            v@.len() <= max,
    {
        if v.len() >= max {
            return None;
        }
        v.push(c);
    }
    Some(v)
}

fn separator(c: char) -> (b: bool)
    ensures
        b == is_separator(c),
{
    c == '/' || c == '\\'
}

fn id_char(c: char) -> (b: bool)
    ensures
        b == is_id_char(c),
{
    ('a' <= c && c <= 'z') || ('A' <= c && c <= 'Z') || ('0' <= c && c <= '9') || c == '-' || c
        == '_'
}

fn holds(v: &Vec<char>, c: char) -> (b: bool)
    ensures
        b == v@.contains(c),
{
    let mut i: usize = 0;
    while i < v.len()
        invariant
            i <= v@.len(),
            forall|j: int| 0 <= j < i ==> v@[j] != c,
        decreases v@.len() - i,
    {
        if v[i] == c {
            return true;
        }
        i = i + 1;
    }
    false
}

fn holds_separator(v: &Vec<char>) -> (b: bool)
    ensures
        b == has_separator(v@),
{
    let mut i: usize = 0;
    while i < v.len()
        invariant
            i <= v@.len(),
            forall|j: int| 0 <= j < i ==> !is_separator(#[trigger] v@[j]),
        decreases v@.len() - i,
    {
        if separator(v[i]) {
            return true;
        }
        i = i + 1;
    }
    false
}

fn holds_dot_after_separator(v: &Vec<char>) -> (b: bool)
    ensures
        b == has_dot_after_separator(v@),
{
    let mut i: usize = 1;
    while i < v.len()
        invariant
            1 <= i,
            forall|j: int|
                0 <= j && j + 1 < i && j + 1 < v@.len() ==> !(is_separator(#[trigger] v@[j])
                    && v@[j + 1] == '.'),
        decreases v@.len() - i,
    {
        if separator(v[i - 1]) && v[i] == '.' {
            return true;
        }
        i = i + 1;
    }
    false
}

fn dot_name(v: &Vec<char>) -> (b: bool)
    ensures
        b == is_dot_name(v@),
{
    (v.len() == 1 && v[0] == '.') || (v.len() == 2 && v[0] == '.' && v[1] == '.')
}

fn only_id_chars(v: &Vec<char>, dots: bool) -> (b: bool)
    ensures
        b == if dots {
            all_config_chars(v@)
        } else {
            all_id_chars(v@)
        },
{
    let mut i: usize = 0;
    while i < v.len()
        invariant
            i <= v@.len(),
            forall|j: int| 0 <= j < i ==> (is_id_char(#[trigger] v@[j]) || (dots && v@[j] == '.')),
        decreases v@.len() - i,
    {
        let c = v[i];
        if !(id_char(c) || (dots && c == '.')) {
            return false;
        }
        i = i + 1;
    }
    true
}

/// Classifies `s` as a plugin id.
pub fn classify_plugin_id(s: &str) -> (r: Option<Rejection>)
    ensures
        r == plugin_id_rejection(s@),
{
    match chars_within(s, MAX_PLUGIN_ID_LEN) {
        None => Some(Rejection::TooLong),
        Some(v) => {
            if v.len() == 0 {
                Some(Rejection::Empty)
            } else if dot_name(&v) {
                Some(Rejection::Traversal)
            } else if holds_separator(&v) {
                Some(Rejection::Separator)
            } else if !only_id_chars(&v, false) {
                Some(Rejection::InvalidChar)
            } else {
                None
            }
        },
    }
}

/// Classifies `s` as a cache key.
pub fn classify_cache_key(s: &str) -> (r: Option<Rejection>)
    ensures
        r == cache_key_rejection(s@),
{
    match chars_within(s, MAX_FILE_NAME_LEN) {
        None => Some(Rejection::TooLong),
        Some(v) => classify_file_name(&v),
    }
}

/// The rules that cache keys and configuration names share, on a string
/// that is not too long.
fn classify_file_name(v: &Vec<char>) -> (r: Option<Rejection>)
    requires
        v@.len() <= MAX_FILE_NAME_LEN,
    ensures
        r == cache_key_rejection(v@),
{
    if v.len() == 0 {
        Some(Rejection::Empty)
    } else if holds(v, ':') || separator(v[0]) {
        Some(Rejection::AbsolutePath)
    } else if dot_name(v) || holds_dot_after_separator(v) {
        Some(Rejection::Traversal)
    } else if holds_separator(v) {
        Some(Rejection::Separator)
    } else {
        None
    }
}

/// Classifies `s` as a configuration name.
pub fn classify_config_name(s: &str) -> (r: Option<Rejection>)
    ensures
        r == config_name_rejection(s@),
{
    match chars_within(s, MAX_FILE_NAME_LEN) {
        None => Some(Rejection::TooLong),
        Some(v) => {
            let shared = classify_file_name(&v);
            if shared.is_some() {
                shared
            } else if v[0] == '.' || v[v.len() - 1] == '.' {
                Some(Rejection::DotEdge)
            } else if !only_id_chars(&v, true) {
                Some(Rejection::InvalidChar)
            } else {
                None
            }
        },
    }
}

} // verus!
