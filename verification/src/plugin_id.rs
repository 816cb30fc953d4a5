//! Stable plugin identifiers of the form `<plugin>@<marketplace>`, and the
//! validation of the path segments they are made of.

use vstd::prelude::*;
use vstd::string::*;
use crate::text::{lemma_last_index_of_split, seq_has_char, lemma_last_index_of_bounds, append_str, chars_of, find_last, last_index_of, push_char, str_equal, string_from_chars, string_of};

verus! {

/// Why a plugin identifier was refused; the message says what is wrong.
#[derive(Debug)]
pub enum PluginIdError {
    Invalid(String),
}

/// A plugin name together with the marketplace that provides it.
#[derive(Debug, Clone, PartialEq, Eq, Hash)]
pub struct PluginId {
    pub plugin_name: String,
    pub marketplace_name: String,
}

/// `c` is an ASCII letter or digit.
pub open spec fn is_ascii_alphanumeric(c: char) -> bool {
    ('0' <= c && c <= '9') || ('a' <= c && c <= 'z') || ('A' <= c && c <= 'Z')
}

/// `c` may appear in a segment; dots only where `allow_dots` holds.
pub open spec fn segment_char_allowed(c: char, allow_dots: bool) -> bool {
    is_ascii_alphanumeric(c) || c == '-' || c == '_' || (allow_dots && c == '.')
}

/// `s` holds two dots in a row.
pub open spec fn has_double_dot(s: Seq<char>) -> bool {
    exists|i: int| 0 <= i < s.len() - 1 && #[trigger] s[i] == '.' && s[i + 1] == '.'
}

/// The characters that a segment of the given kind may hold, as the error message names them.
pub open spec fn allowed_characters(allow_dots: bool) -> Seq<char> {
    if allow_dots {
        "ASCII letters, digits, `.`, `_`, and `-`"@
    } else {
        "ASCII letters, digits, `_`, and `-`"@
    }
}

/// The error message of an invalid segment of the given kind, or `None` when it is valid.
/// Only segments of the kind `plugin name` may hold dots.
pub open spec fn segment_error(segment: Seq<char>, kind: Seq<char>) -> Option<Seq<char>> {
    let allow_dots = kind == "plugin name"@;
    if segment.len() == 0 {
        Some("invalid "@ + kind + ": must not be empty"@)
    } else if allow_dots && (segment == seq!['.'] || segment == seq!['.', '.']) {
        Some("invalid "@ + kind + ": path traversal is not allowed"@)
    } else if allow_dots && (segment[0] == '.' || segment.last() == '.' || has_double_dot(segment)) {
        Some("invalid "@ + kind + ": dots must separate non-empty name segments"@)
    } else if exists|i: int| 0 <= i < segment.len() && !segment_char_allowed(segment[i], allow_dots) {
        Some("invalid "@ + kind + ": only "@ + allowed_characters(allow_dots) + " are allowed"@)
    } else {
        None
    }
}

/// The error message of an invalid plugin/marketplace pair, or `None` when both are valid.
pub open spec fn plugin_id_error(plugin_name: Seq<char>, marketplace_name: Seq<char>) -> Option<Seq<char>> {
    match segment_error(plugin_name, "plugin name"@) {
        Some(message) => Some(message),
        None => segment_error(marketplace_name, "marketplace name"@),
    }
}

/// The message of a key that is not of the form `<plugin>@<marketplace>`.
pub open spec fn malformed_key_message(key: Seq<char>) -> Seq<char> {
    "invalid plugin key `"@ + key + "`; expected <plugin>@<marketplace>"@
}

/// What parsing `key` gives: the plugin and marketplace names split at the last `@`,
/// or the error message.
pub open spec fn parse_plugin_key(key: Seq<char>) -> Result<(Seq<char>, Seq<char>), Seq<char>> {
    let at = last_index_of(key, '@');
    if at < 0 {
        Err(malformed_key_message(key))
    } else {
        let plugin_name = key.take(at);
        let marketplace_name = key.skip(at + 1);
        if plugin_name.len() == 0 || marketplace_name.len() == 0 {
            Err(malformed_key_message(key))
        } else {
            match plugin_id_error(plugin_name, marketplace_name) {
                Some(message) => Err(message + " in `"@ + key + "`"@),
                None => Ok((plugin_name, marketplace_name)),
            }
        }
    }
}

/// The key of an identifier: `<plugin>@<marketplace>`.
pub open spec fn plugin_key(plugin_name: Seq<char>, marketplace_name: Seq<char>) -> Seq<char> {
    plugin_name.push('@') + marketplace_name
}

proof fn lemma_valid_segment_has_no_at(segment: Seq<char>, kind: Seq<char>)
    requires
        segment_error(segment, kind) is None,
    ensures
        segment.len() > 0,
        !seq_has_char(segment, '@'),
{
    if seq_has_char(segment, '@') {
        let i = choose|i: int| 0 <= i < segment.len() && segment[i] == '@';
        assert(!segment_char_allowed(segment[i], kind == "plugin name"@));
    }
}

/// A valid identifier's key parses back to the same two names.
pub proof fn lemma_plugin_key_round_trip(plugin_name: Seq<char>, marketplace_name: Seq<char>)
    requires
        plugin_id_error(plugin_name, marketplace_name) is None,
    ensures
        parse_plugin_key(plugin_key(plugin_name, marketplace_name)) == Ok::<(Seq<char>, Seq<char>), Seq<char>>((plugin_name, marketplace_name)),
{
    lemma_valid_segment_has_no_at(plugin_name, "plugin name"@);
    lemma_valid_segment_has_no_at(marketplace_name, "marketplace name"@);
    let key = plugin_key(plugin_name, marketplace_name);
    lemma_last_index_of_split(plugin_name, '@', marketplace_name);
    let at = plugin_name.len() as int;
    assert(key.take(at) =~= plugin_name);
    assert(key.skip(at + 1) =~= marketplace_name);
}

/// A key that parses is the key of the identifier it parses to.
pub proof fn lemma_parsed_key_round_trip(key: Seq<char>)
    requires
        parse_plugin_key(key) is Ok,
    ensures
        plugin_key(parse_plugin_key(key)->Ok_0.0, parse_plugin_key(key)->Ok_0.1) == key,
{
    lemma_last_index_of_bounds(key, '@');
    let at = last_index_of(key, '@');
    assert(key.take(at).push('@') + key.skip(at + 1) =~= key);
}

fn segment_message(kind: &str, tail: &str) -> (m: String)
    ensures
        m@ == "invalid "@ + kind@ + tail@,
{
    let mut m = string_of("invalid ");
    append_str(&mut m, kind);
    append_str(&mut m, tail);
    m
}

/// Checks one path segment of a plugin identifier; `kind` names the segment in the message.
pub fn validate_plugin_segment(segment: &str, kind: &str) -> (r: Result<(), String>)
    ensures
        match segment_error(segment@, kind@) {
            Some(message) => r matches Err(e) && e@ == message,
            None => r is Ok,
        },
{
    let chars = chars_of(segment);
    let n = chars.len();
    if n == 0 {
        return Err(segment_message(kind, ": must not be empty"));
    }
    let allow_dots = str_equal(kind, "plugin name");
    if allow_dots && ((n == 1 && chars[0] == '.') || (n == 2 && chars[0] == '.' && chars[1] == '.')) {
        proof {
            if n == 1 {
                assert(segment@ =~= seq!['.']);
            } else {
                assert(segment@ =~= seq!['.', '.']);
            }
        }
        return Err(segment_message(kind, ": path traversal is not allowed"));
    }
    proof {
        if allow_dots {
            assert(segment@ != seq!['.']) by {
                if segment@ == seq!['.'] {
                    assert(n == 1 && chars@[0] == '.');
                }
            }
            assert(segment@ != seq!['.', '.']) by {
                if segment@ == seq!['.', '.'] {
                    assert(n == 2 && chars@[0] == '.' && chars@[1] == '.');
                }
            }
        }
    }
    if allow_dots {
        let mut double = false;
        let mut i: usize = 0;
        while i + 1 < n
            invariant
                n == chars@.len(),
                i < n,
                double == exists|j: int| 0 <= j < i && #[trigger] chars@[j] == '.' && chars@[j + 1] == '.',
            decreases n - i,
        {
            if chars[i] == '.' && chars[i + 1] == '.' {
                double = true;
            }
            i = i + 1;
        }
        assert(double == has_double_dot(segment@)) by {
            if has_double_dot(segment@) {
                let j = choose|j: int| 0 <= j < n - 1 && #[trigger] segment@[j] == '.' && segment@[j + 1] == '.';
                assert(j < i);
            }
        }
        if chars[0] == '.' || chars[n - 1] == '.' || double {
            return Err(segment_message(kind, ": dots must separate non-empty name segments"));
        }
        assert(!(segment@[0] == '.' || segment@.last() == '.' || has_double_dot(segment@)));
    }
    let mut i: usize = 0;
    while i < n
        invariant
            n == chars@.len(),
            chars@ == segment@,
            n > 0,
            allow_dots == (kind@ == "plugin name"@),
            allow_dots ==> segment@ != seq!['.'] && segment@ != seq!['.', '.']
                && !(segment@[0] == '.' || segment@.last() == '.' || has_double_dot(segment@)),
            i <= n,
            forall|j: int| 0 <= j < i ==> segment_char_allowed(chars@[j], allow_dots),
        decreases n - i,
    {
        let ch = chars[i];
        let ok = ('0' <= ch && ch <= '9') || ('a' <= ch && ch <= 'z') || ('A' <= ch && ch <= 'Z')
            || ch == '-' || ch == '_' || (allow_dots && ch == '.');
        if !ok {
            assert(!segment_char_allowed(segment@[i as int], allow_dots));
            let mut m = segment_message(kind, ": only ");
            if allow_dots {
                append_str(&mut m, "ASCII letters, digits, `.`, `_`, and `-`");
            } else {
                append_str(&mut m, "ASCII letters, digits, `_`, and `-`");
            }
            append_str(&mut m, " are allowed");
            assert(m@ =~= "invalid "@ + kind@ + ": only "@ + allowed_characters(allow_dots) + " are allowed"@);
            return Err(m);
        }
        i = i + 1;
    }
    Ok(())
}

impl PluginId {
    /// An identifier from its two names, when both are valid segments.
    pub fn new(plugin_name: String, marketplace_name: String) -> (r: Result<PluginId, PluginIdError>)
        ensures
            match plugin_id_error(plugin_name@, marketplace_name@) {
                Some(message) => r matches Err(PluginIdError::Invalid(e)) && e@ == message,
                None => r matches Ok(id) && id.plugin_name@ == plugin_name@
                    && id.marketplace_name@ == marketplace_name@,
            },
    {
        match validate_plugin_segment(plugin_name.as_str(), "plugin name") {
            Err(message) => return Err(PluginIdError::Invalid(message)),
            Ok(()) => {},
        }
        match validate_plugin_segment(marketplace_name.as_str(), "marketplace name") {
            Err(message) => return Err(PluginIdError::Invalid(message)),
            Ok(()) => {},
        }
        Ok(PluginId { plugin_name, marketplace_name })
    }

    /// Parses a key of the form `<plugin>@<marketplace>`, split at its last `@`.
    pub fn parse(plugin_key: &str) -> (r: Result<PluginId, PluginIdError>)
        requires
            plugin_key@.len() <= isize::MAX,
        ensures
            match parse_plugin_key(plugin_key@) {
                Err(message) => r matches Err(PluginIdError::Invalid(e)) && e@ == message,
                Ok((p, m)) => r matches Ok(id) && id.plugin_name@ == p && id.marketplace_name@ == m,
            },
    {
        let chars = chars_of(plugin_key);
        let at = find_last(&chars, '@');
        if at < 0 {
            let mut m = string_of("invalid plugin key `");
            append_str(&mut m, plugin_key);
            append_str(&mut m, "`; expected <plugin>@<marketplace>");
            return Err(PluginIdError::Invalid(m));
        }
        proof {
            lemma_last_index_of_bounds(plugin_key@, '@');
        }
        let at = at as usize;
        let plugin_name = string_from_chars(&chars, 0, at);
        let marketplace_name = string_from_chars(&chars, at + 1, chars.len());
        proof {
            assert(plugin_name@ =~= plugin_key@.take(at as int));
            assert(marketplace_name@ =~= plugin_key@.skip(at + 1));
        }
        if at == 0 || at + 1 == chars.len() {
            let mut m = string_of("invalid plugin key `");
            append_str(&mut m, plugin_key);
            append_str(&mut m, "`; expected <plugin>@<marketplace>");
            return Err(PluginIdError::Invalid(m));
        }
        match PluginId::new(plugin_name, marketplace_name) {
            Ok(id) => Ok(id),
            Err(PluginIdError::Invalid(message)) => {
                let mut m = message;
                append_str(&mut m, " in `");
                append_str(&mut m, plugin_key);
                append_str(&mut m, "`");
                Err(PluginIdError::Invalid(m))
            },
        }
    }

    /// The key of this identifier: `<plugin>@<marketplace>`.
    pub fn as_key(&self) -> (key: String)
        ensures
            key@ == plugin_key(self.plugin_name@, self.marketplace_name@),
    {
        let mut key = self.plugin_name.clone();
        push_char(&mut key, '@');
        append_str(&mut key, self.marketplace_name.as_str());
        key
    }
}

} // verus!
