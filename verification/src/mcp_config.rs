//! The `mcp_servers` table of the global configuration: parsed from the
//! configuration text, and checked for inline bearer tokens.

use vstd::prelude::*;
use crate::text::{append_str, str_equal, string_of};

verus! {

/// An entry of a TOML table, as far as the checks read it: its key, and the
/// keys of its value when that value is itself a table (`None` otherwise).
/// In the `mcp_servers` table, the key is a server's name.
#[derive(Debug)]
pub struct McpServerEntry {
    pub name: String,
    pub table_keys: Option<Vec<String>>,
}

/// A top-level entry of a TOML document: its key, and the entries of its
/// value when that value is a table.
#[derive(Debug)]
pub struct TomlTopEntry {
    pub key: String,
    pub table: Option<Vec<McpServerEntry>>,
}

/// The character views of a list of strings.
pub open spec fn keys_view(keys: Seq<String>) -> Seq<Seq<char>> {
    Seq::new(keys.len(), |k: int| keys[k]@)
}

/// The content of an entry: its key and the keys of its table, if any.
pub open spec fn entry_view(e: McpServerEntry) -> (Seq<char>, Option<Seq<Seq<char>>>) {
    (e.name@, match e.table_keys {
        Some(keys) => Some(keys_view(keys@)),
        None => None,
    })
}

/// The contents of a list of entries.
pub open spec fn entries_view(es: Seq<McpServerEntry>) -> Seq<(Seq<char>, Option<Seq<Seq<char>>>)> {
    Seq::new(es.len(), |i: int| entry_view(es[i]))
}

/// The content of a top-level entry.
pub open spec fn top_view(t: TomlTopEntry) -> (Seq<char>, Option<Seq<(Seq<char>, Option<Seq<Seq<char>>>)>>) {
    (t.key@, match t.table {
        Some(es) => Some(entries_view(es@)),
        None => None,
    })
}

/// The contents of a document's top-level entries, when it is a table.
pub open spec fn document_view(
    doc: Option<Vec<TomlTopEntry>>,
) -> Option<Seq<(Seq<char>, Option<Seq<(Seq<char>, Option<Seq<Seq<char>>>)>>)>> {
    match doc {
        Some(tops) => Some(Seq::new(tops@.len(), |i: int| top_view(tops@[i]))),
        None => None,
    }
}

/// What `toml::from_str::<toml::Value>` makes of `raw`, two levels deep: the
/// parse error's message, or, when the document is a table, its top-level
/// entries in table order, each with the entries of its value when that is a
/// table, each of those with its keys when it is a table.
pub uninterp spec fn toml_outline(raw: Seq<char>) -> Result<
    Option<Seq<(Seq<char>, Option<Seq<(Seq<char>, Option<Seq<Seq<char>>>)>>)>>,
    Seq<char>,
>;

/// Parses `raw` with `toml::from_str::<toml::Value>` and outlines the
/// document two levels deep (see [`toml_outline`]); a parse error gives its
/// message. The contract claims only that the outcome is a function of the
/// text, named `toml_outline`.
#[verifier::external_body]
fn parse_toml_outline(raw: &str) -> (r: Result<Option<Vec<TomlTopEntry>>, String>)
    ensures
        match r {
            Ok(doc) => toml_outline(raw@) == Ok::<_, Seq<char>>(document_view(doc)),
            Err(e) => toml_outline(raw@) == Err::<Option<Seq<(Seq<char>, Option<Seq<(Seq<char>, Option<Seq<Seq<char>>>)>>)>>, Seq<char>>(e@),
        },
{
    let doc = match toml::from_str::<toml::Value>(raw) {
        Ok(doc) => doc,
        Err(err) => return Err(err.to_string()),
    };
    let keys = |v: &toml::Value| v.as_table().map(|t| t.keys().cloned().collect());
    let entries = |v: &toml::Value| {
        v.as_table().map(|t| t.iter().map(|(name, s)| McpServerEntry { name: name.clone(), table_keys: keys(s) }).collect())
    };
    Ok(doc.as_table().map(|t| t.iter().map(|(key, v)| TomlTopEntry { key: key.clone(), table: entries(v) }).collect()))
}

/// The value of the first top-level entry named `key`: `None` when there is
/// none, else the entries of its table, or `None` inside when it is not a table.
pub open spec fn first_member(
    tops: Seq<(Seq<char>, Option<Seq<(Seq<char>, Option<Seq<Seq<char>>>)>>)>,
    key: Seq<char>,
) -> Option<Option<Seq<(Seq<char>, Option<Seq<Seq<char>>>)>>>
    decreases tops.len(),
{
    if tops.len() == 0 {
        None
    } else if tops[0].0 == key {
        Some(tops[0].1)
    } else {
        first_member(tops.drop_first(), key)
    }
}

/// `keys` holds the key `bearer_token`.
pub open spec fn holds_bearer_key(keys: Seq<Seq<char>>) -> bool {
    exists|k: int| 0 <= k < keys.len() && #[trigger] keys[k] == "bearer_token"@
}

/// The entry's table holds the key `bearer_token`.
pub open spec fn has_inline_bearer_token(e: (Seq<char>, Option<Seq<Seq<char>>>)) -> bool {
    match e.1 {
        Some(keys) => holds_bearer_key(keys),
        None => false,
    }
}

/// The message for a server that holds an inline bearer token.
pub open spec fn inline_bearer_token_message(server_name: Seq<char>) -> Seq<char> {
    "mcp_servers."@ + server_name + " uses unsupported `bearer_token`; set `bearer_token_env_var`."@
}

/// Refuses the first server, in table order, whose table holds `bearer_token`.
/// A value that is not a table (`None`) passes.
pub open spec fn bearer_token_check(servers: Option<Seq<(Seq<char>, Option<Seq<Seq<char>>>)>>) -> Result<(), Seq<char>> {
    match servers {
        None => Ok(()),
        Some(entries) => if exists|i: int| 0 <= i < entries.len() && #[trigger] has_inline_bearer_token(entries[i]) {
            let i = choose|i: int| 0 <= i < entries.len() && has_inline_bearer_token(entries[i])
                && forall|j: int| 0 <= j < i ==> !#[trigger] has_inline_bearer_token(entries[j]);
            Err(inline_bearer_token_message(entries[i].0))
        } else {
            Ok(())
        },
    }
}

/// The contents of an optional list of entries.
pub open spec fn opt_entries_view(servers: Option<&Vec<McpServerEntry>>) -> Option<Seq<(Seq<char>, Option<Seq<Seq<char>>>)>> {
    match servers {
        Some(v) => Some(entries_view(v@)),
        None => None,
    }
}

fn holds_bearer_token(entry: &McpServerEntry) -> (r: bool)
    ensures
        r == has_inline_bearer_token(entry_view(*entry)),
{
    match &entry.table_keys {
        None => false,
        Some(keys) => {
            let ghost kv = keys_view(keys@);
            assert(entry_view(*entry).1 == Some(kv));
            let mut k: usize = 0;
            while k < keys.len()
                invariant
                    k <= keys@.len(),
                    kv == keys_view(keys@),
                    entry_view(*entry).1 == Some(kv),
                    forall|j: int| 0 <= j < k ==> #[trigger] kv[j] != "bearer_token"@,
                decreases keys@.len() - k,
            {
                if str_equal(keys[k].as_str(), "bearer_token") {
                    assert(kv.len() == keys@.len());
                    assert(kv[k as int] == "bearer_token"@);
                    assert(holds_bearer_key(kv));
                    return true;
                }
                k = k + 1;
            }
            false
        },
    }
}

/// Refuses a server table that carries an inline bearer token; the message
/// tells to use `bearer_token_env_var` instead.
#[verifier::loop_isolation(false)]
pub fn ensure_no_inline_bearer_tokens(servers: Option<&Vec<McpServerEntry>>) -> (r: Result<(), String>)
    ensures
        match bearer_token_check(opt_entries_view(servers)) {
            Ok(()) => r is Ok,
            Err(message) => r matches Err(e) && e@ == message,
        },
{
    let entries = match servers {
        None => return Ok(()),
        Some(entries) => entries,
    };
    let ghost s = entries_view(entries@);
    let mut i: usize = 0;
    while i < entries.len()
        invariant
            i <= entries@.len(),
            s == entries_view(entries@),
            forall|j: int| 0 <= j < i ==> !#[trigger] has_inline_bearer_token(s[j]),
        decreases entries@.len() - i,
    {
        if holds_bearer_token(&entries[i]) {
            proof {
                assert(s[i as int] == entry_view(entries@[i as int]));
                assert(has_inline_bearer_token(s[i as int]));
                let c = choose|c: int| 0 <= c < s.len() && has_inline_bearer_token(s[c])
                    && forall|j: int| 0 <= j < c ==> !#[trigger] has_inline_bearer_token(s[j]);
                assert(c == i) by {
                    if c < i {
                        assert(!has_inline_bearer_token(s[c]));
                    } else if c > i {
                        assert(!has_inline_bearer_token(s[i as int]));
                    }
                }
            }
            let mut m = string_of("mcp_servers.");
            append_str(&mut m, entries[i].name.as_str());
            append_str(&mut m, " uses unsupported `bearer_token`; set `bearer_token_env_var`.");
            return Err(m);
        }
        assert(s[i as int] == entry_view(entries@[i as int]));
        i = i + 1;
    }
    Ok(())
}

/// What the global configuration text gives for its MCP servers: the parse
/// error, nothing when the document has no `mcp_servers` entry, else the
/// bearer-token check of that entry; when that passes, the entry's table
/// entries (none when it is not a table).
pub open spec fn global_servers_outcome(raw: Seq<char>) -> Result<Option<Seq<(Seq<char>, Option<Seq<Seq<char>>>)>>, Seq<char>> {
    match toml_outline(raw) {
        Err(message) => Err(message),
        Ok(None) => Ok(None),
        Ok(Some(tops)) => match first_member(tops, "mcp_servers"@) {
            None => Ok(None),
            Some(servers) => match bearer_token_check(servers) {
                Err(message) => Err(message),
                Ok(()) => Ok(Some(match servers {
                    Some(s) => s,
                    None => Seq::empty(),
                })),
            },
        },
    }
}

/// Parses the global configuration text and checks its `mcp_servers` entry:
/// `Ok(None)` when there is none, `Ok(Some(entries))` with that table's
/// entries when it passes the bearer-token check, the error otherwise.
pub fn global_mcp_server_entries(raw: &str) -> (r: Result<Option<Vec<McpServerEntry>>, String>)
    ensures
        match global_servers_outcome(raw@) {
            Err(message) => r matches Err(e) && e@ == message,
            Ok(None) => r matches Ok(None),
            Ok(Some(entries)) => r matches Ok(Some(es)) && entries_view(es@) == entries,
        },
{
    let doc = match parse_toml_outline(raw) {
        Err(e) => return Err(e),
        Ok(doc) => doc,
    };
    let mut tops = match doc {
        None => return Ok(None),
        Some(tops) => tops,
    };
    let ghost tv = match document_view(Some(tops)) {
        Some(t) => t,
        None => Seq::empty(),
    };
    assert(tv == Seq::new(tops@.len(), |i: int| top_view(tops@[i])));
    assert(toml_outline(raw@) == Ok::<_, Seq<char>>(Some(tv)));
    assert(tv.skip(0) =~= tv);
    let n = tops.len();
    let mut i: usize = 0;
    while i < n
        invariant
            n == tops@.len(),
            i <= n,
            tv == Seq::new(tops@.len(), |j: int| top_view(tops@[j])),
            toml_outline(raw@) == Ok::<_, Seq<char>>(Some(tv)),
            first_member(tv, "mcp_servers"@) == first_member(tv.skip(i as int), "mcp_servers"@),
        decreases n - i,
    {
        assert(tv.skip(i as int)[0] == top_view(tops@[i as int]));
        assert(tv.skip(i as int).drop_first() =~= tv.skip(i + 1));
        if str_equal(tops[i].key.as_str(), "mcp_servers") {
            let top = tops.swap_remove(i);
            let table = top.table;
            assert(first_member(tv, "mcp_servers"@) == Some(top_view(top).1));
            match ensure_no_inline_bearer_tokens(table.as_ref()) {
                Err(e) => return Err(e),
                Ok(()) => {},
            }
            return match table {
                Some(es) => Ok(Some(es)),
                None => {
                    let empty: Vec<McpServerEntry> = Vec::new();
                    assert(entries_view(empty@) =~= Seq::<(Seq<char>, Option<Seq<Seq<char>>>)>::empty());
                    Ok(Some(empty))
                },
            };
        }
        i = i + 1;
    }
    assert(tv.skip(n as int) =~= Seq::<(Seq<char>, Option<Seq<(Seq<char>, Option<Seq<Seq<char>>>)>>)>::empty());
    Ok(None)
}

} // verus!
