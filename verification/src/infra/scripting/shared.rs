//! Plugin identity: the filename-safe id derived from a plugin's load name.

use vstd::prelude::*;

use crate::text::str_eq;

verus! {

/// Characters kept as they are in a plugin id.
pub open spec fn id_safe(c: char) -> bool {
    ('a' <= c && c <= 'z') || ('A' <= c && c <= 'Z') || ('0' <= c && c <= '9') || c == '-' || c
        == '_'
}

/// A character mapped into the plugin-id alphabet.
pub open spec fn id_char(c: char) -> char {
    if id_safe(c) {
        c
    } else {
        '_'
    }
}

/// The load name without a trailing `.lua`.
pub open spec fn id_base(name: Seq<char>) -> Seq<char> {
    if name.len() >= 4 && name.subrange(name.len() - 4, name.len() as int) == ".lua"@ {
        name.subrange(0, name.len() - 4)
    } else {
        name
    }
}

/// The plugin id of a load name: strip a trailing `.lua`, then map every
/// character outside `[A-Za-z0-9_-]` to `_`.
pub open spec fn plugin_id_of(name: Seq<char>) -> Seq<char> {
    id_base(name).map_values(|c: char| id_char(c))
}

fn is_id_safe(c: char) -> (b: bool)
    ensures
        b == id_safe(c),
{
    ('a' <= c && c <= 'z') || ('A' <= c && c <= 'Z') || ('0' <= c && c <= '9') || c == '-' || c
        == '_'
}

/// Stable identifier for a plugin, derived from its load name.
pub fn plugin_id(name: &str) -> (id: String)
    ensures
        id@ == plugin_id_of(name@),
{
    let n: usize = name.unicode_len();
    let mut end: usize = n;
    if n >= 4 {
        let tail: &str = name.substring_char(n - 4, n);
        if str_eq(tail, ".lua") {
            end = n - 4;
        }
    }
    assert(name@.subrange(0, end as int) == id_base(name@)) by {
        if end == n {
            assert(name@.subrange(0, n as int) =~= name@);
        }
    }
    let mut id: String = String::new();
    let mut i: usize = 0;
    while i < end
        invariant
            end <= n,
            n == name@.len(),
            i <= end,
            id@ == name@.subrange(0, i as int).map_values(|c: char| id_char(c)),
        decreases end - i,
    {
        let c: char = name.get_char(i);
        let mapped: char = if is_id_safe(c) {
            c
        } else {
            '_'
        };
        id.push(mapped);
        assert(id@ =~= name@.subrange(0, i + 1).map_values(|c: char| id_char(c)));
        i = i + 1;
    }
    id
}

/// Plugin ids use only `[A-Za-z0-9_-]`, and deriving an id from an id changes
/// nothing.
pub proof fn lemma_plugin_id_is_safe_and_stable(name: Seq<char>)
    ensures
        forall|i: int| 0 <= i < plugin_id_of(name).len() ==> id_safe(#[trigger] plugin_id_of(name)[i]),
        plugin_id_of(plugin_id_of(name)) == plugin_id_of(name),
{
    let id = plugin_id_of(name);
    if id.len() >= 4 {
        let tail = id.subrange(id.len() - 4, id.len() as int);
        reveal_strlit(".lua");
        assert(tail[0] == id[id.len() - 4]);
        assert(tail[0] != ".lua"@[0]);
        assert(tail != ".lua"@);
    }
    assert(id_base(id) == id);
    assert(id.map_values(|c: char| id_char(c)) =~= id);
}

} // verus!

verus! {

/// A queued `spotatui.get_*` read, answered by the engine's next intake pass.
#[derive(Debug, Clone, PartialEq, Eq)]
pub struct DataRequest {
    pub token: u64,
    pub kind: crate::domain::app::PluginDataKind,
    /// Search query for search requests.
    pub arg: Option<String>,
}

} // verus!
