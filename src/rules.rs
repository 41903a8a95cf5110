//! Workspace path filter that decides whether presence is reported at all.
use vstd::prelude::*;
use crate::json::{json_get, JsonList, JsonValue};
use crate::text::str_eq;

verus! {

/// Whether the listed paths are the only ones allowed, or the ones refused.
#[derive(Debug, Clone, Copy, PartialEq, Eq, Structural)]
pub enum RulesMode {
    Whitelist,
    Blacklist,
}

impl RulesMode {
    /// The mode used when the configuration names none.
    pub fn default_mode() -> (r: RulesMode)
        ensures
            r == RulesMode::Blacklist,
    {
        RulesMode::Blacklist
    }
}

impl Default for RulesMode {
    fn default() -> (r: RulesMode)
        ensures
            r == RulesMode::Blacklist,
    {
        RulesMode::Blacklist
    }
}

/// A list of workspace paths together with how the list is read.
#[derive(Debug, Clone)]
pub struct Rules {
    pub mode: RulesMode,
    pub paths: Vec<String>,
}

/// Whether `path` is one of `paths`.
pub open spec fn listed(paths: Seq<String>, path: Seq<char>) -> bool {
    exists|i: int| 0 <= i < paths.len() && (#[trigger] paths[i])@ == path
}

/// Whether a workspace at `path` may report presence under `rules`.
pub open spec fn suitable_spec(rules: Rules, path: Seq<char>) -> bool {
    match rules.mode {
        RulesMode::Blacklist => !listed(rules.paths@, path),
        RulesMode::Whitelist => listed(rules.paths@, path),
    }
}

impl Default for Rules {
    fn default() -> (r: Rules)
        ensures
            r.mode == RulesMode::Blacklist,
            r.paths@.len() == 0,
    {
        Rules::new()
    }
}

impl Rules {
    /// Blacklist mode with an empty list: every path is allowed.
    pub fn new() -> (r: Rules)
        ensures
            r.mode == RulesMode::Blacklist,
            r.paths@.len() == 0,
    {
        Rules { mode: RulesMode::default_mode(), paths: Vec::new() }
    }

    /// True when `path` passes the filter: in blacklist mode when it is not
    /// listed, in whitelist mode when it is.
    pub fn suitable(&self, path: &str) -> (r: bool)
        ensures
            r == suitable_spec(*self, path@),
    {
        let target = String::from_str(path);
        let mut contains = false;
        let mut i: usize = 0;
        while i < self.paths.len()
            invariant
                0 <= i <= self.paths@.len(),
                target@ == path@,
                contains == (exists|k: int| 0 <= k < i && (#[trigger] self.paths@[k])@ == path@),
            decreases self.paths@.len() - i,
        {
            if self.paths[i] == target {
                contains = true;
            }
            i = i + 1;
        }
        match self.mode {
            RulesMode::Blacklist => !contains,
            RulesMode::Whitelist => contains,
        }
    }
}

/// The texts of a list of strings.
pub open spec fn texts(v: Seq<String>) -> Seq<Seq<char>> {
    v.map_values(|s: String| s@)
}

/// The string members of a JSON list, in order; other members are left out.
pub open spec fn list_strings(l: JsonList) -> Seq<Seq<char>>
    decreases l,
{
    match l {
        JsonList::Nil => Seq::empty(),
        JsonList::Cons(_, v, rest) => match *v {
            JsonValue::Str(s) => seq![s@] + list_strings(*rest),
            _ => list_strings(*rest),
        },
    }
}

/// The mode after reading `json`: a string member `mode` selects whitelist
/// mode when it reads `whitelist` and blacklist mode otherwise.
pub open spec fn mode_after(mode: RulesMode, json: JsonValue) -> RulesMode {
    match json_get(json, "mode"@) {
        Some(JsonValue::Str(s)) => if s@ == "whitelist"@ {
            RulesMode::Whitelist
        } else {
            RulesMode::Blacklist
        },
        _ => mode,
    }
}

/// The path list after reading `json`: an array member `paths` replaces it
/// with the strings it holds.
pub open spec fn paths_after(paths: Seq<Seq<char>>, json: JsonValue) -> Seq<Seq<char>> {
    match json_get(json, "paths"@) {
        Some(JsonValue::Array(l)) => list_strings(l),
        _ => paths,
    }
}

fn push_strings(l: &JsonList, out: &mut Vec<String>)
    ensures
        texts(final(out)@) == texts(old(out)@) + list_strings(*l),
    decreases l,
{
    match l {
        JsonList::Nil => {
            assert(texts(final(out)@) =~= texts(old(out)@) + list_strings(*l));
        },
        JsonList::Cons(_, v, rest) => {
            match &**v {
                JsonValue::Str(s) => {
                    out.push(s.clone());
                },
                _ => {},
            }
            let ghost mid = out@;
            push_strings(&**rest, out);
            assert(texts(final(out)@) =~= texts(old(out)@) + list_strings(*l));
        },
    }
}

impl Rules {
    /// Reads `mode` and `paths` from `json`.
    pub fn update_from_json(&mut self, json: &JsonValue)
        ensures
            final(self).mode == mode_after(old(self).mode, *json),
            texts(final(self).paths@) == paths_after(texts(old(self).paths@), *json),
    {
        if let Some(mode) = json.get("mode") {
            if let Some(m) = mode.as_str() {
                self.mode = if str_eq(m, "whitelist") {
                    RulesMode::Whitelist
                } else {
                    RulesMode::Blacklist
                };
            }
        }
        if let Some(paths) = json.get("paths") {
            if let JsonValue::Array(l) = paths {
                let mut out: Vec<String> = Vec::new();
                push_strings(l, &mut out);
                assert(texts(out@) =~= list_strings(*l));
                self.paths = out;
            }
        }
    }
}

} // verus!
