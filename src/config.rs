//! Configuration: activity templates, per-language overrides, idle settings,
//! workspace rules, and how each is read from the initialisation options.
use vstd::prelude::*;
use crate::json::{json_get, JsonList, JsonValue};
use crate::error::PresenceError;
use crate::rules::{mode_after, paths_after, texts, Rules, RulesMode};
use crate::text::{lower_of, lowercase, str_eq};

verus! {

/// Application identifier used when the options name none.
pub const DEFAULT_APP_ID: &'static str = "1263505205522337886";

/// Where icons are fetched from when the options name no other place.
pub const DEFAULT_ICONS_URL: &'static str =
    "https://raw.githubusercontent.com/xhyrom/zed-discord-presence/main/assets/icons/";

/// Seconds of silence before the idle presentation is shown.
pub const DEFAULT_IDLE_TIMEOUT: u64 = 300;

/// The text of an optional string.
pub open spec fn opt_view(o: Option<String>) -> Option<Seq<char>> {
    match o {
        Some(s) => Some(s@),
        None => None,
    }
}

/// An optional template field after reading the member `key` of `json`:
/// unchanged where the member is missing, cleared by `null` or by a value
/// that is not a string, and set by a string.
pub open spec fn field_after(cur: Option<Seq<char>>, json: JsonValue, key: Seq<char>) -> Option<
    Seq<char>,
> {
    match json_get(json, key) {
        None => cur,
        Some(JsonValue::Str(s)) => Some(s@),
        Some(_) => None,
    }
}

/// The templates of an activity, as text.
pub struct ActivityView {
    pub state: Option<Seq<char>>,
    pub details: Option<Seq<char>>,
    pub large_image: Option<Seq<char>>,
    pub large_text: Option<Seq<char>>,
    pub small_image: Option<Seq<char>>,
    pub small_text: Option<Seq<char>>,
}

/// The templates of an activity after reading `json`.
pub open spec fn activity_after(a: ActivityView, json: JsonValue) -> ActivityView {
    ActivityView {
        state: field_after(a.state, json, "state"@),
        details: field_after(a.details, json, "details"@),
        large_image: field_after(a.large_image, json, "large_image"@),
        large_text: field_after(a.large_text, json, "large_text"@),
        small_image: field_after(a.small_image, json, "small_image"@),
        small_text: field_after(a.small_text, json, "small_text"@),
    }
}

/// The templates used when the options give none.
pub open spec fn default_activity() -> ActivityView {
    ActivityView {
        state: Some("Working on {filename}"@),
        details: Some("In {workspace}"@),
        large_image: Some("{base_icons_url}/{language:lo}.png"@),
        large_text: Some("{language:u}"@),
        small_image: Some("{base_icons_url}/zed.png"@),
        small_text: Some("Zed"@),
    }
}

/// Templates for the six fields of a presence.
#[derive(Debug)]
pub struct Activity {
    pub state: Option<String>,
    pub details: Option<String>,
    pub large_image: Option<String>,
    pub large_text: Option<String>,
    pub small_image: Option<String>,
    pub small_text: Option<String>,
}

impl View for Activity {
    type V = ActivityView;

    open spec fn view(&self) -> ActivityView {
        ActivityView {
            state: opt_view(self.state),
            details: opt_view(self.details),
            large_image: opt_view(self.large_image),
            large_text: opt_view(self.large_text),
            small_image: opt_view(self.small_image),
            small_text: opt_view(self.small_text),
        }
    }
}

/// A copy of an optional string.
pub fn clone_opt(o: &Option<String>) -> (r: Option<String>)
    ensures
        opt_view(r) == opt_view(*o),
{
    match o {
        Some(s) => Some(s.clone()),
        None => None,
    }
}

/// Reads the member `key` of `json` into an optional template field.
fn update_field(field: &mut Option<String>, json: &JsonValue, key: &str)
    ensures
        opt_view(*final(field)) == field_after(opt_view(*old(field)), *json, key@),
{
    if let Some(value) = json.get(key) {
        *field = if value.is_null() {
            None
        } else {
            match value.as_str() {
                Some(s) => Some(String::from_str(s)),
                None => None,
            }
        };
    }
}

fn some_string(s: &str) -> (r: Option<String>)
    ensures
        opt_view(r) == Some(s@),
{
    Some(String::from_str(s))
}

impl Activity {
    /// The templates used when the options give none.
    pub fn new() -> (r: Activity)
        ensures
            r@ == default_activity(),
    {
        Activity {
            state: some_string("Working on {filename}"),
            details: some_string("In {workspace}"),
            large_image: some_string("{base_icons_url}/{language:lo}.png"),
            large_text: some_string("{language:u}"),
            small_image: some_string("{base_icons_url}/zed.png"),
            small_text: some_string("Zed"),
        }
    }

    /// A copy of these templates.
    pub fn duplicate(&self) -> (r: Activity)
        ensures
            r@ == self@,
    {
        Activity {
            state: clone_opt(&self.state),
            details: clone_opt(&self.details),
            large_image: clone_opt(&self.large_image),
            large_text: clone_opt(&self.large_text),
            small_image: clone_opt(&self.small_image),
            small_text: clone_opt(&self.small_text),
        }
    }

    /// Reads the template fields that `json` names.
    pub fn update_from_json(&mut self, json: &JsonValue)
        ensures
            final(self)@ == activity_after(old(self)@, *json),
    {
        update_field(&mut self.state, json, "state");
        update_field(&mut self.details, json, "details");
        update_field(&mut self.large_image, json, "large_image");
        update_field(&mut self.large_text, json, "large_text");
        update_field(&mut self.small_image, json, "small_image");
        update_field(&mut self.small_text, json, "small_text");
    }
}

impl Default for Activity {
    fn default() -> (r: Activity)
        ensures
            r@ == default_activity(),
    {
        Activity::new()
    }
}

/// What happens once the idle window has passed.
#[derive(Debug, Clone, Copy, PartialEq, Eq, Structural)]
pub enum IdleAction {
    /// Remove the presence.
    ClearActivity,
    /// Show the idle templates.
    ChangeActivity,
}

impl Default for IdleAction {
    fn default() -> (r: IdleAction)
        ensures
            r == IdleAction::ChangeActivity,
    {
        IdleAction::ChangeActivity
    }
}

/// The idle templates used when the options give none.
pub open spec fn default_idle_activity() -> ActivityView {
    ActivityView {
        state: Some("Idling"@),
        details: Some("In Zed"@),
        large_image: Some("{base_icons_url}/zed.png"@),
        large_text: Some("Zed"@),
        small_image: Some("{base_icons_url}/idle.png"@),
        small_text: Some("Idle"@),
    }
}

/// Idle settings: the window in seconds, the action, and the templates
/// shown while idle.
#[derive(Debug)]
pub struct Idle {
    /// Seconds of silence before the idle action.
    pub timeout: u64,
    pub action: IdleAction,
    pub state: Option<String>,
    pub details: Option<String>,
    pub large_image: Option<String>,
    pub large_text: Option<String>,
    pub small_image: Option<String>,
    pub small_text: Option<String>,
}

/// The idle action after reading `json`: a string member `action` selects
/// clearing when it reads `clear_activity` and changing otherwise.
pub open spec fn idle_action_after(action: IdleAction, json: JsonValue) -> IdleAction {
    match json_get(json, "action"@) {
        Some(JsonValue::Str(s)) => if s@ == "clear_activity"@ {
            IdleAction::ClearActivity
        } else {
            IdleAction::ChangeActivity
        },
        _ => action,
    }
}

/// The idle window after reading `json`: a member `timeout` that is a
/// non-negative integer replaces it.
pub open spec fn idle_timeout_after(timeout: u64, json: JsonValue) -> u64 {
    match json_get(json, "timeout"@) {
        Some(JsonValue::UInt(n)) => n,
        _ => timeout,
    }
}

impl Idle {
    /// The idle templates, as they stand.
    pub open spec fn templates(&self) -> ActivityView {
        ActivityView {
            state: opt_view(self.state),
            details: opt_view(self.details),
            large_image: opt_view(self.large_image),
            large_text: opt_view(self.large_text),
            small_image: opt_view(self.small_image),
            small_text: opt_view(self.small_text),
        }
    }

    /// Five minutes, then the idle templates.
    pub fn new() -> (r: Idle)
        ensures
            r.timeout == DEFAULT_IDLE_TIMEOUT,
            r.action == IdleAction::ChangeActivity,
            r.templates() == default_idle_activity(),
    {
        Idle {
            timeout: DEFAULT_IDLE_TIMEOUT,
            action: IdleAction::default(),
            state: some_string("Idling"),
            details: some_string("In Zed"),
            large_image: some_string("{base_icons_url}/zed.png"),
            large_text: some_string("Zed"),
            small_image: some_string("{base_icons_url}/idle.png"),
            small_text: some_string("Idle"),
        }
    }

    /// Reads `timeout`, `action` and the idle templates from `json`.
    pub fn update_from_json(&mut self, json: &JsonValue)
        ensures
            final(self).timeout == idle_timeout_after(old(self).timeout, *json),
            final(self).action == idle_action_after(old(self).action, *json),
            final(self).templates() == activity_after(old(self).templates(), *json),
    {
        if let Some(t) = json.get("timeout") {
            if let Some(n) = t.as_u64() {
                self.timeout = n;
            }
        }
        if let Some(a) = json.get("action") {
            if let Some(text) = a.as_str() {
                self.action = if str_eq(text, "clear_activity") {
                    IdleAction::ClearActivity
                } else {
                    IdleAction::ChangeActivity
                };
            }
        }
        update_field(&mut self.state, json, "state");
        update_field(&mut self.details, json, "details");
        update_field(&mut self.large_image, json, "large_image");
        update_field(&mut self.large_text, json, "large_text");
        update_field(&mut self.small_image, json, "small_image");
        update_field(&mut self.small_text, json, "small_text");
    }
}

impl Default for Idle {
    fn default() -> (r: Idle)
        ensures
            r.timeout == DEFAULT_IDLE_TIMEOUT,
            r.action == IdleAction::ChangeActivity,
            r.templates() == default_idle_activity(),
    {
        Idle::new()
    }
}

/// A table of per-language templates, as text.
pub open spec fn table_view(t: Seq<(String, Activity)>) -> Seq<(Seq<char>, ActivityView)> {
    t.map_values(|e: (String, Activity)| (e.0@, e.1@))
}

/// The first index at or after `i` of the entry for `key`.
pub open spec fn table_index_from(t: Seq<(Seq<char>, ActivityView)>, key: Seq<char>, i: int) -> Option<
    int,
>
    decreases t.len() - i,
{
    if i < 0 || i >= t.len() {
        None
    } else if t[i].0 == key {
        Some(i)
    } else {
        table_index_from(t, key, i + 1)
    }
}

/// The table with the entry for `key` set to `a`: replaced in place where
/// there is one, appended otherwise.
pub open spec fn table_put(t: Seq<(Seq<char>, ActivityView)>, key: Seq<char>, a: ActivityView) -> Seq<
    (Seq<char>, ActivityView),
> {
    match table_index_from(t, key, 0) {
        Some(i) => t.update(i, (key, a)),
        None => t.push((key, a)),
    }
}

/// The table after reading the members of a `languages` object in order.
/// A member whose value is an object sets the entry for its lowercased name
/// to `global` with that object's fields read over it; any other member is
/// skipped.
pub open spec fn languages_after_list(
    t: Seq<(Seq<char>, ActivityView)>,
    global: ActivityView,
    l: JsonList,
) -> Seq<(Seq<char>, ActivityView)>
    decreases l,
{
    match l {
        JsonList::Nil => t,
        JsonList::Cons(k, v, rest) => {
            let next = match *v {
                JsonValue::Object(_) => table_put(t, lower_of(k@), activity_after(global, *v)),
                _ => t,
            };
            languages_after_list(next, global, *rest)
        },
    }
}

/// The per-language table after reading `json`.
pub open spec fn languages_after(
    t: Seq<(Seq<char>, ActivityView)>,
    global: ActivityView,
    json: JsonValue,
) -> Seq<(Seq<char>, ActivityView)> {
    match json_get(json, "languages"@) {
        Some(JsonValue::Object(l)) => languages_after_list(t, global, l),
        _ => t,
    }
}

/// A required string setting after reading the member `key` of `json`.
pub open spec fn string_after(cur: Seq<char>, json: JsonValue, key: Seq<char>) -> Seq<char> {
    match json_get(json, key) {
        Some(JsonValue::Str(s)) => s@,
        _ => cur,
    }
}

/// The git integration flag after reading `json`: a boolean member sets it,
/// a member of another kind turns it on.
pub open spec fn git_after(cur: bool, json: JsonValue) -> bool {
    match json_get(json, "git_integration"@) {
        Some(JsonValue::Bool(b)) => b,
        Some(_) => true,
        None => cur,
    }
}

/// Whether `new` is `old` with every setting that `json` names read over it.
pub open spec fn read_from(old: Configuration, new: Configuration, json: JsonValue) -> bool {
    &&& new.application_id@ == string_after(old.application_id@, json, "application_id"@)
    &&& new.base_icons_url@ == string_after(old.base_icons_url@, json, "base_icons_url"@)
    &&& new.activity@ == activity_after(old.activity@, json)
    &&& table_view(new.languages@) == languages_after(
        table_view(old.languages@),
        activity_after(old.activity@, json),
        json,
    )
    &&& new.rules.mode == match json_get(json, "rules"@) {
        Some(r) => mode_after(old.rules.mode, r),
        None => old.rules.mode,
    }
    &&& texts(new.rules.paths@) == match json_get(json, "rules"@) {
        Some(r) => paths_after(texts(old.rules.paths@), r),
        None => texts(old.rules.paths@),
    }
    &&& new.idle.timeout == match json_get(json, "idle"@) {
        Some(i) => idle_timeout_after(old.idle.timeout, i),
        None => old.idle.timeout,
    }
    &&& new.idle.action == match json_get(json, "idle"@) {
        Some(i) => idle_action_after(old.idle.action, i),
        None => old.idle.action,
    }
    &&& new.idle.templates() == match json_get(json, "idle"@) {
        Some(i) => activity_after(old.idle.templates(), i),
        None => old.idle.templates(),
    }
    &&& new.git_integration == git_after(old.git_integration, json)
}

/// Everything the service is configured with.
#[derive(Debug)]
pub struct Configuration {
    pub application_id: String,
    pub base_icons_url: String,
    /// Templates used while a document is open.
    pub activity: Activity,
    /// Templates that replace `activity` for a language, keyed by the
    /// lowercased language name; each name occurs at most once.
    pub languages: Vec<(String, Activity)>,
    pub rules: Rules,
    pub idle: Idle,
    pub git_integration: bool,
}

/// The entry for `key`, found from index `i` on.
fn find_language(table: &Vec<(String, Activity)>, key: &str) -> (r: Option<usize>)
    ensures
        match r {
            Some(i) => table_index_from(table_view(table@), key@, 0) == Some(i as int) && i
                < table@.len(),
            None => table_index_from(table_view(table@), key@, 0) is None,
        },
{
    let ghost tv = table_view(table@);
    let mut i: usize = 0;
    while i < table.len()
        invariant
            tv == table_view(table@),
            0 <= i <= table@.len(),
            table_index_from(tv, key@, 0) == table_index_from(tv, key@, i as int),
        decreases table@.len() - i,
    {
        if str_eq(table[i].0.as_str(), key) {
            return Some(i);
        }
        i = i + 1;
    }
    None
}

/// Sets the entry for `key` to `a`.
fn put_language(table: &mut Vec<(String, Activity)>, key: String, a: Activity)
    ensures
        table_view(final(table)@) == table_put(table_view(old(table)@), key@, a@),
{
    match find_language(table, key.as_str()) {
        Some(i) => {
            let ghost k = key@;
            let ghost av = a@;
            table.set(i, (key, a));
            assert(table_view(table@) =~= table_view(old(table)@).update(i as int, (k, av)));
        },
        None => {
            let ghost k = key@;
            let ghost av = a@;
            table.push((key, a));
            assert(table_view(table@) =~= table_view(old(table)@).push((k, av)));
        },
    }
}

/// Reads the members of a `languages` object into the table.
fn apply_languages(table: &mut Vec<(String, Activity)>, global: &Activity, l: &JsonList)
    ensures
        table_view(final(table)@) == languages_after_list(table_view(old(table)@), global@, *l),
    decreases l,
{
    match l {
        JsonList::Nil => {},
        JsonList::Cons(k, v, rest) => {
            if let JsonValue::Object(_) = &**v {
                let mut a = global.duplicate();
                a.update_from_json(&**v);
                put_language(table, lowercase(k.as_str()), a);
            }
            apply_languages(table, global, &**rest);
        },
    }
}

impl Configuration {
    /// The configuration used when the options give nothing.
    pub fn new() -> (r: Configuration)
        ensures
            r.application_id@ == DEFAULT_APP_ID@,
            r.base_icons_url@ == DEFAULT_ICONS_URL@,
            r.activity@ == default_activity(),
            r.languages@.len() == 0,
            r.rules.mode == RulesMode::Blacklist,
            r.rules.paths@.len() == 0,
            r.idle.timeout == DEFAULT_IDLE_TIMEOUT,
            r.idle.action == IdleAction::ChangeActivity,
            r.idle.templates() == default_idle_activity(),
            r.git_integration,
    {
        Configuration {
            application_id: String::from_str(DEFAULT_APP_ID),
            base_icons_url: String::from_str(DEFAULT_ICONS_URL),
            activity: Activity::new(),
            languages: Vec::new(),
            rules: Rules::new(),
            idle: Idle::new(),
            git_integration: true,
        }
    }

    /// Reads every setting that `json` names; unknown members are ignored.
    pub fn update_from_json(&mut self, json: &JsonValue)
        ensures
            read_from(*old(self), *final(self), *json),
    {
        if let Some(app_id) = json.get("application_id") {
            if let Some(s) = app_id.as_str() {
                self.application_id = String::from_str(s);
            }
        }
        if let Some(url) = json.get("base_icons_url") {
            if let Some(s) = url.as_str() {
                self.base_icons_url = String::from_str(s);
            }
        }
        self.activity.update_from_json(json);
        if let Some(langs) = json.get("languages") {
            if let JsonValue::Object(l) = langs {
                apply_languages(&mut self.languages, &self.activity, l);
            }
        }
        if let Some(rules) = json.get("rules") {
            self.rules.update_from_json(rules);
        }
        if let Some(idle) = json.get("idle") {
            self.idle.update_from_json(idle);
        }
        if let Some(git) = json.get("git_integration") {
            self.git_integration = match git.as_bool() {
                Some(b) => b,
                None => true,
            };
        }
    }

    /// Reads the initialisation options, where there are any. Reading never
    /// fails: what is malformed is left as it was or skipped.
    pub fn update(&mut self, options: Option<JsonValue>) -> (r: Result<(), PresenceError>)
        ensures
            r is Ok,
            options is None ==> *final(self) == *old(self),
            options matches Some(json) ==> read_from(*old(self), *final(self), json),
    {
        if let Some(json) = options {
            self.update_from_json(&json);
        }
        Ok(())
    }

    /// The templates for a document in `language` (lowercased): the
    /// language's own where the table has them, the general ones otherwise.
    pub fn activity_for(&self, language: &str) -> (r: &Activity)
        ensures
            match table_index_from(table_view(self.languages@), language@, 0) {
                Some(i) => r@ == table_view(self.languages@)[i].1,
                None => r@ == self.activity@,
            },
    {
        match find_language(&self.languages, language) {
            Some(i) => &self.languages[i].1,
            None => &self.activity,
        }
    }
}

impl Default for Configuration {
    fn default() -> (r: Configuration)
        ensures
            r.application_id@ == DEFAULT_APP_ID@,
            r.base_icons_url@ == DEFAULT_ICONS_URL@,
            r.activity@ == default_activity(),
            r.git_integration,
    {
        Configuration::new()
    }
}

} // verus!
