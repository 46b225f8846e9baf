//! The agents' settings files (JSON) and the session-start hook that the
//! library registers in them.
use vstd::prelude::*;
use crate::text::{owned, str_eq};
use crate::hooks::hook_command;

verus! {

/// `serde_json::Number`, carried as an opaque value.
#[verifier::external_type_specification]
#[verifier::external_body]
pub struct ExJsonNumber(serde_json::Number);

/// `serde_json::Value`, carried as an opaque value.
#[verifier::external_type_specification]
#[verifier::external_body]
pub struct ExJsonValue(serde_json::Value);

/// A JSON value; an object keeps its entries in order.
#[derive(Debug, PartialEq)]
pub enum JsonValue {
    Null,
    Bool(bool),
    Number(serde_json::Number),
    Str(String),
    Array(Vec<JsonValue>),
    Object(Vec<(String, JsonValue)>),
}


/// Whether `serde_json::from_str` reads the text as a JSON value.
pub uninterp spec fn json_text_accepted(text: Seq<char>) -> bool;

/// Converts a `serde_json::Value` into the library's model, entry by entry.
/// Trusted conversion; nothing is stated of it.
#[verifier::external_body]
fn from_serde(v: serde_json::Value) -> JsonValue {
    match v {
        serde_json::Value::Null => JsonValue::Null,
        serde_json::Value::Bool(b) => JsonValue::Bool(b),
        serde_json::Value::Number(n) => JsonValue::Number(n),
        serde_json::Value::String(s) => JsonValue::Str(s),
        serde_json::Value::Array(a) => JsonValue::Array(a.into_iter().map(from_serde).collect()),
        serde_json::Value::Object(m) => JsonValue::Object(m.into_iter().map(|(k, x)| (k, from_serde(x))).collect()),
    }
}

/// Converts the library's model back into a `serde_json::Value`. Trusted
/// conversion; nothing is stated of it.
#[verifier::external_body]
fn to_serde(v: JsonValue) -> serde_json::Value {
    match v {
        JsonValue::Null => serde_json::Value::Null,
        JsonValue::Bool(b) => serde_json::Value::Bool(b),
        JsonValue::Number(n) => serde_json::Value::Number(n),
        JsonValue::Str(s) => serde_json::Value::String(s),
        JsonValue::Array(a) => serde_json::Value::Array(a.into_iter().map(to_serde).collect()),
        JsonValue::Object(es) => serde_json::Value::Object(es.into_iter().map(|(k, x)| (k, to_serde(x))).collect()),
    }
}

/// The value `serde_json::from_str` reads from a text it accepts, as the
/// library's model.
pub uninterp spec fn parsed_json(text: Seq<char>) -> JsonValue;

/// The text `serde_json::to_string_pretty` writes for a value given in the
/// library's model.
pub uninterp spec fn pretty_text(v: JsonValue) -> Seq<char>;

/// Reads a JSON text (`serde_json::from_str` into a `serde_json::Value`).
/// Trusted: success is stated to depend on the text alone, and the value
/// read is named `parsed_json` of the text; JSON syntax is not stated.
#[verifier::external_body]
pub fn parse_json(text: &str) -> (r: Option<JsonValue>)
    ensures
        json_text_accepted(text@) ==> r == Some(parsed_json(text@)),
        !json_text_accepted(text@) ==> r is None,
{
    serde_json::from_str::<serde_json::Value>(text).ok().map(from_serde)
}

/// Writes a JSON value as indented text (`serde_json::to_string_pretty`,
/// which cannot fail on a value). Trusted: the text is named `pretty_text`
/// of the value; the layout is not stated.
#[verifier::external_body]
pub fn pretty_json(v: JsonValue) -> (r: String)
    ensures
        r@ == pretty_text(v),
{
    serde_json::to_string_pretty(&to_serde(v)).unwrap_or_default()
}

/// The position of the first entry with the key, if any.
pub open spec fn key_index(es: Seq<(String, JsonValue)>, key: Seq<char>) -> Option<int>
    decreases es.len(),
{
    if es.len() == 0 {
        None
    } else if es[0].0@ == key {
        Some(0)
    } else {
        match key_index(es.drop_first(), key) {
            Some(i) => Some(i + 1),
            None => None,
        }
    }
}

/// The first entry with the key is an entry with the key.
pub proof fn lemma_key_index(es: Seq<(String, JsonValue)>, key: Seq<char>)
    ensures
        match key_index(es, key) {
            Some(i) => 0 <= i < es.len() && es[i].0@ == key && forall|j: int| 0 <= j < i ==> es[j].0@ != key,
            None => forall|j: int| 0 <= j < es.len() ==> es[j].0@ != key,
        },
    decreases es.len(),
{
    if es.len() > 0 {
        lemma_key_index(es.drop_first(), key);
        assert forall|j: int| 0 < j < es.len() implies es[j] == es.drop_first()[j - 1] by {}
    }
}

/// Whether `new` is `old` with the key set to a value meeting `p`: the first
/// entry with the key gets the value in its place, or, without such an entry,
/// one is appended; the other entries stay.
pub open spec fn sets_key(
    old: Seq<(String, JsonValue)>,
    new: Seq<(String, JsonValue)>,
    key: Seq<char>,
    p: spec_fn(JsonValue) -> bool,
) -> bool {
    match key_index(old, key) {
        Some(i) => {
            &&& new.len() == old.len()
            &&& new[i].0@ == key
            &&& p(new[i].1)
            &&& forall|j: int| 0 <= j < old.len() && j != i ==> #[trigger] new[j] == old[j]
        },
        None => {
            &&& new.len() == old.len() + 1
            &&& new.last().0@ == key
            &&& p(new.last().1)
            &&& forall|j: int| 0 <= j < old.len() ==> #[trigger] new[j] == old[j]
        },
    }
}

/// A hook entry: an object whose one entry `command` holds the command.
pub open spec fn is_hook(v: JsonValue, command: Seq<char>) -> bool {
    v matches JsonValue::Object(es) && es@.len() == 1 && es@[0].0@ == "command"@ && (es@[0].1 matches JsonValue::Str(
        c,
    ) && c@ == command)
}

/// An object whose entries, from `old` on, have `session-start` set to the
/// hook of the command.
pub open spec fn has_session_hook(v: JsonValue, old: Seq<(String, JsonValue)>, command: Seq<char>) -> bool {
    v matches JsonValue::Object(es) && sets_key(old, es@, "session-start"@, |h: JsonValue| is_hook(h, command))
}

/// Why the hook cannot be written into the settings.
#[derive(Debug, Clone, Copy, PartialEq, Eq, Structural)]
pub enum HookEditError {
    /// The settings are neither an object nor `null`.
    SettingsNotAnObject,
    /// The settings' `hooks` entry is neither an object nor `null`.
    HooksNotAnObject,
}

/// The entries of settings that are an object, or none for `null` (which
/// JSON indexing turns into an empty object); `None` for anything else.
pub open spec fn root_entries(v: JsonValue) -> Option<Seq<(String, JsonValue)>> {
    match v {
        JsonValue::Null => Some(Seq::empty()),
        JsonValue::Object(es) => Some(es@),
        _ => None,
    }
}

/// Whether `r` is the settings with the session-start hook of the command
/// set: at the top (`nested` false) or inside the `hooks` object, which is
/// created when missing or `null`; the errors where the value to write into
/// is neither an object nor `null`.
pub open spec fn hook_edit(settings: JsonValue, command: Seq<char>, nested: bool, r: Result<JsonValue, HookEditError>) -> bool {
    match root_entries(settings) {
        None => r == Err::<JsonValue, HookEditError>(HookEditError::SettingsNotAnObject),
        Some(es0) => if !nested {
            r matches Ok(v) && has_session_hook(v, es0, command)
        } else {
            match key_index(es0, "hooks"@) {
                Some(i) => match root_entries(es0[i].1) {
                    None => r == Err::<JsonValue, HookEditError>(HookEditError::HooksNotAnObject),
                    Some(hs0) => r matches Ok(JsonValue::Object(es)) && sets_key(
                        es0,
                        es@,
                        "hooks"@,
                        |h: JsonValue| has_session_hook(h, hs0, command),
                    ),
                },
                None => r matches Ok(JsonValue::Object(es)) && sets_key(
                    es0,
                    es@,
                    "hooks"@,
                    |h: JsonValue| has_session_hook(h, Seq::empty(), command),
                ),
            }
        },
    }
}

/// Finds the first entry with the key.
fn find_key(es: &Vec<(String, JsonValue)>, key: &str) -> (r: Option<usize>)
    ensures
        match key_index(es@, key@) {
            Some(i) => r matches Some(k) && k as int == i,
            None => r is None,
        },
{
    let mut i: usize = 0;
    assert(es@.skip(0) =~= es@);
    while i < es.len()
        invariant
            i <= es@.len(),
            key_index(es@, key@) == match key_index(es@.skip(i as int), key@) {
                Some(k) => Some(k + i),
                None => None::<int>,
            },
        decreases es@.len() - i,
    {
        assert(es@.skip(i as int)[0] == es@[i as int]);
        assert(es@.skip(i as int).drop_first() =~= es@.skip(i + 1));
        if str_eq(es[i].0.as_str(), key) {
            return Some(i);
        }
        i = i + 1;
    }
    assert(es@.skip(i as int).len() == 0);
    None
}

/// Sets the key to the value: in place of the first entry with the key, or
/// appended.
fn set_key(es: Vec<(String, JsonValue)>, key: &str, val: JsonValue) -> (r: Vec<(String, JsonValue)>)
    ensures
        match key_index(es@, key@) {
            Some(i) => r@ == es@.update(i, (r@[i].0, val)) && r@[i].0@ == key@,
            None => r@ == es@.push((r@.last().0, val)) && r@.last().0@ == key@,
        },
{
    proof {
        lemma_key_index(es@, key@);
    }
    let mut es = es;
    match find_key(&es, key) {
        Some(i) => {
            es.set(i, (owned(key), val));
        },
        None => {
            es.push((owned(key), val));
        },
    }
    es
}

/// The hook entry of a command: `{"command": command}`.
fn hook_entry(command: &str) -> (r: JsonValue)
    ensures
        is_hook(r, command@),
{
    let r = JsonValue::Object(vec![(owned("command"), JsonValue::Str(owned(command)))]);
    proof {
        reveal_strlit("command");
    }
    r
}

/// Entries with `session-start` set to the hook of the command.
fn with_hook_entry(es: Vec<(String, JsonValue)>, command: &str) -> (r: JsonValue)
    ensures
        has_session_hook(r, es@, command@),
{
    let ghost old = es@;
    let h = hook_entry(command);
    let ghost hv = h;
    let new = set_key(es, "session-start", h);
    let r = JsonValue::Object(new);
    proof {
        lemma_key_index(old, "session-start"@);
        match key_index(old, "session-start"@) {
            Some(i) => {
                assert(new@[i].1 == hv);
                assert forall|j: int| 0 <= j < old.len() && j != i implies #[trigger] new@[j] == old[j] by {}
            },
            None => {
                assert(new@.last().1 == hv);
                assert forall|j: int| 0 <= j < old.len() implies #[trigger] new@[j] == old[j] by {}
            },
        }
    }
    r
}

/// Sets the session-start hook of a command in an agent's settings: at the
/// top, or (`nested`) inside their `hooks` object, which is created when
/// missing. Settings that are `null` count as an empty object; other
/// settings, or a `hooks` entry, that are no object are refused.
pub fn with_session_hook(settings: JsonValue, command: &str, nested: bool) -> (r: Result<JsonValue, HookEditError>)
    ensures
        hook_edit(settings, command@, nested, r),
{
    let ghost s0 = settings;
    let es: Vec<(String, JsonValue)> = match settings {
        JsonValue::Null => {
            let v: Vec<(String, JsonValue)> = Vec::new();
            assert(v@ =~= Seq::<(String, JsonValue)>::empty());
            v
        },
        JsonValue::Object(es) => es,
        _ => {
            return Err(HookEditError::SettingsNotAnObject);
        },
    };
    assert(root_entries(s0) == Some(es@));
    if !nested {
        return Ok(with_hook_entry(es, command));
    }
    let ghost es0 = es@;
    proof {
        lemma_key_index(es0, "hooks"@);
    }
    let mut es = es;
    match find_key(&es, "hooks") {
        Some(i) => {
            let (k, h) = es.remove(i);
            assert(h == es0[i as int].1);
            let inner: Vec<(String, JsonValue)> = match h {
                JsonValue::Null => {
                    let v: Vec<(String, JsonValue)> = Vec::new();
                    assert(v@ =~= Seq::<(String, JsonValue)>::empty());
                    v
                },
                JsonValue::Object(hs) => hs,
                _ => {
                    return Err(HookEditError::HooksNotAnObject);
                },
            };
            let ghost hs0 = inner@;
            assert(root_entries(es0[i as int].1) == Some(hs0));
            let nh = with_hook_entry(inner, command);
            let ghost nhv = nh;
            es.insert(i, (k, nh));
            proof {
                assert(es@ =~= es0.update(i as int, (k, nhv)));
                assert forall|j: int| 0 <= j < es0.len() && j != i implies #[trigger] es@[j] == es0[j] by {}
            }
            Ok(JsonValue::Object(es))
        },
        None => {
            let empty: Vec<(String, JsonValue)> = Vec::new();
            assert(empty@ =~= Seq::<(String, JsonValue)>::empty());
            let nh = with_hook_entry(empty, command);
            let ghost nhv = nh;
            let new = set_key(es, "hooks", nh);
            proof {
                assert forall|j: int| 0 <= j < es0.len() implies #[trigger] new@[j] == es0[j] by {}
                assert(new@.last().1 == nhv);
            }
            Ok(JsonValue::Object(new))
        },
    }
}


/// Why an agent's settings could not take the hook.
#[derive(Debug, Clone, Copy, PartialEq, Eq, Structural)]
pub enum SettingsEditError {
    /// The settings file holds no JSON.
    Unparsable,
    /// The settings, or their `hooks` entry, are no object.
    Edit(HookEditError),
}

/// Whether `r` is what registering the hook of `command` in the settings
/// gives: the edited settings (see `hook_edit`) written as `pretty_text`, or
/// the edit's error.
pub open spec fn registered(settings: JsonValue, command: Seq<char>, nested: bool, r: Result<String, SettingsEditError>) -> bool {
    exists|e: Result<JsonValue, HookEditError>|
        #[trigger] hook_edit(settings, command, nested, e) && match e {
            Ok(w) => r matches Ok(s) && s@ == pretty_text(w),
            Err(k) => r == Err::<String, SettingsEditError>(SettingsEditError::Edit(k)),
        }
}

/// The text of an agent's settings with the session-start hook of the
/// program at `binary_display` registered (`nested`: inside the `hooks`
/// object): the existing settings when there are any, else an empty object,
/// edited by `with_session_hook` and written indented.
pub fn register_session_hook(existing: Option<&str>, binary_display: &str, nested: bool) -> (r: Result<
    String,
    SettingsEditError,
>)
    ensures
        match existing {
            Some(t) => if json_text_accepted(t@) {
                registered(parsed_json(t@), binary_display@ + " session-context --format toon"@, nested, r)
            } else {
                r == Err::<String, SettingsEditError>(SettingsEditError::Unparsable)
            },
            None => registered(JsonValue::Null, binary_display@ + " session-context --format toon"@, nested, r),
        },
        existing is None ==> r is Ok,
{
    let settings = match existing {
        Some(t) => match parse_json(t) {
            Some(v) => v,
            None => {
                return Err(SettingsEditError::Unparsable);
            },
        },
        None => {
            let empty: Vec<(String, JsonValue)> = Vec::new();
            assert(empty@ =~= Seq::<(String, JsonValue)>::empty());
            JsonValue::Object(empty)
        },
    };
    let ghost start = settings;
    let command = hook_command(binary_display);
    let edited = with_session_hook(settings, command.as_str(), nested);
    let ghost e = edited;
    proof {
        if existing is None {
            assert(root_entries(start) == root_entries(JsonValue::Null));
            assert(hook_edit(JsonValue::Null, command@, nested, e));
        }
    }
    match edited {
        Ok(v) => {
            let ghost w = v;
            let text = pretty_json(v);
            assert(hook_edit(start, command@, nested, e));
            let r = Ok(text);
            assert(registered(start, command@, nested, r));
            r
        },
        Err(k) => {
            assert(existing is Some);
            let r = Err(SettingsEditError::Edit(k));
            assert(registered(start, command@, nested, r));
            r
        },
    }
}

} // verus!
