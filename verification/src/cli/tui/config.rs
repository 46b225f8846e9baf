//! Form editors for the settings screens: fields, validation, key handling,
//! and the editors for each settings section.
use vstd::prelude::*;
use vstd::string::*;
use crate::cli::keys::KeyCode;
use crate::config::app::{DetectionConfig, GeneralConfig, NotifierConfig, PrivacyConfig, ScannerConfig};
use crate::text::{
    byte_len, char_at_byte, char_index_at_byte, char_width, lemma_byte_len_concat, lemma_byte_len_prefix_grows,
    lemma_byte_len_push, decimal, decimal_string, insert_char, is_float_literal, is_float_text, join_strings, join_strs,
    joined, owned, parse_bool, parse_bool_spec, parse_unsigned, parse_unsigned_spec, remove_char,
    str_eq, trim, trimmed, comma_list, parse_comma_list,
};

verus! {

/// Represents different form field types
#[derive(Debug, Clone, PartialEq, Eq)]
pub enum FieldType {
    Text,
    Number,
    Boolean,
    Select(Vec<&'static str>),
}

/// Represents a form field
#[derive(Debug, Clone)]
pub struct FormField {
    pub name: String,
    pub label: String,
    pub help: String,
    pub field_type: FieldType,
    pub value: String,
    pub original_value: String,
    pub error: Option<String>,
}

/// The options of a select field as texts.
pub open spec fn option_texts(options: Seq<&'static str>) -> Seq<Seq<char>> {
    options.map_values(|o: &'static str| o@)
}

/// The validation error of a value for a field type, if any: a number field
/// must be non-empty and read as a number (what `str::parse` accepts for
/// `i64` or `f64`; every `i64` text is also an `f64` text), a select field's
/// value must be one of its options.
pub open spec fn field_error(field_type: FieldType, value: Seq<char>) -> Option<Seq<char>> {
    match field_type {
        FieldType::Number => if value.len() == 0 {
            Some("Cannot be empty"@)
        } else if !is_float_text(value) {
            Some("Must be a number"@)
        } else {
            None
        },
        FieldType::Select(options) => if !option_texts(options@).contains(value) {
            Some("Must be one of: "@ + joined(option_texts(options@), ", "@))
        } else {
            None
        },
        _ => None,
    }
}

/// An optional text as its characters.
pub open spec fn opt_view(s: Option<String>) -> Option<Seq<char>> {
    match s {
        Some(v) => Some(v@),
        None => None,
    }
}

/// Whether a select value is among the options.
fn options_contain(options: &Vec<&'static str>, value: &str) -> (r: Option<usize>)
    ensures
        match r {
            Some(i) => i < options@.len() && options@[i as int]@ == value@ && forall|j: int|
                0 <= j < i ==> options@[j]@ != value@,
            None => !option_texts(options@).contains(value@),
        },
{
    let mut i: usize = 0;
    while i < options.len()
        invariant
            i <= options@.len(),
            forall|j: int| 0 <= j < i ==> options@[j]@ != value@,
        decreases options@.len() - i,
    {
        if str_eq(options[i], value) {
            return Some(i);
        }
        i = i + 1;
    }
    proof {
        if option_texts(options@).contains(value@) {
            let k = choose|k: int| 0 <= k < option_texts(options@).len() && option_texts(options@)[k] == value@;
            assert(options@[k]@ == value@);
        }
    }
    None
}

impl FormField {
    pub fn new(name: String, label: String, help: String, field_type: FieldType, value: String) -> (r: Self)
        ensures
            r.name == name,
            r.label == label,
            r.help == help,
            r.field_type == field_type,
            r.value == value,
            r.original_value@ == value@,
            r.error.is_none(),
    {
        let original_value = value.clone();
        FormField { name, label, help, field_type, value, original_value, error: None }
    }

    /// Whether the value differs from the value the field was created with.
    pub open spec fn modified(&self) -> bool {
        self.value@ != self.original_value@
    }

    pub fn is_modified(&self) -> (r: bool)
        ensures
            r == self.modified(),
    {
        !str_eq(self.value.as_str(), self.original_value.as_str())
    }

    /// Validates the value; records the error (or clears it) and reports
    /// whether the value is valid.
    pub fn validate(&mut self) -> (r: bool)
        ensures
            opt_view(final(self).error) == field_error(old(self).field_type, old(self).value@),
            r == field_error(old(self).field_type, old(self).value@).is_none(),
            final(self).name == old(self).name,
            final(self).label == old(self).label,
            final(self).help == old(self).help,
            final(self).field_type == old(self).field_type,
            final(self).value == old(self).value,
            final(self).original_value == old(self).original_value,
    {
        self.error = None;
        match &self.field_type {
            FieldType::Number => {
                if self.value.as_str().is_empty() {
                    self.error = Some("Cannot be empty".to_owned());
                    return false;
                }
                if !is_float_literal(self.value.as_str()) {
                    self.error = Some("Must be a number".to_owned());
                    return false;
                }
            },
            FieldType::Select(options) => {
                let found = options_contain(options, self.value.as_str());
                if let Some(i) = found {
                    assert(option_texts(options@)[i as int] == self.value@);
                }
                if found.is_none() {
                    let mut msg = "Must be one of: ".to_owned();
                    let list = join_strs(options, ", ");
                    msg.append(list.as_str());
                    self.error = Some(msg);
                    return false;
                }
            },
            _ => {},
        }
        true
    }
}

/// Represents a form editor screen
pub struct FormEditor {
    pub title: String,
    pub fields: Vec<FormField>,
    pub selected_field: usize,
    pub editing: bool,
    pub cursor_position: usize,
    pub dirty: bool,
    pub save_message: Option<String>,
}

/// Position of the first field named `name`, if any.
pub open spec fn field_index(fields: Seq<FormField>, name: Seq<char>) -> Option<int> {
    if exists|i: int| 0 <= i < fields.len() && #[trigger] fields[i].name@ == name {
        Some(
            choose|i: int|
                0 <= i < fields.len() && #[trigger] fields[i].name@ == name && forall|j: int|
                    0 <= j < i ==> fields[j].name@ != name,
        )
    } else {
        None
    }
}

proof fn lemma_field_index(fields: Seq<FormField>, name: Seq<char>, i: int)
    requires
        0 <= i < fields.len(),
        fields[i].name@ == name,
        forall|j: int| 0 <= j < i ==> fields[j].name@ != name,
    ensures
        field_index(fields, name) == Some(i),
{
    let k = choose|k: int|
        0 <= k < fields.len() && #[trigger] fields[k].name@ == name && forall|j: int|
            0 <= j < k ==> fields[j].name@ != name;
    if k < i {
        assert(fields[k].name@ != name);
    } else if k > i {
        assert(fields[i].name@ != name);
    }
}

/// The value of the first field named `name`, if any.
pub open spec fn field_value(fields: Seq<FormField>, name: Seq<char>) -> Option<Seq<char>> {
    match field_index(fields, name) {
        Some(i) => Some(fields[i].value@),
        None => None,
    }
}

proof fn lemma_first_field(fields: Seq<FormField>, name: Seq<char>, k: int)
    requires
        0 <= k < fields.len(),
        fields[k].name@ == name,
    ensures
        exists|i: int| 0 <= i < fields.len() && #[trigger] fields[i].name@ == name && forall|j: int| 0 <= j < i ==> fields[j].name@ != name,
    decreases k,
{
    if exists|j: int| 0 <= j < k && fields[j].name@ == name {
        let j = choose|j: int| 0 <= j < k && fields[j].name@ == name;
        lemma_first_field(fields, name, j);
    } else {
        assert(fields[k].name@ == name && forall|j: int| 0 <= j < k ==> fields[j].name@ != name);
    }
}

/// A value written to a field by name (as `set_field_value` writes it) is
/// what reading the field by name (`get_field_value`) gives back.
pub proof fn law_set_then_get(fields: Seq<FormField>, name: Seq<char>, value: String)
    requires
        field_index(fields, name) is Some,
    ensures
        field_value(fields.update(field_index(fields, name).unwrap(), FormField { value, ..fields[field_index(fields, name).unwrap()] }), name)
            == Some(value@),
{
    let k = choose|k: int| 0 <= k < fields.len() && #[trigger] fields[k].name@ == name;
    lemma_first_field(fields, name, k);
    let i = field_index(fields, name).unwrap();
    let updated = fields.update(i, FormField { value, ..fields[i] });
    assert(0 <= i < fields.len() && fields[i].name@ == name && forall|j: int| 0 <= j < i ==> fields[j].name@ != name);
    assert forall|j: int| 0 <= j < i implies updated[j].name@ != name by {
        assert(updated[j] == fields[j]);
    }
    lemma_field_index(updated, name, i);
}

impl FormEditor {
    pub fn new(title: String) -> (r: Self)
        ensures
            r.title == title,
            r.fields@.len() == 0,
            r.selected_field == 0,
            !r.editing,
            r.cursor_position == 0,
            !r.dirty,
            r.save_message.is_none(),
    {
        FormEditor {
            title,
            fields: Vec::new(),
            selected_field: 0,
            editing: false,
            cursor_position: 0,
            dirty: false,
            save_message: None,
        }
    }

    pub fn add_field(&mut self, field: FormField)
        ensures
            final(self).fields@ == old(self).fields@.push(field),
            final(self).title == old(self).title,
            final(self).selected_field == old(self).selected_field,
            final(self).editing == old(self).editing,
            final(self).cursor_position == old(self).cursor_position,
            final(self).dirty == old(self).dirty,
            final(self).save_message == old(self).save_message,
    {
        self.fields.push(field);
    }

    /// Position of the first field named `name`.
    fn find_field(&self, name: &str) -> (r: Option<usize>)
        ensures
            match r {
                Some(i) => i < self.fields@.len() && field_index(self.fields@, name@) == Some(
                    i as int,
                ),
                None => field_index(self.fields@, name@).is_none(),
            },
    {
        let mut i: usize = 0;
        while i < self.fields.len()
            invariant
                i <= self.fields@.len(),
                forall|j: int| 0 <= j < i ==> #[trigger] self.fields@[j].name@ != name@,
            decreases self.fields@.len() - i,
        {
            if str_eq(self.fields[i].name.as_str(), name) {
                proof {
                    lemma_field_index(self.fields@, name@, i as int);
                }
                return Some(i);
            }
            i = i + 1;
        }
        None
    }

    pub fn get_field_value(&self, name: &str) -> (r: Option<String>)
        ensures
            opt_view(r) == field_value(self.fields@, name@),
    {
        match self.find_field(name) {
            Some(i) => Some(self.fields[i].value.clone()),
            None => None,
        }
    }

    /// Sets the value of the first field named `name`; the editor is then
    /// dirty exactly when that field differs from its original value. Without
    /// such a field nothing changes.
    pub fn set_field_value(&mut self, name: &str, value: String)
        ensures
            match field_index(old(self).fields@, name@) {
                Some(i) => {
                    &&& final(self).fields@ == old(self).fields@.update(
                        i,
                        FormField { value, ..old(self).fields@[i] },
                    )
                    &&& final(self).dirty == (value@ != old(self).fields@[i].original_value@)
                },
                None => final(self).fields@ == old(self).fields@ && final(self).dirty == old(
                    self,
                ).dirty,
            },
            final(self).title == old(self).title,
            final(self).selected_field == old(self).selected_field,
            final(self).editing == old(self).editing,
            final(self).cursor_position == old(self).cursor_position,
            final(self).save_message == old(self).save_message,
    {
        if let Some(i) = self.find_field(name) {
            self.fields[i].value = value;
            self.dirty = self.fields[i].is_modified();
        }
    }

    /// Validates every field (recording each field's error) and reports
    /// whether all are valid.
    pub fn validate_all(&mut self) -> (r: bool)
        ensures
            final(self).fields@.len() == old(self).fields@.len(),
            forall|i: int|
                0 <= i < old(self).fields@.len() ==> {
                    &&& opt_view(#[trigger] final(self).fields@[i].error) == field_error(
                        old(self).fields@[i].field_type,
                        old(self).fields@[i].value@,
                    )
                    &&& final(self).fields@[i].value == old(self).fields@[i].value
                    &&& final(self).fields@[i].name == old(self).fields@[i].name
                    &&& final(self).fields@[i].label == old(self).fields@[i].label
                    &&& final(self).fields@[i].help == old(self).fields@[i].help
                    &&& final(self).fields@[i].field_type == old(self).fields@[i].field_type
                    &&& final(self).fields@[i].original_value == old(self).fields@[i].original_value
                },
            final(self).title == old(self).title,
            final(self).selected_field == old(self).selected_field,
            final(self).editing == old(self).editing,
            final(self).cursor_position == old(self).cursor_position,
            final(self).dirty == old(self).dirty,
            final(self).save_message == old(self).save_message,
            r == forall|i: int|
                0 <= i < old(self).fields@.len() ==> field_error(
                    #[trigger] old(self).fields@[i].field_type,
                    old(self).fields@[i].value@,
                ).is_none(),
    {
        let ghost before = self.fields@;
        let mut all_valid = true;
        let mut i: usize = 0;
        while i < self.fields.len()
            invariant
                i <= self.fields@.len(),
                self.fields@.len() == before.len(),
                forall|j: int|
                    0 <= j < i ==> {
                        &&& opt_view(#[trigger] self.fields@[j].error) == field_error(
                            before[j].field_type,
                            before[j].value@,
                        )
                        &&& self.fields@[j].value == before[j].value
                        &&& self.fields@[j].name == before[j].name
                        &&& self.fields@[j].label == before[j].label
                        &&& self.fields@[j].help == before[j].help
                        &&& self.fields@[j].field_type == before[j].field_type
                        &&& self.fields@[j].original_value == before[j].original_value
                    },
                self.title == old(self).title,
                self.selected_field == old(self).selected_field,
                self.editing == old(self).editing,
                self.cursor_position == old(self).cursor_position,
                self.dirty == old(self).dirty,
                self.save_message == old(self).save_message,
                before == old(self).fields@,
                forall|j: int| i <= j < before.len() ==> #[trigger] self.fields@[j] == before[j],
                all_valid == forall|j: int|
                    0 <= j < i ==> field_error(#[trigger] before[j].field_type, before[j].value@).is_none(),
            decreases before.len() - i,
        {
            let ok = self.fields[i].validate();
            if !ok {
                all_valid = false;
            }
            i = i + 1;
        }
        all_valid
    }

    pub fn has_changes(&self) -> (r: bool)
        ensures
            r == exists|i: int| 0 <= i < self.fields@.len() && #[trigger] self.fields@[i].modified(),
    {
        let mut i: usize = 0;
        while i < self.fields.len()
            invariant
                i <= self.fields@.len(),
                forall|j: int| 0 <= j < i ==> !#[trigger] self.fields@[j].modified(),
            decreases self.fields@.len() - i,
        {
            if self.fields[i].is_modified() {
                return true;
            }
            i = i + 1;
        }
        false
    }
}

/// A form field as plain values.
pub struct FieldState {
    pub name: Seq<char>,
    pub label: Seq<char>,
    pub help: Seq<char>,
    pub field_type: FieldType,
    pub value: Seq<char>,
    pub original_value: Seq<char>,
    pub error: Option<Seq<char>>,
}

/// A form editor as plain values.
pub struct FormState {
    pub fields: Seq<FieldState>,
    pub selected_field: usize,
    pub editing: bool,
    pub cursor_position: usize,
    pub dirty: bool,
    pub save_message: Option<Seq<char>>,
}

impl FormField {
    pub open spec fn state(&self) -> FieldState {
        FieldState {
            name: self.name@,
            label: self.label@,
            help: self.help@,
            field_type: self.field_type,
            value: self.value@,
            original_value: self.original_value@,
            error: opt_view(self.error),
        }
    }
}

impl FormEditor {
    pub open spec fn state(&self) -> FormState {
        FormState {
            fields: self.fields@.map_values(|f: FormField| f.state()),
            selected_field: self.selected_field,
            editing: self.editing,
            cursor_position: self.cursor_position,
            dirty: self.dirty,
            save_message: opt_view(self.save_message),
        }
    }
}

/// The selected field with a new value; the editor is dirty exactly when the
/// value differs from the field's original value.
pub open spec fn with_value(e: FormState, v: Seq<char>) -> FormState {
    let f = e.fields[e.selected_field as int];
    FormState {
        fields: e.fields.update(e.selected_field as int, FieldState { value: v, ..f }),
        dirty: v != f.original_value,
        ..e
    }
}

/// The value after the current one among a select field's options (cycling),
/// if the current value is one of them.
pub open spec fn next_option(options: Seq<&'static str>, value: Seq<char>) -> Option<Seq<char>> {
    if option_texts(options).contains(value) {
        let k = choose|k: int|
            0 <= k < options.len() && #[trigger] options[k]@ == value && forall|j: int|
                0 <= j < k ==> options[j]@ != value;
        Some(options[(k + 1) % (options.len() as int)]@)
    } else {
        None
    }
}

/// The editor after a key while navigating: arrows move between fields,
/// Enter toggles a boolean, cycles a select or starts editing a text or
/// number field (cursor after the last byte), Esc clears the status message.
pub open spec fn navigation_step(e: FormState, key: KeyCode) -> FormState {
    match key {
        KeyCode::Up => if e.selected_field > 0 {
            FormState { selected_field: (e.selected_field - 1) as usize, ..e }
        } else {
            e
        },
        KeyCode::Down => if e.selected_field + 1 < e.fields.len() {
            FormState { selected_field: (e.selected_field + 1) as usize, ..e }
        } else {
            e
        },
        KeyCode::Enter => if e.selected_field < e.fields.len() {
            let f = e.fields[e.selected_field as int];
            match f.field_type {
                FieldType::Boolean => with_value(
                    e,
                    if f.value == "true"@ {
                        "false"@
                    } else {
                        "true"@
                    },
                ),
                FieldType::Select(options) => match next_option(options@, f.value) {
                    Some(v) => with_value(e, v),
                    None => e,
                },
                _ => FormState { editing: true, cursor_position: byte_len(f.value) as usize, ..e },
            }
        } else {
            e
        },
        KeyCode::Esc => FormState { save_message: None, ..e },
        _ => e,
    }
}

/// The editor after a key while editing the selected field; the cursor is a
/// byte offset into the value. A character is inserted at the cursor, which
/// then moves one byte on; Backspace removes the character starting one byte
/// before the cursor and Delete the one starting at it; arrows move the
/// cursor one byte within the value; Enter validates and leaves editing, Esc
/// leaves editing.
pub open spec fn editing_step(e: FormState, key: KeyCode) -> FormState {
    if e.selected_field < e.fields.len() {
        let f = e.fields[e.selected_field as int];
        let c = e.cursor_position;
        match key {
            KeyCode::Esc => FormState { editing: false, cursor_position: 0, ..e },
            KeyCode::Enter => FormState {
                editing: false,
                cursor_position: 0,
                fields: e.fields.update(
                    e.selected_field as int,
                    FieldState { error: field_error(f.field_type, f.value), ..f },
                ),
                dirty: f.value != f.original_value,
                ..e
            },
            KeyCode::Char(ch) => match char_at_byte(f.value, c as int) {
                Some(k) => FormState {
                    cursor_position: (c + 1) as usize,
                    ..with_value(e, f.value.take(k).push(ch) + f.value.skip(k))
                },
                None => e,
            },
            KeyCode::Backspace => if c > 0 {
                match char_at_byte(f.value, c - 1) {
                    Some(k) => FormState {
                        cursor_position: (c - 1) as usize,
                        ..with_value(e, f.value.take(k) + f.value.skip(k + 1))
                    },
                    None => e,
                }
            } else {
                e
            },
            KeyCode::Delete => if c < byte_len(f.value) {
                match char_at_byte(f.value, c as int) {
                    Some(k) => with_value(e, f.value.take(k) + f.value.skip(k + 1)),
                    None => e,
                }
            } else {
                e
            },
            KeyCode::Left => if c > 0 {
                FormState { cursor_position: (c - 1) as usize, ..e }
            } else {
                e
            },
            KeyCode::Right => if c < byte_len(f.value) {
                FormState { cursor_position: (c + 1) as usize, ..e }
            } else {
                e
            },
            _ => e,
        }
    } else {
        e
    }
}

/// Whether the cursor lies within the value of the field being edited (as a
/// byte offset).
pub open spec fn cursor_in_value(e: FormState) -> bool {
    e.editing && e.selected_field < e.fields.len() ==> e.cursor_position
        <= byte_len(e.fields[e.selected_field as int].value)
}

/// The states in which a key is handled without a panic: the selected value
/// within a `String`'s length limit, and, while editing, the cursor on a
/// character boundary where a character is inserted, or removed by Delete;
/// for Backspace, one byte before the cursor.
pub open spec fn key_safe(e: FormState, key: KeyCode) -> bool {
    e.selected_field < e.fields.len() ==> {
        let v = e.fields[e.selected_field as int].value;
        let c = e.cursor_position as int;
        &&& byte_len(v) <= isize::MAX
        &&& e.editing ==> match key {
            KeyCode::Char(_) => char_at_byte(v, c) is Some,
            KeyCode::Backspace => c > 0 ==> char_at_byte(v, c - 1) is Some,
            KeyCode::Delete => c < byte_len(v) ==> char_at_byte(v, c) is Some,
            _ => true,
        }
    }
}

/// Removing the character at position `k` keeps the bytes before it.
proof fn lemma_remove_len(v: Seq<char>, k: int)
    requires
        0 <= k < v.len(),
    ensures
        byte_len(v.take(k)) + char_width(v[k]) + byte_len(v.skip(k + 1)) == byte_len(v),
        byte_len(v.take(k) + v.skip(k + 1)) == byte_len(v.take(k)) + byte_len(v.skip(k + 1)),
{
    assert(v =~= v.take(k).push(v[k]) + v.skip(k + 1));
    lemma_byte_len_concat(v.take(k).push(v[k]), v.skip(k + 1));
    lemma_byte_len_push(v.take(k), v[k]);
    lemma_byte_len_concat(v.take(k), v.skip(k + 1));
}

impl FormEditor {
    /// Handles a key: editing keys while a field is being edited, navigation
    /// keys otherwise.
    pub fn handle_key(&mut self, key: KeyCode)
        requires
            cursor_in_value(old(self).state()),
            key_safe(old(self).state(), key),
        ensures
            final(self).state() == if old(self).editing {
                editing_step(old(self).state(), key)
            } else {
                navigation_step(old(self).state(), key)
            },
            final(self).title == old(self).title,
            cursor_in_value(final(self).state()),
    {
        if self.editing {
            self.handle_editing_key(key);
        } else {
            self.handle_navigation_key(key);
        }
    }

    fn handle_navigation_key(&mut self, key: KeyCode)
        requires
            !old(self).editing,
            key_safe(old(self).state(), key),
        ensures
            final(self).state() == navigation_step(old(self).state(), key),
            final(self).title == old(self).title,
            cursor_in_value(final(self).state()),
    {
        let ghost e = self.state();
        match key {
            KeyCode::Up => {
                if self.selected_field > 0 {
                    self.selected_field = self.selected_field - 1;
                }
            },
            KeyCode::Down => {
                if self.fields.len() > 0 && self.selected_field < self.fields.len() - 1 {
                    self.selected_field = self.selected_field + 1;
                }
            },
            KeyCode::Enter => {
                let i = self.selected_field;
                if i < self.fields.len() {
                    let is_bool = match &self.fields[i].field_type {
                        FieldType::Boolean => true,
                        _ => false,
                    };
                    let is_select = match &self.fields[i].field_type {
                        FieldType::Select(_) => true,
                        _ => false,
                    };
                    if is_bool {
                        let v = if str_eq(self.fields[i].value.as_str(), "true") {
                            "false".to_owned()
                        } else {
                            "true".to_owned()
                        };
                        self.fields[i].value = v;
                        self.dirty = self.fields[i].is_modified();
                        proof {
                            assert(self.state().fields =~= with_value(e, self.fields@[i as int].value@).fields);
                        }
                    } else if is_select {
                        let next = match &self.fields[i].field_type {
                            FieldType::Select(options) => {
                                match options_contain(options, self.fields[i].value.as_str()) {
                                    Some(k) => {
                                        let ghost fv = self.fields@[i as int].value@;
                                        proof {
                                            assert(option_texts(options@)[k as int] == fv);
                                            let kk = choose|kk: int|
                                                0 <= kk < options@.len() && #[trigger] options@[kk]@ == fv
                                                    && forall|j: int| 0 <= j < kk ==> options@[j]@ != fv;
                                            if kk < k {
                                                assert(options@[kk]@ != fv);
                                            } else if kk > k {
                                                assert(options@[k as int]@ != fv);
                                            }
                                        }
                                        let n = options.len();
                                        Some(owned(options[(k + 1) % n]))
                                    },
                                    None => None,
                                }
                            },
                            _ => None,
                        };
                        if let Some(v) = next {
                            self.fields[i].value = v;
                            self.dirty = self.fields[i].is_modified();
                            proof {
                                assert(self.state().fields =~= with_value(e, self.fields@[i as int].value@).fields);
                            }
                        }
                    } else {
                        self.editing = true;
                        self.cursor_position = self.fields[i].value.as_str().len();
                    }
                }
            },
            KeyCode::Esc => {
                self.save_message = None;
            },
            _ => {},
        }
        proof {
            assert(self.state().fields =~= navigation_step(e, key).fields);
        }
    }

    fn handle_editing_key(&mut self, key: KeyCode)
        requires
            old(self).editing,
            cursor_in_value(old(self).state()),
            key_safe(old(self).state(), key),
        ensures
            final(self).state() == editing_step(old(self).state(), key),
            final(self).title == old(self).title,
            cursor_in_value(final(self).state()),
    {
        let ghost e = self.state();
        let i = self.selected_field;
        if i < self.fields.len() {
            let c = self.cursor_position;
            match key {
                KeyCode::Esc => {
                    self.editing = false;
                    self.cursor_position = 0;
                },
                KeyCode::Enter => {
                    self.editing = false;
                    self.cursor_position = 0;
                    self.fields[i].validate();
                    self.dirty = self.fields[i].is_modified();
                },
                KeyCode::Char(ch) => {
                    let ghost v0 = self.fields@[i as int].value@;
                    match char_index_at_byte(self.fields[i].value.as_str(), c) {
                        Some(k) => {
                            let v = insert_char(self.fields[i].value.as_str(), k, ch);
                            proof {
                                lemma_byte_len_prefix_grows(v0, k as int, v0.len() as int);
                                assert(v0 =~= v0.take(k as int) + v0.skip(k as int));
                                lemma_byte_len_concat(v0.take(k as int), v0.skip(k as int));
                                lemma_byte_len_push(v0.take(k as int), ch);
                                lemma_byte_len_concat(v0.take(k as int).push(ch), v0.skip(k as int));
                            }
                            self.fields[i].value = v;
                            self.cursor_position = c + 1;
                            self.dirty = self.fields[i].is_modified();
                        },
                        None => {},
                    }
                },
                KeyCode::Backspace => {
                    if c > 0 {
                        let ghost v0 = self.fields@[i as int].value@;
                        match char_index_at_byte(self.fields[i].value.as_str(), c - 1) {
                            Some(k) => {
                                proof {
                                    assert(v0.take(v0.len() as int) =~= v0);
                                    if k == v0.len() {
                                        assert(false);
                                    }
                                    lemma_remove_len(v0, k as int);
                                }
                                let v = remove_char(self.fields[i].value.as_str(), k);
                                self.fields[i].value = v;
                                self.cursor_position = c - 1;
                                self.dirty = self.fields[i].is_modified();
                            },
                            None => {},
                        }
                    }
                },
                KeyCode::Delete => {
                    let len = self.fields[i].value.as_str().len();
                    let ghost v0 = self.fields@[i as int].value@;
                    if c < len {
                        match char_index_at_byte(self.fields[i].value.as_str(), c) {
                            Some(k) => {
                                proof {
                                    assert(v0.take(v0.len() as int) =~= v0);
                                    if k == v0.len() {
                                        assert(false);
                                    }
                                    lemma_remove_len(v0, k as int);
                                }
                                let v = remove_char(self.fields[i].value.as_str(), k);
                                self.fields[i].value = v;
                                self.dirty = self.fields[i].is_modified();
                            },
                            None => {},
                        }
                    }
                },
                KeyCode::Left => {
                    if c > 0 {
                        self.cursor_position = c - 1;
                    }
                },
                KeyCode::Right => {
                    let len = self.fields[i].value.as_str().len();
                    if c < len {
                        self.cursor_position = c + 1;
                    }
                },
                _ => {},
            }
        }
        proof {
            assert(self.state().fields =~= editing_step(e, key).fields);
        }
    }
}

/// Booleans as `bool::to_string` writes them.
pub open spec fn bool_text(b: bool) -> Seq<char> {
    if b {
        "true"@
    } else {
        "false"@
    }
}

/// Writes a boolean as `bool::to_string` does.
pub fn bool_string(b: bool) -> (r: String)
    ensures
        r@ == bool_text(b),
{
    if b {
        "true".to_owned()
    } else {
        "false".to_owned()
    }
}

/// A field with the given texts and value, unmodified and without error.
pub open spec fn fresh_field(
    f: FormField,
    name: Seq<char>,
    label: Seq<char>,
    help: Seq<char>,
    value: Seq<char>,
) -> bool {
    &&& f.name@ == name
    &&& f.label@ == label
    &&& f.help@ == help
    &&& f.value@ == value
    &&& f.original_value@ == value
    &&& f.error.is_none()
}

/// Whether a field type is a select over exactly the given options.
pub open spec fn is_select_of(t: FieldType, options: Seq<Seq<char>>) -> bool {
    match t {
        FieldType::Select(o) => option_texts(o@) == options,
        _ => false,
    }
}

fn field(name: &str, label: &str, help: &str, field_type: FieldType, value: String) -> (r: FormField)
    ensures
        fresh_field(r, name@, label@, help@, value@),
        r.field_type == field_type,
{
    FormField::new(name.to_owned(), label.to_owned(), help.to_owned(), field_type, value)
}

fn select_of(options: &[&'static str]) -> (r: FieldType)
    ensures
        r is Select,
        r matches FieldType::Select(o) && o@ == options@,
{
    let mut v: Vec<&'static str> = Vec::new();
    let mut i: usize = 0;
    while i < options.len()
        invariant
            i <= options@.len(),
            v@ == options@.take(i as int),
        decreases options@.len() - i,
    {
        v.push(options[i]);
        i = i + 1;
        assert(v@ =~= options@.take(i as int));
    }
    assert(options@.take(options@.len() as int) =~= options@);
    FieldType::Select(v)
}

/// Create a general settings editor
pub fn create_general_editor(config: &GeneralConfig) -> (r: FormEditor)
    ensures
        r.title@ == "General Settings"@,
        r.fields@.len() == 3,
        fresh_field(r.fields@[0], "log_level"@, "Log Level"@, "Set the logging verbosity (trace, debug, info, warn, error)"@, config.log_level@),
        is_select_of(r.fields@[0].field_type, seq!["trace"@, "debug"@, "info"@, "warn"@, "error"@]),
        fresh_field(r.fields@[1], "max_log_age_days"@, "Max Log Age (days)"@, "How long to retain signal log entries (1-90 days)"@, decimal(config.max_log_age_days as nat)),
        r.fields@[1].field_type == FieldType::Number,
        fresh_field(r.fields@[2], "config_reload"@, "Config Reload"@, "Enable SIGHUP-based config reload"@, bool_text(config.config_reload)),
        r.fields@[2].field_type == FieldType::Boolean,
        r.selected_field == 0,
        !r.editing,
        !r.dirty,
{
    let mut editor = FormEditor::new("General Settings".to_owned());
    let levels = select_of(&["trace", "debug", "info", "warn", "error"]);
    editor.add_field(field("log_level", "Log Level", "Set the logging verbosity (trace, debug, info, warn, error)", levels, config.log_level.clone()));
    editor.add_field(field("max_log_age_days", "Max Log Age (days)", "How long to retain signal log entries (1-90 days)", FieldType::Number, decimal_string(config.max_log_age_days as u64)));
    editor.add_field(field("config_reload", "Config Reload", "Enable SIGHUP-based config reload", FieldType::Boolean, bool_string(config.config_reload)));
    assert(option_texts(seq!["trace", "debug", "info", "warn", "error"]) =~= seq!["trace"@, "debug"@, "info"@, "warn"@, "error"@]);
    editor
}

/// Create a privacy settings editor
pub fn create_privacy_editor(config: &PrivacyConfig) -> (r: FormEditor)
    ensures
        r.title@ == "Privacy Settings"@,
        r.fields@.len() == 2,
        fresh_field(r.fields@[0], "privacy_mode"@, "Privacy Mode"@, "Disable ARP/ping/mDNS scanning, BLE only"@, bool_text(config.privacy_mode)),
        r.fields@[0].field_type == FieldType::Boolean,
        fresh_field(r.fields@[1], "anonymous"@, "Anonymous Identifiers"@, "Comma-separated list of identifiers to ignore entirely"@, joined(config.anonymous@.map_values(|s: String| s@), ","@)),
        r.fields@[1].field_type == FieldType::Text,
        r.selected_field == 0,
        !r.editing,
        !r.dirty,
{
    let mut editor = FormEditor::new("Privacy Settings".to_owned());
    editor.add_field(field("privacy_mode", "Privacy Mode", "Disable ARP/ping/mDNS scanning, BLE only", FieldType::Boolean, bool_string(config.privacy_mode)));
    editor.add_field(field("anonymous", "Anonymous Identifiers", "Comma-separated list of identifiers to ignore entirely", FieldType::Text, join_strings(&config.anonymous, ",")));
    editor
}

/// Create a scanner settings editor; router IP and subnet fields only when set.
pub fn create_scanner_editor(scanner_name: &str, config: &ScannerConfig) -> (r: FormEditor)
    ensures
        r.title@ == "Scanner: "@ + scanner_name@,
        r.fields@.len() == 3 + (if config.router_ip.is_some() { 1int } else { 0 }) + (if config.subnet.is_some() { 1int } else { 0 }),
        fresh_field(r.fields@[0], "enabled"@, "Enabled"@, "Enable or disable this scanner"@, bool_text(config.enabled)),
        r.fields@[0].field_type == FieldType::Boolean,
        fresh_field(r.fields@[1], "scan_interval_sec"@, "Scan Interval (sec)"@, "How often to scan for devices"@, decimal(config.scan_interval_sec as nat)),
        r.fields@[1].field_type == FieldType::Number,
        config.router_ip.is_some() ==> fresh_field(r.fields@[2], "router_ip"@, "Router IP"@, "Router IP address for SNMP queries"@, config.router_ip.unwrap()@)
            && r.fields@[2].field_type == FieldType::Text,
        ({
            let k = if config.router_ip.is_some() { 3int } else { 2 };
            &&& fresh_field(r.fields@[k], "snmp_community"@, "SNMP Community"@, "SNMP community string for router queries"@, config.snmp_community@)
            &&& r.fields@[k].field_type == FieldType::Text
            &&& config.subnet.is_some() ==> fresh_field(r.fields@[k + 1], "subnet"@, "Subnet"@, "Subnet to scan (e.g., 192.168.1.0/24)"@, config.subnet.unwrap()@)
                && r.fields@[k + 1].field_type == FieldType::Text
        }),
        r.selected_field == 0,
        !r.editing,
        !r.dirty,
{
    let mut title = "Scanner: ".to_owned();
    title.append(scanner_name);
    let mut editor = FormEditor::new(title);
    editor.add_field(field("enabled", "Enabled", "Enable or disable this scanner", FieldType::Boolean, bool_string(config.enabled)));
    editor.add_field(field("scan_interval_sec", "Scan Interval (sec)", "How often to scan for devices", FieldType::Number, decimal_string(config.scan_interval_sec)));
    if let Some(router_ip) = &config.router_ip {
        editor.add_field(field("router_ip", "Router IP", "Router IP address for SNMP queries", FieldType::Text, router_ip.clone()));
    }
    editor.add_field(field("snmp_community", "SNMP Community", "SNMP community string for router queries", FieldType::Text, config.snmp_community.clone()));
    if let Some(subnet) = &config.subnet {
        editor.add_field(field("subnet", "Subnet", "Subnet to scan (e.g., 192.168.1.0/24)", FieldType::Text, subnet.clone()));
    }
    editor
}

/// Create a detection settings editor
pub fn create_detection_editor(config: &DetectionConfig) -> (r: FormEditor)
    ensures
        r.title@ == "Detection Settings"@,
        r.fields@.len() == 2,
        fresh_field(r.fields@[0], "enter_debounce_sec"@, "Enter Debounce (sec)"@, "Debounce before party enter notification"@, decimal(config.enter_debounce_sec as nat)),
        r.fields@[0].field_type == FieldType::Number,
        fresh_field(r.fields@[1], "exit_debounce_sec"@, "Exit Debounce (sec)"@, "Debounce before party exit notification"@, decimal(config.exit_debounce_sec as nat)),
        r.fields@[1].field_type == FieldType::Number,
        r.selected_field == 0,
        !r.editing,
        !r.dirty,
{
    let mut editor = FormEditor::new("Detection Settings".to_owned());
    editor.add_field(field("enter_debounce_sec", "Enter Debounce (sec)", "Debounce before party enter notification", FieldType::Number, decimal_string(config.enter_debounce_sec)));
    editor.add_field(field("exit_debounce_sec", "Exit Debounce (sec)", "Debounce before party exit notification", FieldType::Number, decimal_string(config.exit_debounce_sec)));
    editor
}

/// Create a notifier configuration editor
pub fn create_notifier_editor(config: &NotifierConfig, index: usize) -> (r: FormEditor)
    requires
        index < usize::MAX,
    ensures
        r.title@ == "Notifier #"@ + decimal(index as nat + 1),
        r.fields@.len() == 9,
        fresh_field(r.fields@[0], "kind"@, "Type"@, "Notifier type (discord, slack, webhook, mqtt)"@, config.kind@),
        is_select_of(r.fields@[0].field_type, seq!["discord"@, "slack"@, "webhook"@, "mqtt"@]),
        fresh_field(r.fields@[1], "webhook_url"@, "Webhook URL"@, "Webhook URL for notifications"@, config.webhook_url@),
        r.fields@[1].field_type == FieldType::Text,
        fresh_field(r.fields@[2], "url"@, "URL"@, "Generic URL (for webhook type)"@, config.url@),
        r.fields@[2].field_type == FieldType::Text,
        fresh_field(r.fields@[3], "method"@, "HTTP Method"@, "HTTP method (for webhook type)"@, config.method@),
        is_select_of(r.fields@[3].field_type, seq!["GET"@, "POST"@, "PUT"@, "DELETE"@]),
        fresh_field(r.fields@[4], "broker"@, "MQTT Broker"@, "MQTT broker address"@, config.broker@),
        r.fields@[4].field_type == FieldType::Text,
        fresh_field(r.fields@[5], "port"@, "MQTT Port"@, "MQTT broker port"@, decimal(config.port as nat)),
        r.fields@[5].field_type == FieldType::Number,
        fresh_field(r.fields@[6], "topic"@, "MQTT Topic"@, "MQTT topic for publishing"@, config.topic@),
        r.fields@[6].field_type == FieldType::Text,
        fresh_field(r.fields@[7], "include_timestamp"@, "Include Timestamp"@, "Include timestamp in notification messages"@, bool_text(config.include_timestamp)),
        r.fields@[7].field_type == FieldType::Boolean,
        fresh_field(r.fields@[8], "include_mac"@, "Include MAC"@, "Include MAC address in notification messages"@, bool_text(config.include_mac)),
        r.fields@[8].field_type == FieldType::Boolean,
        r.selected_field == 0,
        !r.editing,
        !r.dirty,
{
    let mut title = "Notifier #".to_owned();
    crate::text::push_decimal(&mut title, (index + 1) as u64);
    let mut editor = FormEditor::new(title);
    let kinds = select_of(&["discord", "slack", "webhook", "mqtt"]);
    let methods = select_of(&["GET", "POST", "PUT", "DELETE"]);
    editor.add_field(field("kind", "Type", "Notifier type (discord, slack, webhook, mqtt)", kinds, config.kind.clone()));
    editor.add_field(field("webhook_url", "Webhook URL", "Webhook URL for notifications", FieldType::Text, config.webhook_url.clone()));
    editor.add_field(field("url", "URL", "Generic URL (for webhook type)", FieldType::Text, config.url.clone()));
    editor.add_field(field("method", "HTTP Method", "HTTP method (for webhook type)", methods, config.method.clone()));
    editor.add_field(field("broker", "MQTT Broker", "MQTT broker address", FieldType::Text, config.broker.clone()));
    editor.add_field(field("port", "MQTT Port", "MQTT broker port", FieldType::Number, decimal_string(config.port as u64)));
    editor.add_field(field("topic", "MQTT Topic", "MQTT topic for publishing", FieldType::Text, config.topic.clone()));
    editor.add_field(field("include_timestamp", "Include Timestamp", "Include timestamp in notification messages", FieldType::Boolean, bool_string(config.include_timestamp)));
    editor.add_field(field("include_mac", "Include MAC", "Include MAC address in notification messages", FieldType::Boolean, bool_string(config.include_mac)));
    assert(option_texts(seq!["discord", "slack", "webhook", "mqtt"]) =~= seq!["discord"@, "slack"@, "webhook"@, "mqtt"@]);
    assert(option_texts(seq!["GET", "POST", "PUT", "DELETE"]) =~= seq!["GET"@, "POST"@, "PUT"@, "DELETE"@]);
    editor
}

/// Toggling a boolean field twice restores its value.
pub proof fn law_boolean_toggle_twice(e: FormState)
    requires
        e.selected_field < e.fields.len(),
        e.fields[e.selected_field as int].field_type == FieldType::Boolean,
        e.fields[e.selected_field as int].value == "true"@ || e.fields[e.selected_field as int].value
            == "false"@,
    ensures
        navigation_step(navigation_step(e, KeyCode::Enter), KeyCode::Enter).fields[e.selected_field as int].value
            == e.fields[e.selected_field as int].value,
{
    reveal_strlit("true");
    reveal_strlit("false");
}

/// Why a setting could not be taken from an editor.
#[derive(Debug, Clone, Copy, PartialEq, Eq)]
pub enum SettingsError {
    /// The editor has no field of this name.
    Missing(&'static str),
    /// The field's value does not parse as the setting's type.
    Invalid(&'static str),
}

impl SettingsError {
    /// The message of the error: `Missing <name>` or `Invalid <name>`.
    pub fn message(&self) -> (r: String)
        ensures
            r@ == match *self {
                SettingsError::Missing(n) => "Missing "@ + n@,
                SettingsError::Invalid(n) => "Invalid "@ + n@,
            },
    {
        match self {
            SettingsError::Missing(n) => {
                let mut s = "Missing ".to_owned();
                s.append(n);
                s
            },
            SettingsError::Invalid(n) => {
                let mut s = "Invalid ".to_owned();
                s.append(n);
                s
            },
        }
    }
}

/// How a setting's text is read.
pub enum SettingKind {
    Text,
    U16,
    U32,
    U64,
    Bool,
}

/// Whether the setting `name` can be taken from the fields: the field exists
/// and its value reads as the setting's type.
pub open spec fn setting_ok(fields: Seq<FormField>, name: Seq<char>, kind: SettingKind) -> bool {
    match field_value(fields, name) {
        None => false,
        Some(v) => match kind {
            SettingKind::Text => true,
            SettingKind::U16 => parse_unsigned_spec(v, 65535).is_some(),
            SettingKind::U32 => parse_unsigned_spec(v, 4294967295).is_some(),
            SettingKind::U64 => parse_unsigned_spec(v, 18446744073709551615).is_some(),
            SettingKind::Bool => parse_bool_spec(v).is_some(),
        },
    }
}

/// Whether `e` is the error for the setting `name`: missing when there is no
/// such field, invalid otherwise.
pub open spec fn setting_error(fields: Seq<FormField>, name: Seq<char>, e: SettingsError) -> bool {
    match e {
        SettingsError::Missing(n) => n@ == name && field_value(fields, name).is_none(),
        SettingsError::Invalid(n) => n@ == name && field_value(fields, name).is_some(),
    }
}

/// The number a field's value reads as.
pub open spec fn number_of(fields: Seq<FormField>, name: Seq<char>, max: nat) -> nat {
    parse_unsigned_spec(field_value(fields, name).unwrap(), max).unwrap()
}

/// The boolean a field's value reads as.
pub open spec fn bool_of(fields: Seq<FormField>, name: Seq<char>) -> bool {
    parse_bool_spec(field_value(fields, name).unwrap()).unwrap()
}

/// The text of a field.
pub open spec fn text_of(fields: Seq<FormField>, name: Seq<char>) -> Seq<char> {
    field_value(fields, name).unwrap()
}

fn read_text(editor: &FormEditor, name: &'static str) -> (r: Result<String, SettingsError>)
    ensures
        setting_ok(editor.fields@, name@, SettingKind::Text) ==> r.is_ok() && r->Ok_0@ == text_of(editor.fields@, name@),
        !setting_ok(editor.fields@, name@, SettingKind::Text) ==> r.is_err() && setting_error(editor.fields@, name@, r->Err_0),
{
    match editor.get_field_value(name) {
        Some(v) => Ok(v),
        None => Err(SettingsError::Missing(name)),
    }
}

fn read_number(editor: &FormEditor, name: &'static str, max: u64) -> (r: Result<u64, SettingsError>)
    ensures
        ({
            let kind_ok = match field_value(editor.fields@, name@) {
                None => false,
                Some(v) => parse_unsigned_spec(v, max as nat).is_some(),
            };
            &&& kind_ok ==> r.is_ok() && r->Ok_0 as nat == number_of(editor.fields@, name@, max as nat)
            &&& !kind_ok ==> r.is_err() && setting_error(editor.fields@, name@, r->Err_0)
        }),
{
    match editor.get_field_value(name) {
        Some(v) => match parse_unsigned(v.as_str(), max) {
            Some(n) => Ok(n),
            None => Err(SettingsError::Invalid(name)),
        },
        None => Err(SettingsError::Missing(name)),
    }
}

fn read_bool(editor: &FormEditor, name: &'static str) -> (r: Result<bool, SettingsError>)
    ensures
        setting_ok(editor.fields@, name@, SettingKind::Bool) ==> r.is_ok() && r->Ok_0 == bool_of(editor.fields@, name@),
        !setting_ok(editor.fields@, name@, SettingKind::Bool) ==> r.is_err() && setting_error(editor.fields@, name@, r->Err_0),
{
    match editor.get_field_value(name) {
        Some(v) => match parse_bool(v.as_str()) {
            Some(b) => Ok(b),
            None => Err(SettingsError::Invalid(name)),
        },
        None => Err(SettingsError::Missing(name)),
    }
}

/// Apply general settings from editor to config. Settings are taken in
/// order (log level, log age, reload); the first that is missing or invalid
/// stops the update with its error, the settings before it stay applied.
pub fn apply_general_settings(editor: &FormEditor, config: &mut GeneralConfig) -> (r: Result<(), SettingsError>)
    ensures
        ({
            let f = editor.fields@;
            let s1 = setting_ok(f, "log_level"@, SettingKind::Text);
            let s2 = s1 && setting_ok(f, "max_log_age_days"@, SettingKind::U32);
            let s3 = s2 && setting_ok(f, "config_reload"@, SettingKind::Bool);
            &&& r.is_ok() == s3
            &&& !s1 ==> setting_error(f, "log_level"@, r->Err_0)
            &&& s1 && !s2 ==> setting_error(f, "max_log_age_days"@, r->Err_0)
            &&& s2 && !s3 ==> setting_error(f, "config_reload"@, r->Err_0)
            &&& if s1 { final(config).log_level@ == text_of(f, "log_level"@) } else { final(config).log_level == old(config).log_level }
            &&& if s2 { final(config).max_log_age_days as nat == number_of(f, "max_log_age_days"@, 4294967295) } else { final(config).max_log_age_days == old(config).max_log_age_days }
            &&& if s3 { final(config).config_reload == bool_of(f, "config_reload"@) } else { final(config).config_reload == old(config).config_reload }
        }),
{
    config.log_level = read_text(editor, "log_level")?;
    config.max_log_age_days = read_number(editor, "max_log_age_days", 4294967295)? as u32;
    config.config_reload = read_bool(editor, "config_reload")?;
    Ok(())
}

/// Apply detection settings from editor to config, in order (enter, exit);
/// the first missing or invalid setting stops the update with its error.
pub fn apply_detection_settings(editor: &FormEditor, config: &mut DetectionConfig) -> (r: Result<(), SettingsError>)
    ensures
        ({
            let f = editor.fields@;
            let s1 = setting_ok(f, "enter_debounce_sec"@, SettingKind::U64);
            let s2 = s1 && setting_ok(f, "exit_debounce_sec"@, SettingKind::U64);
            &&& r.is_ok() == s2
            &&& !s1 ==> setting_error(f, "enter_debounce_sec"@, r->Err_0)
            &&& s1 && !s2 ==> setting_error(f, "exit_debounce_sec"@, r->Err_0)
            &&& if s1 { final(config).enter_debounce_sec as nat == number_of(f, "enter_debounce_sec"@, 18446744073709551615) } else { final(config).enter_debounce_sec == old(config).enter_debounce_sec }
            &&& if s2 { final(config).exit_debounce_sec as nat == number_of(f, "exit_debounce_sec"@, 18446744073709551615) } else { final(config).exit_debounce_sec == old(config).exit_debounce_sec }
        }),
{
    config.enter_debounce_sec = read_number(editor, "enter_debounce_sec", 18446744073709551615)?;
    config.exit_debounce_sec = read_number(editor, "exit_debounce_sec", 18446744073709551615)?;
    Ok(())
}

/// Apply privacy settings from editor to config, in order (privacy mode,
/// anonymous list); the first missing or invalid setting stops the update.
/// The anonymous list is the comma-separated items, trimmed, without empty ones.
pub fn apply_privacy_settings(editor: &FormEditor, config: &mut PrivacyConfig) -> (r: Result<(), SettingsError>)
    ensures
        ({
            let f = editor.fields@;
            let s1 = setting_ok(f, "privacy_mode"@, SettingKind::Bool);
            let s2 = s1 && setting_ok(f, "anonymous"@, SettingKind::Text);
            &&& r.is_ok() == s2
            &&& !s1 ==> setting_error(f, "privacy_mode"@, r->Err_0)
            &&& s1 && !s2 ==> setting_error(f, "anonymous"@, r->Err_0)
            &&& if s1 { final(config).privacy_mode == bool_of(f, "privacy_mode"@) } else { final(config).privacy_mode == old(config).privacy_mode }
            &&& if s2 { final(config).anonymous@.map_values(|x: String| x@) == comma_list(text_of(f, "anonymous"@)) } else { final(config).anonymous == old(config).anonymous }
        }),
{
    config.privacy_mode = read_bool(editor, "privacy_mode")?;
    let text = read_text(editor, "anonymous")?;
    config.anonymous = parse_comma_list(text.as_str());
    Ok(())
}

/// Apply scanner settings from editor to config, in order (enabled,
/// interval, router IP, community, subnet); router IP and subnet are taken as
/// present or absent, the others stop the update when missing or invalid.
pub fn apply_scanner_settings(editor: &FormEditor, config: &mut ScannerConfig) -> (r: Result<(), SettingsError>)
    ensures
        ({
            let f = editor.fields@;
            let s1 = setting_ok(f, "enabled"@, SettingKind::Bool);
            let s2 = s1 && setting_ok(f, "scan_interval_sec"@, SettingKind::U64);
            let s3 = s2 && setting_ok(f, "snmp_community"@, SettingKind::Text);
            &&& r.is_ok() == s3
            &&& !s1 ==> setting_error(f, "enabled"@, r->Err_0)
            &&& s1 && !s2 ==> setting_error(f, "scan_interval_sec"@, r->Err_0)
            &&& s2 && !s3 ==> setting_error(f, "snmp_community"@, r->Err_0)
            &&& if s1 { final(config).enabled == bool_of(f, "enabled"@) } else { final(config).enabled == old(config).enabled }
            &&& if s2 { final(config).scan_interval_sec as nat == number_of(f, "scan_interval_sec"@, 18446744073709551615) } else { final(config).scan_interval_sec == old(config).scan_interval_sec }
            &&& if s2 { opt_view(final(config).router_ip) == field_value(f, "router_ip"@) } else { final(config).router_ip == old(config).router_ip }
            &&& if s3 { final(config).snmp_community@ == text_of(f, "snmp_community"@) } else { final(config).snmp_community == old(config).snmp_community }
            &&& if s3 { opt_view(final(config).subnet) == field_value(f, "subnet"@) } else { final(config).subnet == old(config).subnet }
        }),
{
    config.enabled = read_bool(editor, "enabled")?;
    config.scan_interval_sec = read_number(editor, "scan_interval_sec", 18446744073709551615)?;
    config.router_ip = editor.get_field_value("router_ip");
    config.snmp_community = read_text(editor, "snmp_community")?;
    config.subnet = editor.get_field_value("subnet");
    Ok(())
}

/// Apply notifier settings from editor to config, in field order; the first
/// missing or invalid setting stops the update with its error.
pub fn apply_notifier_settings(editor: &FormEditor, config: &mut NotifierConfig) -> (r: Result<(), SettingsError>)
    ensures
        ({
            let f = editor.fields@;
            let s1 = setting_ok(f, "kind"@, SettingKind::Text);
            let s2 = s1 && setting_ok(f, "webhook_url"@, SettingKind::Text);
            let s3 = s2 && setting_ok(f, "url"@, SettingKind::Text);
            let s4 = s3 && setting_ok(f, "method"@, SettingKind::Text);
            let s5 = s4 && setting_ok(f, "broker"@, SettingKind::Text);
            let s6 = s5 && setting_ok(f, "port"@, SettingKind::U16);
            let s7 = s6 && setting_ok(f, "topic"@, SettingKind::Text);
            let s8 = s7 && setting_ok(f, "include_timestamp"@, SettingKind::Bool);
            let s9 = s8 && setting_ok(f, "include_mac"@, SettingKind::Bool);
            &&& r.is_ok() == s9
            &&& !s1 ==> setting_error(f, "kind"@, r->Err_0)
            &&& s1 && !s2 ==> setting_error(f, "webhook_url"@, r->Err_0)
            &&& s2 && !s3 ==> setting_error(f, "url"@, r->Err_0)
            &&& s3 && !s4 ==> setting_error(f, "method"@, r->Err_0)
            &&& s4 && !s5 ==> setting_error(f, "broker"@, r->Err_0)
            &&& s5 && !s6 ==> setting_error(f, "port"@, r->Err_0)
            &&& s6 && !s7 ==> setting_error(f, "topic"@, r->Err_0)
            &&& s7 && !s8 ==> setting_error(f, "include_timestamp"@, r->Err_0)
            &&& s8 && !s9 ==> setting_error(f, "include_mac"@, r->Err_0)
            &&& if s1 { final(config).kind@ == text_of(f, "kind"@) } else { final(config).kind == old(config).kind }
            &&& if s2 { final(config).webhook_url@ == text_of(f, "webhook_url"@) } else { final(config).webhook_url == old(config).webhook_url }
            &&& if s3 { final(config).url@ == text_of(f, "url"@) } else { final(config).url == old(config).url }
            &&& if s4 { final(config).method@ == text_of(f, "method"@) } else { final(config).method == old(config).method }
            &&& if s5 { final(config).broker@ == text_of(f, "broker"@) } else { final(config).broker == old(config).broker }
            &&& if s6 { final(config).port as nat == number_of(f, "port"@, 65535) } else { final(config).port == old(config).port }
            &&& if s7 { final(config).topic@ == text_of(f, "topic"@) } else { final(config).topic == old(config).topic }
            &&& if s8 { final(config).include_timestamp == bool_of(f, "include_timestamp"@) } else { final(config).include_timestamp == old(config).include_timestamp }
            &&& if s9 { final(config).include_mac == bool_of(f, "include_mac"@) } else { final(config).include_mac == old(config).include_mac }
            &&& final(config).payload_template == old(config).payload_template
            &&& final(config).token == old(config).token
            &&& final(config).channel_id == old(config).channel_id
        }),
{
    config.kind = read_text(editor, "kind")?;
    config.webhook_url = read_text(editor, "webhook_url")?;
    config.url = read_text(editor, "url")?;
    config.method = read_text(editor, "method")?;
    config.broker = read_text(editor, "broker")?;
    config.port = read_number(editor, "port", 65535)? as u16;
    config.topic = read_text(editor, "topic")?;
    config.include_timestamp = read_bool(editor, "include_timestamp")?;
    config.include_mac = read_bool(editor, "include_mac")?;
    Ok(())
}


/// `bool::to_string` text reads back as the boolean.
proof fn lemma_bool_text_parses(b: bool)
    ensures
        parse_bool_spec(bool_text(b)) == Some(b),
{
    reveal_strlit("true");
    reveal_strlit("false");
    assert("true"@.len() == 4);
    assert("false"@.len() == 5);
}

/// Fields whose names are distinct find each name at its own position.
proof fn lemma_distinct_names(f: Seq<FormField>)
    requires
        forall|i: int, j: int| 0 <= i < j < f.len() ==> f[i].name@ != f[j].name@,
    ensures
        forall|i: int| 0 <= i < f.len() ==> #[trigger] field_value(f, f[i].name@) == Some(f[i].value@),
{
    assert forall|i: int| 0 <= i < f.len() implies #[trigger] field_value(f, f[i].name@) == Some(f[i].value@) by {
        lemma_field_index(f, f[i].name@, i);
    }
}

/// Applying a general-settings editor as `create_general_editor` makes it
/// (its fields named and valued from a configuration) gives that
/// configuration back: every setting reads, with the configuration's value.
pub proof fn law_general_round_trip(f: Seq<FormField>, c: GeneralConfig)
    requires
        f.len() == 3,
        f[0].name@ == "log_level"@ && f[0].value@ == c.log_level@,
        f[1].name@ == "max_log_age_days"@ && f[1].value@ == decimal(c.max_log_age_days as nat),
        f[2].name@ == "config_reload"@ && f[2].value@ == bool_text(c.config_reload),
    ensures
        setting_ok(f, "log_level"@, SettingKind::Text),
        setting_ok(f, "max_log_age_days"@, SettingKind::U32),
        setting_ok(f, "config_reload"@, SettingKind::Bool),
        text_of(f, "log_level"@) == c.log_level@,
        number_of(f, "max_log_age_days"@, 4294967295) == c.max_log_age_days,
        bool_of(f, "config_reload"@) == c.config_reload,
{
    reveal_strlit("log_level");
    reveal_strlit("max_log_age_days");
    reveal_strlit("config_reload");
    assert("log_level"@.len() == 9);
    assert("max_log_age_days"@.len() == 16);
    assert("config_reload"@.len() == 13);
    lemma_distinct_names(f);
    assert(field_value(f, f[0].name@) == Some(f[0].value@));
    assert(field_value(f, f[1].name@) == Some(f[1].value@));
    assert(field_value(f, f[2].name@) == Some(f[2].value@));
    crate::text::lemma_parse_decimal(c.max_log_age_days as nat, 4294967295);
    lemma_bool_text_parses(c.config_reload);
}


/// Applying a notifier editor as `create_notifier_editor` makes it (its
/// fields named and valued from a configuration) gives that configuration
/// back: every setting reads, with the configuration's value; the settings
/// the editor does not carry are left as they were.
pub proof fn law_notifier_round_trip(f: Seq<FormField>, c: NotifierConfig)
    requires
        f.len() == 9,
        f[0].name@ == "kind"@ && f[0].value@ == c.kind@,
        f[1].name@ == "webhook_url"@ && f[1].value@ == c.webhook_url@,
        f[2].name@ == "url"@ && f[2].value@ == c.url@,
        f[3].name@ == "method"@ && f[3].value@ == c.method@,
        f[4].name@ == "broker"@ && f[4].value@ == c.broker@,
        f[5].name@ == "port"@ && f[5].value@ == decimal(c.port as nat),
        f[6].name@ == "topic"@ && f[6].value@ == c.topic@,
        f[7].name@ == "include_timestamp"@ && f[7].value@ == bool_text(c.include_timestamp),
        f[8].name@ == "include_mac"@ && f[8].value@ == bool_text(c.include_mac),
    ensures
        setting_ok(f, "kind"@, SettingKind::Text) && text_of(f, "kind"@) == c.kind@,
        setting_ok(f, "webhook_url"@, SettingKind::Text) && text_of(f, "webhook_url"@) == c.webhook_url@,
        setting_ok(f, "url"@, SettingKind::Text) && text_of(f, "url"@) == c.url@,
        setting_ok(f, "method"@, SettingKind::Text) && text_of(f, "method"@) == c.method@,
        setting_ok(f, "broker"@, SettingKind::Text) && text_of(f, "broker"@) == c.broker@,
        setting_ok(f, "port"@, SettingKind::U16) && number_of(f, "port"@, 65535) == c.port,
        setting_ok(f, "topic"@, SettingKind::Text) && text_of(f, "topic"@) == c.topic@,
        setting_ok(f, "include_timestamp"@, SettingKind::Bool) && bool_of(f, "include_timestamp"@) == c.include_timestamp,
        setting_ok(f, "include_mac"@, SettingKind::Bool) && bool_of(f, "include_mac"@) == c.include_mac,
{
    reveal_strlit("kind");
    reveal_strlit("webhook_url");
    reveal_strlit("url");
    reveal_strlit("method");
    reveal_strlit("broker");
    reveal_strlit("port");
    reveal_strlit("topic");
    reveal_strlit("include_timestamp");
    reveal_strlit("include_mac");
    assert("kind"@.len() == 4 && "kind"@[0] == 'k' && "kind"@[3] == 'd');
    assert("webhook_url"@.len() == 11 && "webhook_url"@[0] == 'w' && "webhook_url"@[10] == 'l');
    assert("url"@.len() == 3 && "url"@[0] == 'u' && "url"@[2] == 'l');
    assert("method"@.len() == 6 && "method"@[0] == 'm' && "method"@[5] == 'd');
    assert("broker"@.len() == 6 && "broker"@[0] == 'b' && "broker"@[5] == 'r');
    assert("port"@.len() == 4 && "port"@[0] == 'p' && "port"@[3] == 't');
    assert("topic"@.len() == 5 && "topic"@[0] == 't' && "topic"@[4] == 'c');
    assert("include_timestamp"@.len() == 17 && "include_timestamp"@[0] == 'i' && "include_timestamp"@[16] == 'p');
    assert("include_mac"@.len() == 11 && "include_mac"@[0] == 'i' && "include_mac"@[10] == 'c');
    assert forall|i: int, j: int| 0 <= i < j < f.len() implies f[i].name@ != f[j].name@ by {
        if f[i].name@ == f[j].name@ {
            assert(f[i].name@.len() == f[j].name@.len());
            assert(f[i].name@[0] == f[j].name@[0]);
            assert(f[i].name@[f[i].name@.len() - 1] == f[j].name@[f[j].name@.len() - 1]);
        }
    }
    lemma_distinct_names(f);
    assert(field_value(f, f[0].name@) == Some(f[0].value@));
    assert(field_value(f, f[1].name@) == Some(f[1].value@));
    assert(field_value(f, f[2].name@) == Some(f[2].value@));
    assert(field_value(f, f[3].name@) == Some(f[3].value@));
    assert(field_value(f, f[4].name@) == Some(f[4].value@));
    assert(field_value(f, f[5].name@) == Some(f[5].value@));
    assert(field_value(f, f[6].name@) == Some(f[6].value@));
    assert(field_value(f, f[7].name@) == Some(f[7].value@));
    assert(field_value(f, f[8].name@) == Some(f[8].value@));
    crate::text::lemma_parse_decimal(c.port as nat, 65535);
    lemma_bool_text_parses(c.include_timestamp);
    lemma_bool_text_parses(c.include_mac);
}


/// Applying a scanner editor as `create_scanner_editor` makes it (its
/// fields named and valued from a configuration, the router and subnet
/// fields only when set) gives that configuration back: every setting reads,
/// with the configuration's value, and the router and subnet are read back
/// exactly when they were set.
pub proof fn law_scanner_round_trip(f: Seq<FormField>, c: ScannerConfig)
    requires
        f.len() == 3 + (if c.router_ip.is_some() { 1int } else { 0 }) + (if c.subnet.is_some() { 1int } else { 0 }),
        f[0].name@ == "enabled"@ && f[0].value@ == bool_text(c.enabled),
        f[1].name@ == "scan_interval_sec"@ && f[1].value@ == decimal(c.scan_interval_sec as nat),
        c.router_ip.is_some() ==> f[2].name@ == "router_ip"@ && f[2].value@ == c.router_ip.unwrap()@,
        ({
            let k = if c.router_ip.is_some() { 3int } else { 2 };
            &&& f[k].name@ == "snmp_community"@ && f[k].value@ == c.snmp_community@
            &&& c.subnet.is_some() ==> f[k + 1].name@ == "subnet"@ && f[k + 1].value@ == c.subnet.unwrap()@
        }),
    ensures
        setting_ok(f, "enabled"@, SettingKind::Bool) && bool_of(f, "enabled"@) == c.enabled,
        setting_ok(f, "scan_interval_sec"@, SettingKind::U64) && number_of(f, "scan_interval_sec"@, 18446744073709551615) == c.scan_interval_sec,
        field_value(f, "router_ip"@) == opt_view(c.router_ip),
        setting_ok(f, "snmp_community"@, SettingKind::Text) && text_of(f, "snmp_community"@) == c.snmp_community@,
        field_value(f, "subnet"@) == opt_view(c.subnet),
{
    reveal_strlit("enabled");
    reveal_strlit("scan_interval_sec");
    reveal_strlit("router_ip");
    reveal_strlit("snmp_community");
    reveal_strlit("subnet");
    assert("enabled"@.len() == 7 && "enabled"@[0] == 'e' && "enabled"@[1] == 'n');
    assert("scan_interval_sec"@.len() == 17 && "scan_interval_sec"@[0] == 's' && "scan_interval_sec"@[1] == 'c');
    assert("router_ip"@.len() == 9 && "router_ip"@[0] == 'r' && "router_ip"@[1] == 'o');
    assert("snmp_community"@.len() == 14 && "snmp_community"@[0] == 's' && "snmp_community"@[1] == 'n');
    assert("subnet"@.len() == 6 && "subnet"@[0] == 's' && "subnet"@[1] == 'u');
    let k = if c.router_ip.is_some() { 3int } else { 2 };
    assert forall|i: int| 0 <= i < f.len() implies {
        ||| f[i].name@ == "enabled"@
        ||| f[i].name@ == "scan_interval_sec"@
        ||| f[i].name@ == "router_ip"@ && c.router_ip.is_some() && i == 2
        ||| f[i].name@ == "snmp_community"@
        ||| f[i].name@ == "subnet"@ && c.subnet.is_some() && i == k + 1
    } by {
        if i >= 2 && c.router_ip.is_none() && i == 3 {
            assert(k + 1 == 3);
        }
    }
    assert forall|i: int, j: int| 0 <= i < j < f.len() implies f[i].name@ != f[j].name@ by {
        if f[i].name@ == f[j].name@ {
            assert(f[i].name@.len() == f[j].name@.len());
            assert(f[i].name@[0] == f[j].name@[0]);
            assert(f[i].name@[1] == f[j].name@[1]);
        }
    }
    lemma_distinct_names(f);
    assert(field_value(f, f[0].name@) == Some(f[0].value@));
    assert(field_value(f, f[1].name@) == Some(f[1].value@));
    assert(field_value(f, f[k].name@) == Some(f[k].value@));
    if c.router_ip.is_some() {
        assert(field_value(f, f[2].name@) == Some(f[2].value@));
    } else {
        assert forall|i: int| 0 <= i < f.len() implies #[trigger] f[i].name@ != "router_ip"@ by {}
    }
    if c.subnet.is_some() {
        assert(field_value(f, f[k + 1].name@) == Some(f[k + 1].value@));
    } else {
        assert forall|i: int| 0 <= i < f.len() implies #[trigger] f[i].name@ != "subnet"@ by {}
    }
    crate::text::lemma_parse_decimal(c.scan_interval_sec as nat, 18446744073709551615);
    lemma_bool_text_parses(c.enabled);
}

} // verus!
