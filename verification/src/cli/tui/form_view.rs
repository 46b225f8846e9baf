//! What a form editor screen shows: its body and status lines as pieces of
//! text, each with the role that decides how it is drawn.
use vstd::prelude::*;
use vstd::string::*;
use crate::cli::tui::config::{FormEditor, FormField};
use crate::text::owned;

verus! {

/// How a piece of text is drawn.
#[derive(Debug, Clone, Copy, PartialEq, Eq, Structural)]
pub enum Role {
    /// The default style.
    Plain,
    /// The label of the selected field (bold, in the accent colour).
    Selected,
    /// The accent colour.
    Accent,
    /// A value that differs from the one the field was created with, and the
    /// marker of unsaved changes.
    Modified,
    /// A validation error.
    Error,
    /// The help text of the selected field.
    Muted,
    /// The message of a completed save.
    Success,
}

/// A piece of text with its role.
#[derive(Debug, Clone, PartialEq, Eq)]
pub struct Styled {
    pub text: String,
    pub role: Role,
}

/// A piece of text as its characters and role.
pub open spec fn piece(s: Styled) -> (Seq<char>, Role) {
    (s.text@, s.role)
}

/// The pieces of a line as characters and roles.
pub open spec fn line_pieces(line: Seq<Styled>) -> Seq<(Seq<char>, Role)> {
    line.map_values(|s: Styled| piece(s))
}

/// The lines as characters and roles.
pub open spec fn lines_pieces(lines: Seq<Vec<Styled>>) -> Seq<Seq<(Seq<char>, Role)>> {
    lines.map_values(|l: Vec<Styled>| line_pieces(l@))
}

/// The line of a field's validation error, if it has one.
pub open spec fn error_lines(f: FormField) -> Seq<Seq<(Seq<char>, Role)>> {
    match f.error {
        Some(e) => seq![seq![("  "@, Role::Plain), (e@, Role::Error)]],
        None => Seq::empty(),
    }
}

/// The line of a field's help, when it is selected and has help.
pub open spec fn help_lines(f: FormField, selected: bool) -> Seq<Seq<(Seq<char>, Role)>> {
    if selected && f.help@.len() > 0 {
        seq![seq![("  "@, Role::Plain), (f.help@, Role::Muted)]]
    } else {
        Seq::empty()
    }
}

/// The lines of one field: `label: value` (the label highlighted when the
/// field is selected, the value marked when modified), then its error if it
/// has one, then its help when it is selected and has help, then an empty
/// line.
pub open spec fn field_lines(f: FormField, selected: bool) -> Seq<Seq<(Seq<char>, Role)>> {
    seq![
        seq![
            (f.label@ + ": "@, if selected { Role::Selected } else { Role::Plain }),
            (f.value@, if f.modified() { Role::Modified } else { Role::Plain }),
        ],
    ] + error_lines(f) + help_lines(f, selected) + seq![seq![(""@, Role::Plain)]]
}

/// The body of a form: the lines of each field in order, the field at
/// `selected` being the selected one.
pub open spec fn body_lines(fields: Seq<FormField>, selected: int) -> Seq<Seq<(Seq<char>, Role)>>
    decreases fields.len(),
{
    if fields.len() == 0 {
        Seq::empty()
    } else {
        body_lines(fields.drop_last(), selected) + field_lines(
            fields.last(),
            selected == fields.len() - 1,
        )
    }
}

/// The status line: the save message after a save; the editing keys while a
/// value is edited; otherwise the browsing keys and, with unsaved changes, a
/// `Modified` marker.
pub open spec fn status_pieces(e: FormEditor) -> Seq<(Seq<char>, Role)> {
    match e.save_message {
        Some(m) => seq![(m@, Role::Success)],
        None => if e.editing {
            seq![("Editing: "@, Role::Accent), ("Enter=Save, Esc=Cancel"@, Role::Plain)]
        } else {
            seq![
                ("Enter=Edit, Esc=Back"@, Role::Plain),
                if e.dirty {
                    (" | Modified"@, Role::Modified)
                } else {
                    (""@, Role::Plain)
                },
            ]
        },
    }
}

fn styled(text: &str, role: Role) -> (r: Styled)
    ensures
        piece(r) == (text@, role),
{
    Styled { text: owned(text), role }
}

fn push_field_lines(out: &mut Vec<Vec<Styled>>, f: &FormField, selected: bool)
    ensures
        lines_pieces(final(out)@) == lines_pieces(old(out)@) + field_lines(*f, selected),
{
    let ghost start = lines_pieces(out@);
    let mut label = f.label.clone();
    label.append(": ");
    let label_role = if selected {
        Role::Selected
    } else {
        Role::Plain
    };
    let value_role = if f.is_modified() {
        Role::Modified
    } else {
        Role::Plain
    };
    let first = vec![Styled { text: label, role: label_role }, Styled { text: f.value.clone(), role: value_role }];
    assert(line_pieces(first@) =~= field_lines(*f, selected)[0]);
    out.push(first);
    let ghost after_first = lines_pieces(out@);
    assert(after_first =~= start + seq![field_lines(*f, selected)[0]]);
    let ghost err_part = error_lines(*f);
    match &f.error {
        Some(e) => {
            let line = vec![styled("  ", Role::Plain), Styled { text: e.clone(), role: Role::Error }];
            assert(line_pieces(line@) =~= err_part[0]);
            out.push(line);
        },
        None => {},
    }
    assert(lines_pieces(out@) =~= after_first + err_part);
    let ghost after_err = lines_pieces(out@);
    let ghost help_part = help_lines(*f, selected);
    if selected && !f.help.as_str().is_empty() {
        let line = vec![styled("  ", Role::Plain), Styled { text: f.help.clone(), role: Role::Muted }];
        assert(line_pieces(line@) =~= help_part[0]);
        out.push(line);
    }
    assert(lines_pieces(out@) =~= after_err + help_part);
    let ghost after_help = lines_pieces(out@);
    let blank = vec![styled("", Role::Plain)];
    assert(line_pieces(blank@) =~= seq![(""@, Role::Plain)]);
    out.push(blank);
    assert(lines_pieces(out@) =~= after_help + seq![seq![(""@, Role::Plain)]]);
    assert(lines_pieces(out@) =~= start + field_lines(*f, selected));
}

impl FormEditor {
    /// The body of the form: for each field, `label: value`, its error, its
    /// help when selected, and an empty line.
    pub fn body(&self) -> (r: Vec<Vec<Styled>>)
        ensures
            lines_pieces(r@) == body_lines(self.fields@, self.selected_field as int),
    {
        let mut out: Vec<Vec<Styled>> = Vec::new();
        let mut i: usize = 0;
        assert(self.fields@.take(0) =~= Seq::<FormField>::empty());
        assert(lines_pieces(out@) =~= Seq::<Seq<(Seq<char>, Role)>>::empty());
        while i < self.fields.len()
            invariant
                i <= self.fields@.len(),
                lines_pieces(out@) == body_lines(self.fields@.take(i as int), self.selected_field as int),
            decreases self.fields@.len() - i,
        {
            assert(self.fields@.take(i + 1).drop_last() =~= self.fields@.take(i as int));
            assert(self.fields@.take(i + 1).last() == self.fields@[i as int]);
            push_field_lines(&mut out, &self.fields[i], i == self.selected_field);
            i = i + 1;
        }
        assert(self.fields@.take(self.fields@.len() as int) =~= self.fields@);
        out
    }

    /// The status line under the form.
    pub fn status(&self) -> (r: Vec<Styled>)
        ensures
            line_pieces(r@) == status_pieces(*self),
    {
        let r = match &self.save_message {
            Some(m) => vec![Styled { text: m.clone(), role: Role::Success }],
            None => if self.editing {
                vec![styled("Editing: ", Role::Accent), styled("Enter=Save, Esc=Cancel", Role::Plain)]
            } else {
                let marker = if self.dirty {
                    styled(" | Modified", Role::Modified)
                } else {
                    styled("", Role::Plain)
                };
                vec![styled("Enter=Edit, Esc=Back", Role::Plain), marker]
            },
        };
        assert(line_pieces(r@) =~= status_pieces(*self));
        r
    }
}

} // verus!
