//! Exit codes and the structured error reported to agents.
pub mod error_types;

use vstd::prelude::*;
use crate::text::{decimal, push_char, push_decimal, push_signed_decimal, signed_decimal};
use vstd::string::*;
use crate::cli::export::{json_opt, json_quote, json_quoted};

verus! {

/// `serde_json::Error`, carried as an opaque value.
#[verifier::external_type_specification]
#[verifier::external_body]
pub struct ExJsonError(serde_json::Error);

/// Standard exit codes for proximityd
pub const EXIT_SUCCESS: i32 = 0;
pub const EXIT_GENERIC_ERROR: i32 = 1;
pub const EXIT_USAGE_ERROR: i32 = 2;
pub const EXIT_NETWORK_ERROR: i32 = 3;
pub const EXIT_VALIDATION_ERROR: i32 = 4;
pub const EXIT_FILE_NOT_FOUND: i32 = 5;
pub const EXIT_PERMISSION_DENIED: i32 = 6;
pub const EXIT_SIGINT: i32 = 130;

/// Structured error type for agent-friendly error reporting
#[derive(Debug, Clone)]
pub struct StructuredError {
    pub error_type: String,
    pub message: String,
    pub suggestion: Option<String>,
    pub exit_code: i32,
}

/// The TOON rendering of a structured error: one `key: value` line per field,
/// the suggestion line only when there is one.
pub open spec fn toon_text(e: StructuredError) -> Seq<char> {
    "error_type: "@ + e.error_type@ + "\n"@ + "message: "@ + e.message@ + "\n"@ + (match e.suggestion {
        Some(s) => "suggestion: "@ + s@ + "\n"@,
        None => Seq::empty(),
    }) + "exit_code: "@ + signed_decimal(e.exit_code as int) + "\n"@
}

/// The pretty JSON of a structured error (`serde_json::to_string_pretty`):
/// its four fields in order, two spaces in, the suggestion `null` when there
/// is none.
pub open spec fn json_text(e: StructuredError) -> Seq<char> {
    "{\n  \"error_type\": "@ + json_quoted(e.error_type@) + ",\n  \"message\": "@ + json_quoted(e.message@)
        + ",\n  \"suggestion\": "@ + json_opt(e.suggestion) + ",\n  \"exit_code\": "@ + signed_decimal(
        e.exit_code as int,
    ) + "\n}"@
}

/// The `:line` and `:line:column` suffix of a file reference; the column is
/// shown only together with a line.
pub open spec fn position_suffix(line: Option<u32>, column: Option<u32>) -> Seq<char> {
    match line {
        None => Seq::empty(),
        Some(l) => seq![':'] + decimal(l as nat) + match column {
            Some(c) => seq![':'] + decimal(c as nat),
            None => Seq::empty(),
        },
    }
}

/// Appends the `:line[:column]` suffix.
pub fn push_position_suffix(s: &mut String, line: Option<u32>, column: Option<u32>)
    ensures
        final(s)@ == old(s)@ + position_suffix(line, column),
{
    let ghost start = s@;
    if let Some(l) = line {
        push_char(s, ':');
        push_decimal(s, l as u64);
        if let Some(c) = column {
            push_char(s, ':');
            push_decimal(s, c as u64);
        }
    }
    assert(s@ =~= start + position_suffix(line, column));
}

impl StructuredError {
    /// Create a new structured error
    pub fn new(error_type: &str, message: &str, exit_code: i32) -> (r: Self)
        ensures
            r.error_type@ == error_type@,
            r.message@ == message@,
            r.suggestion.is_none(),
            r.exit_code == exit_code,
    {
        StructuredError {
            error_type: error_type.to_owned(),
            message: message.to_owned(),
            suggestion: None,
            exit_code,
        }
    }

    /// Add an actionable suggestion
    pub fn with_suggestion(self, suggestion: &str) -> (r: Self)
        ensures
            r.error_type == self.error_type,
            r.message == self.message,
            r.exit_code == self.exit_code,
            r.suggestion.is_some() && r.suggestion.unwrap()@ == suggestion@,
    {
        StructuredError { suggestion: Some(suggestion.to_owned()), ..self }
    }

    /// Format as TOON for stdout
    pub fn to_toon(&self) -> (r: String)
        ensures
            r@ == toon_text(*self),
    {
        let mut output = String::new();
        output.append("error_type: ");
        output.append(self.error_type.as_str());
        output.append("\n");
        output.append("message: ");
        output.append(self.message.as_str());
        output.append("\n");
        if let Some(suggestion) = &self.suggestion {
            output.append("suggestion: ");
            output.append(suggestion.as_str());
            output.append("\n");
        }
        output.append("exit_code: ");
        push_signed_decimal(&mut output, self.exit_code as i64);
        output.append("\n");
        assert(output@ =~= toon_text(*self));
        output
    }

    /// Format as pretty JSON; writing these fields cannot fail.
    pub fn to_json(&self) -> (r: Result<String, serde_json::Error>)
        ensures
            r matches Ok(s) && s@ == json_text(*self),
    {
        let mut out = String::new();
        out.append("{\n  \"error_type\": ");
        let q = json_quote(self.error_type.as_str());
        out.append(q.as_str());
        out.append(",\n  \"message\": ");
        let q = json_quote(self.message.as_str());
        out.append(q.as_str());
        out.append(",\n  \"suggestion\": ");
        match &self.suggestion {
            Some(s) => {
                let q = json_quote(s.as_str());
                out.append(q.as_str());
            },
            None => out.append("null"),
        }
        out.append(",\n  \"exit_code\": ");
        push_signed_decimal(&mut out, self.exit_code as i64);
        out.append("\n}");
        assert(out@ =~= json_text(*self));
        Ok(out)
    }
}

/// Format an error message with a file reference: `message (path:line:column)`.
/// `display_path` is the path as it is shown (made relative by the caller
/// where possible).
pub fn format_error_with_file(
    message: &str,
    display_path: &str,
    line: Option<u32>,
    column: Option<u32>,
) -> (r: String)
    ensures
        r@ == message@ + " ("@ + display_path@ + position_suffix(line, column) + ")"@,
{
    let mut s = message.to_owned();
    s.append(" (");
    s.append(display_path);
    push_position_suffix(&mut s, line, column);
    s.append(")");
    s
}

} // verus!
