//! Terminal-aware text formatting: truncation, table rows, terminal size.
use vstd::prelude::*;
use vstd::string::*;
use vstd::utf8::*;
use crate::text::{lemma_encode_ascii, lemma_encode_utf8_concat, owned, push_char};
use crate::cli::mode::is_tty;
use crate::error::{position_suffix, push_position_suffix};

verus! {

/// Terminal size information
#[derive(Debug, Clone, Copy)]
pub struct TerminalSize {
    pub width: u16,
    pub height: u16,
}

impl Default for TerminalSize {
    fn default() -> (r: Self)
        ensures
            r.width == 80,
            r.height == 24,
    {
        TerminalSize { width: 80, height: 24 }
    }
}

/// Asks the terminal for its size (crossterm `terminal::size`). Trusted; the
/// answer depends on the terminal, so nothing is stated of it.
#[verifier::external_body]
fn query_terminal_size() -> Option<(u16, u16)> {
    crossterm::terminal::size().ok()
}

/// The size to use for a terminal query's answer: the answer, or the default
/// 80x24 when the query failed.
pub fn size_or_default(answer: Option<(u16, u16)>) -> (r: TerminalSize)
    ensures
        match answer {
            Some((w, h)) => r.width == w && r.height == h,
            None => r.width == 80 && r.height == 24,
        },
{
    match answer {
        Some((width, height)) => TerminalSize { width, height },
        None => TerminalSize::default(),
    }
}

/// Detect terminal size: the terminal's answer, or defaults if detection fails.
pub fn detect_terminal_size() -> TerminalSize {
    size_or_default(query_terminal_size())
}

/// Get current terminal size
/// This is a convenience wrapper around detect_terminal_size
pub fn get_terminal_size() -> TerminalSize {
    detect_terminal_size()
}

/// What `textwrap::fill` makes of a text at a width: the text's words laid
/// out in lines of at most that width, joined by line feeds.
pub uninterp spec fn filled_text(text: Seq<char>, width: usize) -> Seq<char>;

/// Wrap text to fit within terminal width (`textwrap::fill`). Trusted: the
/// result is named `filled_text` of the text and the width; the wrapping
/// algorithm itself is not stated.
#[verifier::external_body]
pub fn wrap_text(text: &str, width: usize) -> (r: String)
    ensures
        r@ == filled_text(text@, width),
{
    textwrap::fill(text, width)
}

/// Check if terminal resize handling is supported: true when standard
/// output is a terminal.
pub fn is_resize_supported() -> bool {
    is_tty()
}

/// A file reference in VSCode-compatible form,
/// `file://<absolute path>[:line[:column]]`.
pub fn format_file_reference(absolute_display: &str, line: Option<u32>, column: Option<u32>) -> (r: String)
    ensures
        r@ == "file://"@ + absolute_display@ + position_suffix(line, column),
{
    let mut r = owned("file://");
    r.append(absolute_display);
    push_position_suffix(&mut r, line, column);
    r
}

/// A file reference in simple form, `path[:line[:column]]`, with the path
/// as it is shown (relative to the working directory where possible).
pub fn format_file_reference_simple(display_path: &str, line: Option<u32>, column: Option<u32>) -> (r: String)
    ensures
        r@ == display_path@ + position_suffix(line, column),
{
    let mut r = owned(display_path);
    push_position_suffix(&mut r, line, column);
    r
}

/// Handle terminal resize event: reads the new size.
/// This is a stub for future async signal handling.
pub fn handle_resize() {
    let _size = detect_terminal_size();
}

/// The bytes of `...`.
pub open spec fn ellipsis_bytes() -> Seq<u8> {
    seq![46u8, 46u8, 46u8]
}

/// Where a text longer than `max_width` bytes is cut: before the ellipsis,
/// or at the width itself when there is no room for one.
pub open spec fn cut_point(max_width: usize) -> int {
    if max_width <= 3 {
        max_width as int
    } else {
        max_width - 3
    }
}

/// The bytes of a text truncated to `max_width` bytes: unchanged when it
/// fits, else cut and (with room for it) ended with `...`.
pub open spec fn truncated_bytes(b: Seq<u8>, max_width: usize) -> Seq<u8> {
    if b.len() <= max_width {
        b
    } else if max_width <= 3 {
        b.take(max_width as int)
    } else {
        b.take(max_width - 3) + ellipsis_bytes()
    }
}

/// Whether truncating the text cuts it on a character boundary (slicing
/// would panic otherwise).
pub open spec fn truncation_ok(text: Seq<char>, max_width: usize) -> bool {
    encode_utf8(text).len() > max_width ==> is_char_boundary(encode_utf8(text), cut_point(max_width))
}

proof fn lemma_ellipsis()
    ensures
        encode_utf8("..."@) == ellipsis_bytes(),
{
    reveal_strlit("...");
    lemma_encode_ascii('.');
    assert("..."@ =~= seq!['.'] + seq!['.'] + seq!['.']);
    lemma_encode_utf8_concat(seq!['.'] + seq!['.'], seq!['.']);
    lemma_encode_utf8_concat(seq!['.'], seq!['.']);
    assert(encode_utf8("..."@) =~= ellipsis_bytes());
}

/// Truncate text with ellipsis if it exceeds max width (widths in bytes)
pub fn truncate_text(text: &str, max_width: usize) -> (r: String)
    requires
        truncation_ok(text@, max_width),
    ensures
        encode_utf8(r@) == truncated_bytes(encode_utf8(text@), max_width),
{
    if text.as_bytes().len() <= max_width {
        let r = owned(text);
        assert(encode_utf8(r@) == truncated_bytes(encode_utf8(text@), max_width));
        r
    } else if max_width <= 3 {
        let (head, _) = text.split_at(max_width);
        proof {
            assert(head.spec_bytes() == encode_utf8(head@));
            assert(encode_utf8(head@) =~= encode_utf8(text@).take(max_width as int));
        }
        let r = owned(head);
        assert(encode_utf8(r@) == truncated_bytes(encode_utf8(text@), max_width));
        r
    } else {
        let (head, _) = text.split_at(max_width - 3);
        let mut r = owned(head);
        r.append("...");
        proof {
            lemma_encode_utf8_concat(head@, "..."@);
            lemma_ellipsis();
            assert(head.spec_bytes() == encode_utf8(head@));
            assert(encode_utf8(head@) =~= encode_utf8(text@).take(max_width - 3));
            assert(encode_utf8(r@) =~= encode_utf8(text@).take(max_width - 3) + ellipsis_bytes());
            assert(encode_utf8(r@) == truncated_bytes(encode_utf8(text@), max_width));
        }
        r
    }
}

/// `n` space bytes.
pub open spec fn spaces(n: nat) -> Seq<u8> {
    Seq::new(n, |i: int| 32u8)
}

/// The bytes of one table cell: the column truncated to the width when
/// longer, else padded with spaces to it.
pub open spec fn cell_bytes(col: Seq<char>, width: usize) -> Seq<u8> {
    if encode_utf8(col).len() > width {
        truncated_bytes(encode_utf8(col), width)
    } else {
        encode_utf8(col) + spaces((width - encode_utf8(col).len()) as nat)
    }
}

/// The bytes of the first `n` cells of a row, separated by single spaces.
pub open spec fn row_bytes(cols: Seq<&str>, widths: Seq<usize>, n: int) -> Seq<u8>
    decreases n,
{
    if n <= 0 {
        Seq::empty()
    } else if n == 1 {
        cell_bytes(cols[0]@, widths[0])
    } else {
        row_bytes(cols, widths, n - 1) + seq![32u8] + cell_bytes(cols[n - 1]@, widths[n - 1])
    }
}

/// The number of cells in a row: one per column that has a width.
pub open spec fn row_len(cols: Seq<&str>, widths: Seq<usize>) -> int {
    if cols.len() <= widths.len() {
        cols.len() as int
    } else {
        widths.len() as int
    }
}

fn push_space(s: &mut String)
    ensures
        encode_utf8(final(s)@) == encode_utf8(old(s)@) + seq![32u8],
{
    let ghost before = s@;
    push_char(s, ' ');
    proof {
        lemma_encode_utf8_concat(before, seq![' ']);
        lemma_encode_ascii(' ');
        assert(before.push(' ') =~= before + seq![' ']);
    }
}

/// Format a table row with column widths (in bytes); columns without a width
/// are left out.
pub fn format_table_row(columns: &[&str], widths: &[usize]) -> (r: String)
    requires
        forall|i: int| 0 <= i < columns@.len() && i < widths@.len() ==> truncation_ok(#[trigger] columns@[i]@, widths@[i]),
    ensures
        encode_utf8(r@) == row_bytes(columns@, widths@, row_len(columns@, widths@)),
{
    let n = if columns.len() <= widths.len() {
        columns.len()
    } else {
        widths.len()
    };
    let mut result = String::new();
    let mut i: usize = 0;
    while i < n
        invariant
            n == row_len(columns@, widths@),
            n <= columns@.len(),
            n <= widths@.len(),
            i <= n,
            forall|j: int| 0 <= j < columns@.len() && j < widths@.len() ==> truncation_ok(#[trigger] columns@[j]@, widths@[j]),
            encode_utf8(result@) == row_bytes(columns@, widths@, i as int),
        decreases n - i,
    {
        let col = columns[i];
        let width = widths[i];
        let ghost before = encode_utf8(result@);
        if i > 0 {
            push_space(&mut result);
        }
        let ghost mid = encode_utf8(result@);
        if col.as_bytes().len() > width {
            let t = truncate_text(col, width);
            proof {
                lemma_encode_utf8_concat(result@, t@);
            }
            result.append(t.as_str());
        } else {
            proof {
                lemma_encode_utf8_concat(result@, col@);
            }
            result.append(col);
            let pad = width - col.as_bytes().len();
            let mut k: usize = 0;
            while k < pad
                invariant
                    k <= pad,
                    encode_utf8(result@) == mid + encode_utf8(col@) + spaces(k as nat),
                decreases pad - k,
            {
                push_space(&mut result);
                k = k + 1;
                assert(mid + encode_utf8(col@) + spaces((k - 1) as nat) + seq![32u8] =~= mid + encode_utf8(col@) + spaces(k as nat));
            }
        }
        proof {
            if i == 0 {
                assert(before =~= Seq::<u8>::empty());
                assert(encode_utf8(result@) =~= row_bytes(columns@, widths@, 1));
            } else {
                assert(encode_utf8(result@) =~= row_bytes(columns@, widths@, i + 1));
            }
        }
        i = i + 1;
    }
    result
}

/// A truncated text never exceeds the width, and a text that fits is left
/// as it is.
pub proof fn law_truncated_fits_width(b: Seq<u8>, max_width: usize)
    ensures
        truncated_bytes(b, max_width).len() <= max_width,
        b.len() <= max_width ==> truncated_bytes(b, max_width) == b,
        b.len() > max_width ==> truncated_bytes(b, max_width).len() == max_width,
{
}

/// Every cell of a table row takes exactly its column's width.
pub proof fn lemma_cell_width(col: Seq<char>, width: usize)
    ensures
        cell_bytes(col, width).len() == width,
{
}

/// The sum of the first `n` widths.
pub open spec fn widths_sum(widths: Seq<usize>, n: int) -> int
    decreases n,
{
    if n <= 0 {
        0
    } else {
        widths_sum(widths, n - 1) + widths[n - 1]
    }
}

/// A table row of `n` cells is as wide as its columns together, plus one
/// separating space between neighbouring cells: columns line up from row to
/// row.
pub proof fn law_row_width(cols: Seq<&str>, widths: Seq<usize>, n: int)
    requires
        1 <= n <= cols.len(),
        n <= widths.len(),
    ensures
        row_bytes(cols, widths, n).len() == widths_sum(widths, n) + n - 1,
    decreases n,
{
    lemma_cell_width(cols[n - 1]@, widths[n - 1]);
    assert(widths_sum(widths, n) == widths_sum(widths, n - 1) + widths[n - 1]);
    if n > 1 {
        law_row_width(cols, widths, n - 1);
        assert(row_bytes(cols, widths, n) == row_bytes(cols, widths, n - 1) + seq![32u8] + cell_bytes(cols[n - 1]@, widths[n - 1]));
    } else {
        assert(widths_sum(widths, 0) == 0);
        assert(row_bytes(cols, widths, 1) == cell_bytes(cols[0]@, widths[0]));
    }
}

} // verus!
