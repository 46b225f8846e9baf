//! When and through what long output is paged.
use vstd::prelude::*;
use crate::text::{char_is_whitespace, chars_of, is_whitespace, owned, parse_unsigned, parse_unsigned_spec, trim_start};

verus! {

/// The pager to use: `$PAGER` when set and not empty, else `less`, else
/// `more`, when available.
pub fn choose_pager(env_pager: Option<String>, less_available: bool, more_available: bool) -> (r: Option<String>)
    ensures
        match env_pager {
            Some(p) if p@.len() > 0 => r == Some(p),
            _ => if less_available {
                r matches Some(s) && s@ == "less"@
            } else if more_available {
                r matches Some(s) && s@ == "more"@
            } else {
                r is None
            },
        },
{
    match env_pager {
        Some(p) => {
            if p.as_str().unicode_len() > 0 {
                return Some(p);
            }
        },
        None => {},
    }
    if less_available {
        Some(owned("less"))
    } else if more_available {
        Some(owned("more"))
    } else {
        None
    }
}

/// The number of line feeds in a text.
pub open spec fn newlines(s: Seq<char>) -> nat
    decreases s.len(),
{
    if s.len() == 0 {
        0
    } else {
        newlines(s.drop_last()) + if s.last() == '\n' {
            1nat
        } else {
            0nat
        }
    }
}

/// The number of lines `str::lines` yields: one per line feed, and one more
/// for a last line without one.
pub open spec fn line_count_spec(s: Seq<char>) -> nat {
    newlines(s) + if s.len() > 0 && s.last() != '\n' {
        1nat
    } else {
        0nat
    }
}

proof fn lemma_newlines_bound(s: Seq<char>)
    ensures
        newlines(s) <= s.len(),
    decreases s.len(),
{
    if s.len() > 0 {
        lemma_newlines_bound(s.drop_last());
    }
}

/// The number of lines in a text, as `str::lines` counts them.
pub fn line_count(content: &str) -> (r: usize)
    ensures
        r == line_count_spec(content@),
{
    let chars = chars_of(content);
    let mut count: usize = 0;
    let mut i: usize = 0;
    while i < chars.len()
        invariant
            chars@ == content@,
            i <= chars@.len(),
            count <= i,
            count == newlines(chars@.take(i as int)),
        decreases chars@.len() - i,
    {
        assert(chars@.take(i + 1).drop_last() =~= chars@.take(i as int));
        if chars[i] == '\n' {
            count = count + 1;
        }
        i = i + 1;
    }
    assert(chars@.take(chars@.len() as int) =~= chars@);
    if chars.len() > 0 && chars[chars.len() - 1] != '\n' {
        proof {
            lemma_newlines_bound(chars@.drop_last());
        }
        count + 1
    } else {
        count
    }
}

/// Whether output is paged: not when `--no-pager` or quiet, not when
/// stdout is no terminal, not without a pager, and then only when the text
/// has more lines than the terminal.
pub open spec fn should_page_spec(content: Seq<char>, no_pager: bool, quiet: bool, stdout_tty: bool, pager_available: bool, terminal_lines: nat) -> bool {
    !no_pager && !quiet && stdout_tty && pager_available && line_count_spec(content) > terminal_lines
}

/// Determine if output should be paged based on terminal size and content length.
pub fn should_page_output(content: &str, no_pager: bool, quiet: bool, stdout_tty: bool, pager_available: bool, terminal_lines: usize) -> (r: bool)
    ensures
        r == should_page_spec(content@, no_pager, quiet, stdout_tty, pager_available, terminal_lines as nat),
{
    if no_pager {
        return false;
    }
    if quiet {
        return false;
    }
    if !stdout_tty {
        return false;
    }
    if !pager_available {
        return false;
    }
    line_count(content) > terminal_lines
}

/// The characters up to the first whitespace.
pub open spec fn leading_word(t: Seq<char>) -> Seq<char>
    decreases t.len(),
{
    if t.len() == 0 || is_whitespace(t[0]) {
        Seq::empty()
    } else {
        seq![t[0]] + leading_word(t.drop_first())
    }
}

/// The terminal height that `stty size` reported: its first word read as a
/// number, else 24.
pub open spec fn terminal_height_spec(stty_output: Option<Seq<char>>) -> nat {
    match stty_output {
        Some(out) => {
            let t = trim_start(out);
            if t.len() == 0 {
                24
            } else {
                match parse_unsigned_spec(leading_word(t), usize::MAX as nat) {
                    Some(h) => h,
                    None => 24,
                }
            }
        },
        None => 24,
    }
}

/// The first whitespace-separated word of a text, if any.
fn first_word(s: &str) -> (r: Option<String>)
    ensures
        trim_start(s@).len() == 0 ==> r is None,
        trim_start(s@).len() > 0 ==> (r matches Some(w) && w@ == leading_word(trim_start(s@))),
{
    let chars = chars_of(s);
    let mut i: usize = 0;
    assert(s@.skip(0) =~= s@);
    while i < chars.len() && char_is_whitespace(chars[i])
        invariant
            chars@ == s@,
            i <= chars@.len(),
            trim_start(s@) == trim_start(s@.skip(i as int)),
        decreases chars@.len() - i,
    {
        assert(s@.skip(i as int).drop_first() =~= s@.skip(i + 1));
        i = i + 1;
    }
    assert(trim_start(s@.skip(i as int)) == s@.skip(i as int));
    if i == chars.len() {
        return None;
    }
    let start = i;
    let mut word = String::new();
    while i < chars.len() && !char_is_whitespace(chars[i])
        invariant
            chars@ == s@,
            start <= i <= chars@.len(),
            start < chars@.len(),
            word@ + leading_word(s@.skip(i as int)) == leading_word(s@.skip(start as int)),
        decreases chars@.len() - i,
    {
        assert(s@.skip(i as int).drop_first() =~= s@.skip(i + 1));
        assert(word@.push(chars@[i as int]) + leading_word(s@.skip(i + 1)) =~= word@ + leading_word(s@.skip(i as int)));
        crate::text::push_char(&mut word, chars[i]);
        i = i + 1;
    }
    assert(word@ + leading_word(s@.skip(i as int)) =~= word@);
    Some(word)
}

/// Get the terminal height in lines from the output of `stty size` (`None`
/// when it could not be run or read).
pub fn terminal_height_from(stty_output: Option<&str>) -> (r: usize)
    ensures
        r as nat == terminal_height_spec(
            match stty_output {
                Some(s) => Some(s@),
                None => None,
            },
        ),
{
    match stty_output {
        Some(out) => match first_word(out) {
            Some(word) => match parse_unsigned(word.as_str(), usize::MAX as u64) {
                Some(h) => h as usize,
                None => 24,
            },
            None => 24,
        },
        None => 24,
    }
}

} // verus!
