//! No-args content-first behavior
//!
//! What the program shows when run without arguments: the most relevant
//! live state instead of the usage manual.
use vstd::prelude::*;
use vstd::string::*;
use crate::text::{decimal, owned, push_char, push_decimal, texts};

verus! {

/// No-args context for content display
#[derive(Debug, Clone)]
pub struct NoArgsContext {
    /// Current working directory
    pub cwd: String,
    /// Is in config directory
    pub is_config_dir: bool,
    /// Is daemon running
    pub is_daemon_running: bool,
    /// Config directory path
    pub config_dir: Option<String>,
}

/// No-args content summary
#[derive(Debug, Clone)]
pub struct NoArgsSummary {
    /// Context type
    pub context: String,
    /// Summary message
    pub summary: String,
    /// Help suggestions
    pub suggestions: Vec<String>,
    /// Daemon status (if applicable)
    pub daemon_status: Option<String>,
    /// Parties count (if in config dir)
    pub parties_count: Option<usize>,
}

/// The number of non-overlapping occurrences of `pat` in `s`, taken from
/// the left (what `str::matches(..).count()` gives for a non-empty pattern).
pub open spec fn occurrences(s: Seq<char>, pat: Seq<char>) -> nat
    decreases s.len(),
{
    if pat.len() == 0 || s.len() < pat.len() {
        0
    } else if s.take(pat.len() as int) == pat {
        1 + occurrences(s.skip(pat.len() as int), pat)
    } else {
        occurrences(s.skip(1), pat)
    }
}

/// Whether `pat` stands in `s` at position `i`.
fn matches_at(s: &Vec<char>, i: usize, pat: &Vec<char>) -> (r: bool)
    requires
        i + pat@.len() <= s@.len(),
    ensures
        r == (s@.subrange(i as int, i + pat@.len()) == pat@),
{
    let n = s.len();
    let mut k: usize = 0;
    while k < pat.len()
        invariant
            n == s@.len(),
            i + pat@.len() <= s@.len(),
            k <= pat@.len(),
            forall|j: int| 0 <= j < k ==> s@[i + j] == pat@[j],
        decreases pat@.len() - k,
    {
        if s[i + k] != pat[k] {
            assert(s@.subrange(i as int, i + pat@.len())[k as int] != pat@[k as int]);
            return false;
        }
        k = k + 1;
    }
    assert(s@.subrange(i as int, i + pat@.len()) =~= pat@);
    true
}

/// Count of non-overlapping occurrences of a pattern in a text.
pub fn count_occurrences(text: &str, pat: &str) -> (r: usize)
    ensures
        r == occurrences(text@, pat@),
{
    let s = crate::text::chars_of(text);
    let p = crate::text::chars_of(pat);
    if p.len() == 0 {
        return 0;
    }
    let mut i: usize = 0;
    let mut count: usize = 0;
    assert(s@.skip(0) =~= s@);
    while p.len() <= s.len() - i
        invariant
            s@ == text@,
            p@ == pat@,
            p@.len() > 0,
            i <= s@.len(),
            count <= i,
            count + occurrences(s@.skip(i as int), p@) == occurrences(s@, p@),
        decreases s@.len() - i,
    {
        let ghost rest = s@.skip(i as int);
        assert(rest.take(p@.len() as int) =~= s@.subrange(i as int, i + p@.len()));
        if matches_at(&s, i, &p) {
            assert(rest.skip(p@.len() as int) =~= s@.skip(i + p@.len()));
            count = count + 1;
            i = i + p.len();
        } else {
            assert(rest.skip(1) =~= s@.skip(i + 1));
            i = i + 1;
        }
    }
    assert(occurrences(s@.skip(i as int), p@) == 0);
    count
}

/// The number of `[[parties]]` tables in a presence file's text.
pub fn count_parties_in_content(content: &str) -> (r: usize)
    ensures
        r == occurrences(content@, "[[parties]]"@),
{
    count_occurrences(content, "[[parties]]")
}

/// The texts of the summary's suggestions for each context.
pub open spec fn suggestions_for(context: NoArgsContext) -> Seq<Seq<char>> {
    let base = seq!["proximityd --help"@, "proximityd status"@];
    if context.is_config_dir {
        base + seq!["proximityd parties"@, "proximityd devices"@]
    } else if context.is_daemon_running {
        base.push("proximityd --daemon --status"@)
    } else {
        base + seq!["proximityd install"@, "proximityd --daemon"@]
    }
}

/// Generate no-args summary based on context. In a config directory the
/// parties are counted in the presence file's text (`presence_content`,
/// `None` when there is none or it cannot be read).
pub fn generate_noargs_summary(context: &NoArgsContext, presence_content: Option<&str>) -> (r: NoArgsSummary)
    ensures
        texts(r.suggestions@) == suggestions_for(*context),
        context.is_config_dir ==> {
            let n: nat = match presence_content {
                Some(c) => occurrences(c@, "[[parties]]"@),
                None => 0,
            };
            &&& r.context@ == "config_directory"@
            &&& r.summary@ == "In config directory with "@ + decimal(n) + " parties"@
            &&& r.daemon_status is None
            &&& r.parties_count == Some(n as usize)
        },
        !context.is_config_dir && context.is_daemon_running ==> {
            &&& r.context@ == "daemon_running"@
            &&& r.summary@ == "Daemon is running and monitoring devices"@
            &&& r.daemon_status matches Some(s) && s@ == "active"@
            &&& r.parties_count is None
        },
        !context.is_config_dir && !context.is_daemon_running ==> {
            &&& r.context@ == "default"@
            &&& r.summary@ == "Proximityd presence detection service"@
            &&& r.daemon_status matches Some(s) && s@ == "stopped"@
            &&& r.parties_count is None
        },
{
    let mut suggestions: Vec<String> = Vec::new();
    suggestions.push(owned("proximityd --help"));
    suggestions.push(owned("proximityd status"));
    if context.is_config_dir {
        suggestions.push(owned("proximityd parties"));
        suggestions.push(owned("proximityd devices"));
        let parties_count = match presence_content {
            Some(c) => count_parties_in_content(c),
            None => 0,
        };
        let mut summary = owned("In config directory with ");
        push_decimal(&mut summary, parties_count as u64);
        summary.append(" parties");
        assert(texts(suggestions@) =~= suggestions_for(*context));
        NoArgsSummary {
            context: owned("config_directory"),
            summary,
            suggestions,
            daemon_status: None,
            parties_count: Some(parties_count),
        }
    } else if context.is_daemon_running {
        suggestions.push(owned("proximityd --daemon --status"));
        assert(texts(suggestions@) =~= suggestions_for(*context));
        NoArgsSummary {
            context: owned("daemon_running"),
            summary: owned("Daemon is running and monitoring devices"),
            suggestions,
            daemon_status: Some(owned("active")),
            parties_count: None,
        }
    } else {
        suggestions.push(owned("proximityd install"));
        suggestions.push(owned("proximityd --daemon"));
        assert(texts(suggestions@) =~= suggestions_for(*context));
        NoArgsSummary {
            context: owned("default"),
            summary: owned("Proximityd presence detection service"),
            suggestions,
            daemon_status: Some(owned("stopped")),
            parties_count: None,
        }
    }
}

/// The human listing of suggestions: one indented line each.
pub open spec fn human_suggestion_lines(s: Seq<Seq<char>>) -> Seq<char>
    decreases s.len(),
{
    if s.len() == 0 {
        Seq::empty()
    } else {
        human_suggestion_lines(s.drop_last()) + "  "@ + s.last() + "\n"@
    }
}

/// The TOON listing of suggestions: each after a space.
pub open spec fn toon_suggestion_items(s: Seq<Seq<char>>) -> Seq<char>
    decreases s.len(),
{
    if s.len() == 0 {
        Seq::empty()
    } else {
        toon_suggestion_items(s.drop_last()) + " "@ + s.last()
    }
}

/// The human rendering of a summary.
pub open spec fn human_text(s: NoArgsSummary) -> Seq<char> {
    let status: Seq<char> = match s.daemon_status {
        Some(d) => "Daemon Status: "@ + d@ + "\n"@ + "\n"@,
        None => Seq::empty(),
    };
    let parties: Seq<char> = match s.parties_count {
        Some(c) => "Configured Parties: "@ + decimal(c as nat) + "\n"@ + "\n"@,
        None => Seq::empty(),
    };
    s.summary@ + "\n"@ + "\n"@ + status + parties + "Common Commands:\n"@ + human_suggestion_lines(texts(s.suggestions@)) + "\n"@
        + "Use --help for detailed usage information\n"@
}

/// The TOON rendering of a summary.
pub open spec fn toon_text(s: NoArgsSummary) -> Seq<char> {
    let status: Seq<char> = match s.daemon_status {
        Some(d) => "daemon_status:"@ + d@ + "\n"@,
        None => Seq::empty(),
    };
    let parties: Seq<char> = match s.parties_count {
        Some(c) => "parties_count:"@ + decimal(c as nat) + "\n"@,
        None => Seq::empty(),
    };
    "context:"@ + s.context@ + "\n"@ + "summary:"@ + s.summary@ + "\n"@ + status + parties + "suggestions:"@
        + toon_suggestion_items(texts(s.suggestions@)) + "\n"@
}

/// Format no-args summary for human mode
pub fn format_noargs_human(summary: &NoArgsSummary) -> (r: String)
    ensures
        r@ == human_text(*summary),
{
    proof {
        reveal_strlit("\n");
    }
    let mut output = String::new();
    output.append(summary.summary.as_str());
    push_char(&mut output, '\n');
    push_char(&mut output, '\n');
    let ghost head = output@;
    match &summary.daemon_status {
        Some(status) => {
            output.append("Daemon Status: ");
            output.append(status.as_str());
            push_char(&mut output, '\n');
            push_char(&mut output, '\n');
        },
        None => {},
    }
    let ghost with_status = output@;
    match summary.parties_count {
        Some(count) => {
            output.append("Configured Parties: ");
            push_decimal(&mut output, count as u64);
            push_char(&mut output, '\n');
            push_char(&mut output, '\n');
        },
        None => {},
    }
    output.append("Common Commands:\n");
    let ghost before = output@;
    let mut i: usize = 0;
    while i < summary.suggestions.len()
        invariant
            i <= summary.suggestions@.len(),
            output@ == before + human_suggestion_lines(texts(summary.suggestions@.take(i as int))),
        decreases summary.suggestions@.len() - i,
    {
        output.append("  ");
        output.append(summary.suggestions[i].as_str());
        push_char(&mut output, '\n');
        proof {
            reveal_strlit("\n");
            let t = summary.suggestions@.take(i + 1);
            assert(texts(t).drop_last() =~= texts(summary.suggestions@.take(i as int)));
            assert(texts(t).last() == summary.suggestions@[i as int]@);
            assert(output@ =~= before + human_suggestion_lines(texts(t)));
        }
        i = i + 1;
    }
    push_char(&mut output, '\n');
    output.append("Use --help for detailed usage information\n");
    proof {
        assert(summary.suggestions@.take(summary.suggestions@.len() as int) =~= summary.suggestions@);
        assert(output@ =~= human_text(*summary));
    }
    output
}

/// Format no-args summary for agent mode (TOON format)
pub fn format_noargs_toon(summary: &NoArgsSummary) -> (r: String)
    ensures
        r@ == toon_text(*summary),
{
    proof {
        reveal_strlit("\n");
        reveal_strlit(" ");
    }
    let mut output = String::new();
    output.append("context:");
    output.append(summary.context.as_str());
    push_char(&mut output, '\n');
    output.append("summary:");
    output.append(summary.summary.as_str());
    push_char(&mut output, '\n');
    match &summary.daemon_status {
        Some(status) => {
            output.append("daemon_status:");
            output.append(status.as_str());
            push_char(&mut output, '\n');
        },
        None => {},
    }
    match summary.parties_count {
        Some(count) => {
            output.append("parties_count:");
            push_decimal(&mut output, count as u64);
            push_char(&mut output, '\n');
        },
        None => {},
    }
    output.append("suggestions:");
    let ghost before = output@;
    let mut i: usize = 0;
    while i < summary.suggestions.len()
        invariant
            i <= summary.suggestions@.len(),
            output@ == before + toon_suggestion_items(texts(summary.suggestions@.take(i as int))),
        decreases summary.suggestions@.len() - i,
    {
        push_char(&mut output, ' ');
        output.append(summary.suggestions[i].as_str());
        proof {
            reveal_strlit(" ");
            let t = summary.suggestions@.take(i + 1);
            assert(texts(t).drop_last() =~= texts(summary.suggestions@.take(i as int)));
            assert(texts(t).last() == summary.suggestions@[i as int]@);
            assert(output@ =~= before + toon_suggestion_items(texts(t)));
        }
        i = i + 1;
    }
    push_char(&mut output, '\n');
    proof {
        assert(summary.suggestions@.take(summary.suggestions@.len() as int) =~= summary.suggestions@);
        assert(output@ =~= toon_text(*summary));
    }
    output
}

} // verus!
