//! Results of notifier test sends, as the test screen shows them.
use vstd::prelude::*;
use vstd::string::*;
use crate::config::app::NotifierConfig;
use crate::text::{decimal, owned, push_decimal, texts};
use std::fmt::Write;

verus! {

/// How the test screen writes a time: `YYYY-MM-DD HH:MM:SS`.
pub const TIMESTAMP_FORMAT: &'static str = "%Y-%m-%d %H:%M:%S";

/// The current local time written in a `strftime` format (chrono
/// `Local::now`, then `format`); `None` when chrono rejects the format.
/// Trusted; the time depends on the clock and the time zone, so nothing is
/// stated of it.
#[verifier::external_body]
fn local_time_text(format: &str) -> Option<String> {
    let mut s = String::new();
    match write!(s, "{}", chrono::Local::now().format(format)) {
        Ok(()) => Some(s),
        Err(_) => None,
    }
}

/// Result of a test notification
#[derive(Debug, Clone)]
pub enum TestResult {
    Success { message: String, timestamp: String },
    Error { message: String, details: String, timestamp: String },
    Loading,
}

impl TestResult {
    /// Check if the test is currently loading
    pub fn is_loading(&self) -> (r: bool)
        ensures
            r == (*self is Loading),
    {
        match self {
            TestResult::Loading => true,
            _ => false,
        }
    }

    /// Check if the test succeeded
    pub fn is_success(&self) -> (r: bool)
        ensures
            r == (*self is Success),
    {
        match self {
            TestResult::Success { .. } => true,
            _ => false,
        }
    }

    /// Get the display message
    pub fn display_message(&self) -> (r: String)
        ensures
            r@ == match *self {
                TestResult::Success { message, .. } => "✓ "@ + message@,
                TestResult::Error { message, .. } => "✗ "@ + message@,
                TestResult::Loading => "⏳ Sending..."@,
            },
    {
        match self {
            TestResult::Success { message, .. } => {
                let mut s = "✓ ".to_owned();
                s.append(message.as_str());
                s
            },
            TestResult::Error { message, .. } => {
                let mut s = "✗ ".to_owned();
                s.append(message.as_str());
                s
            },
            TestResult::Loading => "⏳ Sending...".to_owned(),
        }
    }

    /// The time of the result: the recorded time of a success or a failure,
    /// the current local time (`TIMESTAMP_FORMAT`) while loading, empty if
    /// chrono were to reject that format.
    pub fn timestamp(&self) -> (r: String)
        ensures
            match *self {
                TestResult::Success { timestamp, .. } => r == timestamp,
                TestResult::Error { timestamp, .. } => r == timestamp,
                TestResult::Loading => true,
            },
    {
        match self {
            TestResult::Success { timestamp, .. } => timestamp.clone(),
            TestResult::Error { timestamp, .. } => timestamp.clone(),
            TestResult::Loading => match local_time_text(TIMESTAMP_FORMAT) {
                Some(t) => t,
                None => String::new(),
            },
        }
    }

    /// Get detailed error information if available
    pub fn error_details(&self) -> (r: Option<String>)
        ensures
            r == match *self {
                TestResult::Error { details, .. } => Some(details),
                _ => None,
            },
    {
        match self {
            TestResult::Error { details, .. } => Some(details.clone()),
            _ => None,
        }
    }
}


/// What a notifier configuration builds: the kind of notifier and the
/// settings it is built from.
#[derive(Debug, Clone)]
pub enum NotifierPlan {
    Discord { webhook_url: String },
    Slack { webhook_url: String },
    Webhook { url: String, method: String, payload_template: String },
    Mqtt { broker: String, port: u16, topic: String },
}

/// A notifier plan as texts and numbers.
pub enum PlanView {
    Discord(Seq<char>),
    Slack(Seq<char>),
    Webhook(Seq<char>, Seq<char>, Seq<char>),
    Mqtt(Seq<char>, u16, Seq<char>),
}

impl NotifierPlan {
    pub open spec fn shown(&self) -> PlanView {
        match *self {
            NotifierPlan::Discord { webhook_url } => PlanView::Discord(webhook_url@),
            NotifierPlan::Slack { webhook_url } => PlanView::Slack(webhook_url@),
            NotifierPlan::Webhook { url, method, payload_template } => PlanView::Webhook(
                url@,
                method@,
                payload_template@,
            ),
            NotifierPlan::Mqtt { broker, port, topic } => PlanView::Mqtt(broker@, port, topic@),
        }
    }
}

/// The first of two texts that is not empty.
pub open spec fn first_set(a: Seq<char>, b: Seq<char>) -> Option<Seq<char>> {
    if a.len() > 0 {
        Some(a)
    } else if b.len() > 0 {
        Some(b)
    } else {
        None
    }
}

/// What a notifier configuration builds, or why it cannot: Discord and Slack
/// take the webhook URL (else the URL), a webhook the URL (else the webhook
/// URL) with its method (`POST` when unset) and payload template, MQTT a
/// broker and a topic, when the build supports MQTT; any other type is
/// unknown.
pub open spec fn plan_of(c: NotifierConfig, mqtt_enabled: bool) -> Result<PlanView, Seq<char>> {
    if c.kind@ == "discord"@ {
        match first_set(c.webhook_url@, c.url@) {
            Some(u) => Ok(PlanView::Discord(u)),
            None => Err("Discord notifier requires URL"@),
        }
    } else if c.kind@ == "slack"@ {
        match first_set(c.webhook_url@, c.url@) {
            Some(u) => Ok(PlanView::Slack(u)),
            None => Err("Slack notifier requires URL"@),
        }
    } else if c.kind@ == "webhook"@ {
        match first_set(c.url@, c.webhook_url@) {
            Some(u) => Ok(
                PlanView::Webhook(
                    u,
                    if c.method@.len() > 0 { c.method@ } else { "POST"@ },
                    c.payload_template@,
                ),
            ),
            None => Err("Webhook notifier requires URL"@),
        }
    } else if c.kind@ == "mqtt"@ {
        if !mqtt_enabled {
            Err("MQTT support is not enabled in this build"@)
        } else if c.broker@.len() == 0 {
            Err("MQTT notifier requires broker"@)
        } else if c.topic@.len() == 0 {
            Err("MQTT notifier requires topic"@)
        } else {
            Ok(PlanView::Mqtt(c.broker@, c.port, c.topic@))
        }
    } else {
        Err("Unknown notifier type: "@ + c.kind@)
    }
}

fn pick_set(a: &String, b: &String) -> (r: Option<String>)
    ensures
        match first_set(a@, b@) {
            Some(t) => r matches Some(x) && x@ == t,
            None => r is None,
        },
{
    if !a.as_str().is_empty() {
        Some(a.clone())
    } else if !b.as_str().is_empty() {
        Some(b.clone())
    } else {
        None
    }
}

/// Decides which notifier a configuration builds (`mqtt_enabled`: whether
/// this build supports MQTT).
pub fn notifier_plan(c: &NotifierConfig, mqtt_enabled: bool) -> (r: Result<NotifierPlan, String>)
    ensures
        match plan_of(*c, mqtt_enabled) {
            Ok(p) => r matches Ok(q) && q.shown() == p,
            Err(m) => r matches Err(e) && e@ == m,
        },
{
    let kind = c.kind.as_str();
    if crate::text::str_eq(kind, "discord") {
        match pick_set(&c.webhook_url, &c.url) {
            Some(u) => Ok(NotifierPlan::Discord { webhook_url: u }),
            None => Err(owned("Discord notifier requires URL")),
        }
    } else if crate::text::str_eq(kind, "slack") {
        match pick_set(&c.webhook_url, &c.url) {
            Some(u) => Ok(NotifierPlan::Slack { webhook_url: u }),
            None => Err(owned("Slack notifier requires URL")),
        }
    } else if crate::text::str_eq(kind, "webhook") {
        match pick_set(&c.url, &c.webhook_url) {
            Some(u) => {
                let method = if !c.method.as_str().is_empty() {
                    c.method.clone()
                } else {
                    owned("POST")
                };
                Ok(NotifierPlan::Webhook { url: u, method, payload_template: c.payload_template.clone() })
            },
            None => Err(owned("Webhook notifier requires URL")),
        }
    } else if crate::text::str_eq(kind, "mqtt") {
        if !mqtt_enabled {
            Err(owned("MQTT support is not enabled in this build"))
        } else if c.broker.as_str().is_empty() {
            Err(owned("MQTT notifier requires broker"))
        } else if c.topic.as_str().is_empty() {
            Err(owned("MQTT notifier requires topic"))
        } else {
            Ok(NotifierPlan::Mqtt { broker: c.broker.clone(), port: c.port, topic: c.topic.clone() })
        }
    } else {
        let mut m = owned("Unknown notifier type: ");
        m.append(kind);
        Err(m)
    }
}

/// The notifier test screen: the configured notifiers, the result of the
/// last test of each, and the selected one.
pub struct NotifierTestManager {
    pub notifiers: Vec<NotifierConfig>,
    pub test_results: Vec<TestResult>,
    pub selected: usize,
}

/// The names the test screen lists: each notifier's type with its position.
pub open spec fn notifier_labels(notifiers: Seq<NotifierConfig>) -> Seq<Seq<char>> {
    Seq::new(notifiers.len(), |i: int| notifiers[i].kind@ + " ("@ + decimal(i as nat) + ")"@)
}

/// The results after a test of the notifier at `index` starts: `Loading`
/// there and at the new positions before it, the others kept.
pub open spec fn started(results: Seq<TestResult>, index: int) -> Seq<TestResult> {
    Seq::new(
        if index < results.len() { results.len() } else { (index + 1) as nat },
        |j: int| if j == index || j >= results.len() { TestResult::Loading } else { results[j] },
    )
}

/// Whether a result records the outcome of a test of a notifier of type
/// `kind` sent at `timestamp`.
pub open spec fn recorded(r: TestResult, kind: Seq<char>, outcome: Result<(), String>, timestamp: String) -> bool {
    match outcome {
        Ok(()) => r matches TestResult::Success { message, timestamp: t } && message@ == "Test notification sent to "@
            + kind && t == timestamp,
        Err(e) => r matches TestResult::Error { message, details, timestamp: t } && message@ == "Failed to send to "@
            + kind && details == e && t == timestamp,
    }
}


impl NotifierTestManager {
    /// A test screen for the notifiers, with no results and the first one
    /// selected.
    pub fn new(notifiers: Vec<NotifierConfig>) -> (r: Self)
        ensures
            r.notifiers@ == notifiers@,
            r.test_results@.len() == 0,
            r.selected == 0,
    {
        NotifierTestManager { notifiers, test_results: Vec::new(), selected: 0 }
    }

    /// The list of configured notifiers: `type (position)`.
    pub fn notifier_names(&self) -> (r: Vec<String>)
        ensures
            texts(r@) == notifier_labels(self.notifiers@),
    {
        let mut out: Vec<String> = Vec::new();
        let mut i: usize = 0;
        while i < self.notifiers.len()
            invariant
                i <= self.notifiers@.len(),
                texts(out@) == notifier_labels(self.notifiers@).take(i as int),
            decreases self.notifiers@.len() - i,
        {
            let mut name = self.notifiers[i].kind.clone();
            name.append(" (");
            push_decimal(&mut name, i as u64);
            name.append(")");
            let ghost before = texts(out@);
            assert(name@ =~= self.notifiers@[i as int].kind@ + " ("@ + decimal(i as nat) + ")"@);
            assert(name@ == notifier_labels(self.notifiers@)[i as int]);
            let ghost nv = name@;
            out.push(name);
            assert(texts(out@) =~= before.push(nv));
            assert(texts(out@) =~= notifier_labels(self.notifiers@).take(i + 1));
            i = i + 1;
        }
        assert(notifier_labels(self.notifiers@).take(self.notifiers@.len() as int) =~= notifier_labels(
            self.notifiers@,
        ));
        out
    }

    /// The number of configured notifiers.
    pub fn notifier_count(&self) -> (r: usize)
        ensures
            r == self.notifiers@.len(),
    {
        self.notifiers.len()
    }

    /// The selected notifier's position.
    pub fn selected(&self) -> (r: usize)
        ensures
            r == self.selected,
    {
        self.selected
    }

    /// Selects a notifier; a position past the list is ignored.
    pub fn set_selected(&mut self, index: usize)
        ensures
            final(self).selected == if index < old(self).notifiers@.len() {
                index
            } else {
                old(self).selected
            },
            final(self).notifiers@ == old(self).notifiers@,
            final(self).test_results@ == old(self).test_results@,
    {
        if index < self.notifier_count() {
            self.selected = index;
        }
    }

    /// The result of the last test of a notifier, if it was tested.
    pub fn test_result(&self, index: usize) -> (r: Option<&TestResult>)
        ensures
            index < self.test_results@.len() ==> r == Some(&self.test_results@[index as int]),
            index >= self.test_results@.len() ==> r is None,
    {
        if index < self.test_results.len() {
            Some(&self.test_results[index])
        } else {
            None
        }
    }

    /// Starts a test of a notifier: its result becomes `Loading` (notifiers
    /// before it without a result get `Loading` too). A position past the
    /// list is refused and changes nothing.
    pub fn start_test(&mut self, index: usize) -> (r: Result<(), String>)
        ensures
            index >= old(self).notifiers@.len() ==> (r matches Err(m) && m@ == "Invalid notifier index"@),
            index >= old(self).notifiers@.len() ==> final(self).test_results@ == old(self).test_results@,
            index < old(self).notifiers@.len() ==> r is Ok,
            index < old(self).notifiers@.len() ==> final(self).test_results@ == started(
                old(self).test_results@,
                index as int,
            ),
            final(self).notifiers@ == old(self).notifiers@,
            final(self).selected == old(self).selected,
    {
        if index >= self.notifiers.len() {
            return Err(owned("Invalid notifier index"));
        }
        let ghost start = self.test_results@;
        while self.test_results.len() <= index
            invariant
                index < self.notifiers@.len(),
                self.notifiers@ == old(self).notifiers@,
                self.selected == old(self).selected,
                start == old(self).test_results@,
                start.len() <= self.test_results@.len(),
                self.test_results@.len() > start.len() ==> self.test_results@.len() <= index + 1,
                forall|j: int|
                    0 <= j < self.test_results@.len() ==> #[trigger] self.test_results@[j] == if j < start.len() {
                        start[j]
                    } else {
                        TestResult::Loading
                    },
            decreases index + 1 - self.test_results@.len(),
        {
            self.test_results.push(TestResult::Loading);
        }
        self.test_results.set(index, TestResult::Loading);
        assert(self.test_results@ =~= started(start, index as int));
        Ok(())
    }

    /// Records the outcome of a test sent at `timestamp`: a success, or the
    /// failure with its details.
    pub fn finish_test(&mut self, index: usize, outcome: Result<(), String>, timestamp: String)
        requires
            index < old(self).notifiers@.len(),
            index < old(self).test_results@.len(),
        ensures
            final(self).test_results@.len() == old(self).test_results@.len(),
            forall|j: int|
                0 <= j < old(self).test_results@.len() && j != index ==> #[trigger] final(self).test_results@[j]
                    == old(self).test_results@[j],
            recorded(
                final(self).test_results@[index as int],
                old(self).notifiers@[index as int].kind@,
                outcome,
                timestamp,
            ),
            final(self).notifiers@ == old(self).notifiers@,
            final(self).selected == old(self).selected,
    {
        let kind = self.notifiers[index].kind.as_str();
        let result = match outcome {
            Ok(()) => {
                let mut message = owned("Test notification sent to ");
                message.append(kind);
                TestResult::Success { message, timestamp }
            },
            Err(details) => {
                let mut message = owned("Failed to send to ");
                message.append(kind);
                TestResult::Error { message, details, timestamp }
            },
        };
        self.test_results.set(index, result);
    }

    /// Clears all test results.
    pub fn clear_results(&mut self)
        ensures
            final(self).test_results@.len() == 0,
            final(self).notifiers@ == old(self).notifiers@,
            final(self).selected == old(self).selected,
    {
        self.test_results.clear();
    }
}

} // verus!
