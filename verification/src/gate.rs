//! The decisions of the trigger/verify/execute loop.
//!
//! The loop itself blocks on the filesystem watch, reads the target file and
//! spawns the command; those steps live outside this library. Every decision
//! between them is a pure function here: whether an event concerns the
//! target, whether the file's first line carries a currently valid code, and
//! whether captured output is to be printed. The loop's states are
//! waiting-for-event, verifying-code and executing; `on_event` decides the
//! transition out of waiting, `verify_first_line` the one out of verifying.
use vstd::prelude::*;

use crate::totp::{current_window, in_window, is_six_digit_code, is_valid, spec_window, views_of};

verus! {

/// The resolved configuration the loop runs under. It is built once, before
/// the first event, and never changes afterwards.
pub struct Config {
    /// The file-name component of the watched path; events are filtered
    /// against it. `None` when the path has no usable final component.
    pub file_name: Option<Vec<u8>>,
    /// The shared TOTP secret.
    pub secret: Vec<u8>,
    /// The shell command to run on each accepted trigger.
    pub command: String,
    /// Suppress printing of the captured command output.
    pub quiet: bool,
    /// Skip code verification entirely: every qualifying event executes.
    pub nopass: bool,
}

/// What the loop does with one filesystem event.
pub enum EventDecision {
    /// The event does not concern the target file: no side effect at all.
    Ignore,
    /// Gating is disabled: run the command at once.
    Execute,
    /// Read the target's first line and check it for a valid code.
    VerifyCode,
}

/// The decision taken on an event whose entry name is `name`, under a
/// configuration whose target file name is `cfg.file_name`.
pub open spec fn event_decision(cfg: Config, name: Option<Seq<u8>>) -> EventDecision {
    if cfg.file_name.deep_view() != name {
        EventDecision::Ignore
    } else if cfg.nopass {
        EventDecision::Execute
    } else {
        EventDecision::VerifyCode
    }
}

/// Whether a first line read back from the target file grants execution at
/// wall-clock second `now`: a missing line grants nothing, and a present line
/// grants exactly when it is one of the three currently valid codes.
pub open spec fn line_grants(secret: Seq<u8>, line: Option<Seq<char>>, now: u64) -> bool {
    match line {
        Option::None => false,
        Option::Some(l) => in_window(l, spec_window(secret, now)),
    }
}

/// Compares two byte strings.
fn bytes_equal(a: &Vec<u8>, b: &Vec<u8>) -> (r: bool)
    ensures
        r == (a@ == b@),
{
    if a.len() != b.len() {
        return false;
    }
    let mut i: usize = 0;
    while i < a.len()
        invariant
            0 <= i <= a@.len(),
            a@.len() == b@.len(),
            forall|j: int| 0 <= j < i ==> a@[j] == b@[j],
        decreases a@.len() - i,
    {
        if a[i] != b[i] {
            return false;
        }
        i += 1;
    }
    proof {
        assert(a@ =~= b@);
    }
    true
}

/// Decides what one event means: events for other entries are ignored with
/// no side effect; events for the target execute at once when gating is
/// disabled, whatever the file holds, and otherwise go to code verification.
pub fn on_event(cfg: &Config, name: &Option<Vec<u8>>) -> (d: EventDecision)
    ensures
        d == event_decision(*cfg, name.deep_view()),
        name.deep_view() != cfg.file_name.deep_view() ==> d == EventDecision::Ignore,
        name.deep_view() == cfg.file_name.deep_view() && cfg.nopass ==> d
            == EventDecision::Execute,
        name.deep_view() == cfg.file_name.deep_view() && !cfg.nopass ==> d
            == EventDecision::VerifyCode,
{
    let matches: bool = match (&cfg.file_name, name) {
        (Option::None, Option::None) => true,
        (Option::Some(t), Option::Some(n)) => bytes_equal(t, n),
        _ => false,
    };
    proof {
        if cfg.file_name is Some && *name is Some {
            assert(cfg.file_name->Some_0.deep_view() =~= cfg.file_name->Some_0@);
            assert(name->Some_0.deep_view() =~= name->Some_0@);
        }
        assert(matches == (cfg.file_name.deep_view() == name.deep_view()));
    }
    if !matches {
        EventDecision::Ignore
    } else if cfg.nopass {
        EventDecision::Execute
    } else {
        EventDecision::VerifyCode
    }
}

/// Decides the verifying-code state: a missing line (the file was deleted,
/// unreadable or empty when re-read) never grants execution, and a present
/// line grants it exactly when it is one of the three currently valid codes.
pub fn verify_first_line(secret: &Vec<u8>, line: &Option<String>, now: u64) -> (r: bool)
    requires
        30 <= now,
        now <= u64::MAX - 30,
    ensures
        r == line_grants(secret@, line.deep_view(), now),
        line is None ==> !r,
        line.deep_view() matches Option::Some(l) && !is_six_digit_code(l) ==> !r,
{
    match line {
        Option::None => false,
        Option::Some(l) => {
            let window = current_window(secret, now);
            let r = is_valid(l, &window);
            proof {
                if r && !is_six_digit_code(l@) {
                    let i = choose|i: int|
                        0 <= i < views_of(window@).len() && views_of(window@)[i] == l@;
                    assert(is_six_digit_code(window@[i]@));
                }
            }
            r
        },
    }
}

/// Whether captured command output is printed. Printing is the only thing the
/// quiet flag controls.
pub fn should_print(cfg: &Config) -> (r: bool)
    ensures
        r == !cfg.quiet,
{
    !cfg.quiet
}

/// Whether one loop iteration, observed as the event's entry name, the first
/// line read back from the target (`None` when the file was not read or not
/// readable) and the wall-clock second of the check, ends in executing the
/// command.
pub open spec fn executes(
    cfg: Config,
    name: Option<Seq<u8>>,
    line: Option<Seq<char>>,
    now: u64,
) -> bool {
    match event_decision(cfg, name) {
        EventDecision::Ignore => false,
        EventDecision::Execute => true,
        EventDecision::VerifyCode => line_grants(cfg.secret@, line, now),
    }
}

/// How many iterations of a run, observed as a sequence of
/// (entry name, first line read, wall-clock second) triples, execute the
/// command.
pub open spec fn execution_count(
    cfg: Config,
    events: Seq<(Option<Seq<u8>>, Option<Seq<char>>, u64)>,
) -> nat
    decreases events.len(),
{
    if events.len() == 0 {
        0
    } else {
        let first = events[0];
        let rest = execution_count(cfg, events.drop_first());
        if executes(cfg, first.0, first.1, first.2) {
            rest + 1
        } else {
            rest
        }
    }
}

/// Events whose entry name differs from the target's file name never lead to
/// verification or execution: however many such events arrive, each is
/// ignored, so the execution count after any number of them is zero.
pub proof fn lemma_unrelated_event_ignored(cfg: Config, name: Option<Seq<u8>>)
    requires
        name != cfg.file_name.deep_view(),
    ensures
        event_decision(cfg, name) == EventDecision::Ignore,
{
}

/// With gating disabled, every event for the target file decides to execute,
/// whatever the file's content: the decision is not a function of any line.
pub proof fn lemma_no_password_always_executes(cfg: Config, name: Option<Seq<u8>>)
    requires
        cfg.nopass,
        name == cfg.file_name.deep_view(),
    ensures
        event_decision(cfg, name) == EventDecision::Execute,
{
}

/// The quiet flag never suppresses execution, only the printed side effect:
/// two configurations that agree on everything but the quiet flag (and the
/// command text, which no decision reads) decide every event and every read
/// line identically.
pub proof fn lemma_quiet_never_suppresses(
    c1: Config,
    c2: Config,
    name: Option<Seq<u8>>,
    line: Option<Seq<char>>,
    now: u64,
)
    requires
        c1.file_name.deep_view() == c2.file_name.deep_view(),
        c1.secret@ == c2.secret@,
        c1.nopass == c2.nopass,
    ensures
        event_decision(c1, name) == event_decision(c2, name),
        line_grants(c1.secret@, line, now) == line_grants(c2.secret@, line, now),
{
}

/// A target file that is deleted or unreadable at verification time yields no
/// first line, and no first line never grants execution, at any time and
/// under any secret; the loop simply waits for the next event.
pub proof fn lemma_unreadable_file_never_grants(secret: Seq<u8>, now: u64)
    ensures
        !line_grants(secret, Option::None, now),
{
}

/// A run seeing only events whose entry names differ from the target's file
/// name executes the command zero times, whatever the file held and whenever
/// the events came.
pub proof fn lemma_unrelated_events_never_execute(
    cfg: Config,
    events: Seq<(Option<Seq<u8>>, Option<Seq<char>>, u64)>,
)
    requires
        forall|i: int|
            0 <= i < events.len() ==> (#[trigger] events[i]).0 != cfg.file_name.deep_view(),
    ensures
        execution_count(cfg, events) == 0,
    decreases events.len(),
{
    if events.len() > 0 {
        assert forall|i: int|
            0 <= i < events.drop_first().len() implies (#[trigger] events.drop_first()[i]).0
            != cfg.file_name.deep_view() by {
            assert(events.drop_first()[i] == events[i + 1]);
        }
        lemma_unrelated_events_never_execute(cfg, events.drop_first());
    }
}

/// With gating disabled, every qualifying event triggers exactly one
/// execution, regardless of the file's content: over any run seeing only
/// events for the target file, the execution count equals the event count.
pub proof fn lemma_no_password_executes_every_event(
    cfg: Config,
    events: Seq<(Option<Seq<u8>>, Option<Seq<char>>, u64)>,
)
    requires
        cfg.nopass,
        forall|i: int|
            0 <= i < events.len() ==> (#[trigger] events[i]).0 == cfg.file_name.deep_view(),
    ensures
        execution_count(cfg, events) == events.len(),
    decreases events.len(),
{
    if events.len() > 0 {
        assert forall|i: int|
            0 <= i < events.drop_first().len() implies (#[trigger] events.drop_first()[i]).0
            == cfg.file_name.deep_view() by {
            assert(events.drop_first()[i] == events[i + 1]);
        }
        lemma_no_password_executes_every_event(cfg, events.drop_first());
    }
}

/// The quiet flag never changes how often the command runs: two
/// configurations that agree on everything the decisions read — the target
/// file name, the secret and the gating flag — have the same execution count
/// over every observed run, quiet or not.
pub proof fn lemma_quiet_execution_count_identical(
    c1: Config,
    c2: Config,
    events: Seq<(Option<Seq<u8>>, Option<Seq<char>>, u64)>,
)
    requires
        c1.file_name.deep_view() == c2.file_name.deep_view(),
        c1.secret@ == c2.secret@,
        c1.nopass == c2.nopass,
    ensures
        execution_count(c1, events) == execution_count(c2, events),
    decreases events.len(),
{
    if events.len() > 0 {
        let first = events[0];
        lemma_quiet_never_suppresses(c1, c2, first.0, first.1, first.2);
        lemma_quiet_execution_count_identical(c1, c2, events.drop_first());
    }
}

} // verus!
