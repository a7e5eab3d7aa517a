//! The migration run as a state machine: each stage names the outside work
//! to do next, and each outcome of that work, handed back as an event, moves
//! the run to its next stage. The version marker is rewritten only after every
//! step has succeeded.
use crate::error::Error;
use crate::marker::{spec_parse, parse_version, decimal};
use crate::plan::{
    Plan, Resolution, Step, plan_for, spec_plan, is_legacy, COL_ACCOUNT_BLOOM, OE_3_1_0_VERSION,
    PARITY_2_5_13_VERSION,
};
use vstd::prelude::*;
use vstd::string::*;

verus! {

/// What the operator types to agree to the migration.
pub const AGREEMENT_SENTENCE: &'static str = "I AGREE";

/// A character of the Unicode `White_Space` property, as `char::is_whitespace`
/// documents it.
pub open spec fn is_white_space(c: char) -> bool {
    let u = c as u32;
    (9 <= u <= 13) || u == 0x20 || u == 0x85 || u == 0xa0 || u == 0x1680 || (0x2000 <= u
        <= 0x200a) || u == 0x2028 || u == 0x2029 || u == 0x202f || u == 0x205f || u == 0x3000
}

/// `s` without its leading whitespace.
pub open spec fn trim_start(s: Seq<char>) -> Seq<char>
    decreases s.len(),
{
    if s.len() > 0 && is_white_space(s[0]) {
        trim_start(s.drop_first())
    } else {
        s
    }
}

/// `s` without its trailing whitespace.
pub open spec fn trim_end(s: Seq<char>) -> Seq<char>
    decreases s.len(),
{
    if s.len() > 0 && is_white_space(s.last()) {
        trim_end(s.drop_last())
    } else {
        s
    }
}

/// The operator's answer with leading and trailing whitespace removed.
pub open spec fn trimmed(s: Seq<char>) -> Seq<char> {
    trim_end(trim_start(s))
}

/// Relies on `str::trim`: the slice from the first to the last character
/// that is not `White_Space`.
#[verifier::external_body]
fn trim(s: &str) -> (r: &str)
    ensures
        r@ == trimmed(s@),
{
    s.trim()
}

/// True when the already trimmed `answer` is the agreement sentence, letter
/// for letter.
pub fn is_agreement(answer: &str) -> (r: bool)
    ensures
        r == (answer@ == AGREEMENT_SENTENCE@),
{
    let target = AGREEMENT_SENTENCE;
    let n = answer.unicode_len();
    if n != target.unicode_len() {
        return false;
    }
    let mut i: usize = 0;
    while i < n
        invariant
            n == answer@.len(),
            n == target@.len(),
            target == AGREEMENT_SENTENCE,
            i <= n,
            forall|j: int| 0 <= j < i ==> answer@[j] == target@[j],
        decreases n - i,
    {
        if answer.get_char(i) != target.get_char(i) {
            return false;
        }
        i = i + 1;
    }
    assert(answer@ =~= target@);
    true
}

/// True when the operator's answer, trimmed, is the agreement sentence.
pub fn confirm(answer: &str) -> (r: bool)
    ensures
        r == (trimmed(answer@) == AGREEMENT_SENTENCE@),
{
    is_agreement(trim(answer))
}

/// Where a run stands.
pub enum Stage {
    /// Nothing done yet: the marker is to be read.
    Start,
    /// The database has the legacy version `from`; the operator is to agree.
    Resolved { from: u32, plan: Plan },
    /// The operator agreed: the store is to be opened with the plan's columns.
    Confirmed { plan: Plan },
    /// The store is open and step `next` of the plan is to run.
    Running { plan: Plan, next: usize },
    /// Every step succeeded: the marker is to be rewritten.
    Applied,
    /// The database has the current layout.
    Done,
    /// The run stopped; nothing more is to be done.
    Failed(Error),
}

/// The outcome of the outside work that a stage asked for.
pub enum Event {
    /// The marker's bytes, or why they could not be read.
    MarkerRead(Result<Vec<u8>, String>),
    /// The line the operator typed.
    Answer(String),
    /// Whether the store opened.
    StoreOpened(Result<(), std::io::Error>),
    /// Whether the current step succeeded.
    StepDone(Result<(), std::io::Error>),
    /// Whether the marker was rewritten.
    MarkerWritten(Result<(), std::io::Error>),
}

/// The outside work that a stage asks for.
#[derive(Clone, Copy, Debug, PartialEq, Eq, Structural)]
pub enum Action {
    /// Read the marker file.
    ReadMarker,
    /// Warn the operator and read one line of agreement.
    Confirm { from: u32, to: u32 },
    /// Open the store with this many columns.
    OpenStore { columns: u32 },
    /// Empty this column, batch by batch.
    Purge { column: u32 },
    /// Remove the store's last column.
    DropTrailingColumn,
    /// Write this version to the marker file.
    WriteMarker { version: u32 },
    /// Nothing: the run is over.
    Finish,
}

/// The work that `stage` asks for.
pub open spec fn spec_action(stage: Stage) -> Action {
    match stage {
        Stage::Start => Action::ReadMarker,
        Stage::Resolved { from, plan } => Action::Confirm { from, to: OE_3_1_0_VERSION },
        Stage::Confirmed { plan } => Action::OpenStore { columns: plan.spec_columns() },
        Stage::Running { plan, next } => if next < plan.spec_steps().len() {
            match plan.spec_steps()[next as int] {
                Step::PurgeColumn(c) => Action::Purge { column: c },
                Step::DropTrailingColumn => Action::DropTrailingColumn,
            }
        } else {
            Action::Finish
        },
        Stage::Applied => Action::WriteMarker { version: OE_3_1_0_VERSION },
        Stage::Done => Action::Finish,
        Stage::Failed(_) => Action::Finish,
    }
}

/// How `event` moves a run from `stage` to `r`. An event that the stage did
/// not ask for leaves it as it is.
pub open spec fn next_stage(stage: Stage, event: Event, r: Stage) -> bool {
    match (stage, event) {
        (Stage::Start, Event::MarkerRead(Err(why))) => r == Stage::Failed(
            Error::UnknownDatabaseVersion(why),
        ),
        (Stage::Start, Event::MarkerRead(Ok(text))) => match spec_parse(text@) {
            None => r matches Stage::Failed(Error::UnknownDatabaseVersion(_)),
            Some(v) => if v == OE_3_1_0_VERSION {
                r == Stage::Done
            } else if is_legacy(v) {
                r matches Stage::Resolved { from, plan } && from == v && spec_plan(v) == Some(
                    (plan.spec_columns() as nat, plan.spec_steps()),
                )
            } else {
                r == Stage::Failed(Error::UnsupportedDatabaseVersion(v))
            },
        },
        (Stage::Resolved { from, plan }, Event::Answer(answer)) => if trimmed(answer@)
            == AGREEMENT_SENTENCE@ {
            r == (Stage::Confirmed { plan })
        } else {
            r == Stage::Failed(Error::Cancelled)
        },
        (Stage::Confirmed { plan }, Event::StoreOpened(Ok(()))) => if plan.spec_steps().len()
            == 0 {
            r == Stage::Applied
        } else {
            r == (Stage::Running { plan, next: 0 })
        },
        (Stage::Confirmed { plan }, Event::StoreOpened(Err(e))) => r == Stage::Failed(
            Error::Io(e),
        ),
        (Stage::Running { plan, next }, Event::StepDone(Ok(()))) => if next + 1
            < plan.spec_steps().len() {
            r == (Stage::Running { plan, next: (next + 1) as usize })
        } else {
            r == Stage::Applied
        },
        (Stage::Running { plan, next }, Event::StepDone(Err(e))) => r == Stage::Failed(
            Error::Io(e),
        ),
        (Stage::Applied, Event::MarkerWritten(Ok(()))) => r == Stage::Done,
        (Stage::Applied, Event::MarkerWritten(Err(e))) => r == Stage::Failed(Error::Io(e)),
        (s, _) => r == s,
    }
}

impl Stage {
    /// The stage a run starts in.
    pub fn new() -> (r: Stage)
        ensures
            r == Stage::Start,
    {
        Stage::Start
    }

    /// The outside work that this stage asks for.
    pub fn action(&self) -> (r: Action)
        ensures
            r == spec_action(*self),
    {
        match self {
            Stage::Start => Action::ReadMarker,
            Stage::Resolved { from, plan: _ } => Action::Confirm {
                from: *from,
                to: OE_3_1_0_VERSION,
            },
            Stage::Confirmed { plan } => Action::OpenStore { columns: plan.columns() },
            Stage::Running { plan, next } => {
                let steps = plan.steps();
                if *next < steps.len() {
                    match steps[*next] {
                        Step::PurgeColumn(c) => Action::Purge { column: c },
                        Step::DropTrailingColumn => Action::DropTrailingColumn,
                    }
                } else {
                    Action::Finish
                }
            },
            Stage::Applied => Action::WriteMarker { version: OE_3_1_0_VERSION },
            Stage::Done => Action::Finish,
            Stage::Failed(_) => Action::Finish,
        }
    }

    /// Moves the run on by the outcome of the work this stage asked for.
    pub fn advance(self, event: Event) -> (r: Stage)
        ensures
            next_stage(self, event, r),
    {
        match (self, event) {
            (Stage::Start, Event::MarkerRead(Err(why))) => Stage::Failed(
                Error::UnknownDatabaseVersion(why),
            ),
            (Stage::Start, Event::MarkerRead(Ok(text))) => match parse_version(text.as_slice()) {
                None => Stage::Failed(
                    Error::UnknownDatabaseVersion("cannot parse version".to_owned()),
                ),
                Some(v) => match plan_for(v) {
                    Ok(Resolution::AlreadyCurrent) => Stage::Done,
                    Ok(Resolution::Migrate(plan)) => Stage::Resolved { from: v, plan },
                    Err(v) => Stage::Failed(Error::UnsupportedDatabaseVersion(v)),
                },
            },
            (Stage::Resolved { from: _, plan }, Event::Answer(answer)) => {
                if confirm(answer.as_str()) {
                    Stage::Confirmed { plan }
                } else {
                    Stage::Failed(Error::Cancelled)
                }
            },
            (Stage::Confirmed { plan }, Event::StoreOpened(Ok(()))) => {
                if plan.steps().len() == 0 {
                    Stage::Applied
                } else {
                    Stage::Running { plan, next: 0 }
                }
            },
            (Stage::Confirmed { plan: _ }, Event::StoreOpened(Err(e))) => Stage::Failed(
                Error::Io(e),
            ),
            (Stage::Running { plan, next }, Event::StepDone(Ok(()))) => {
                let len = plan.steps().len();
                if next < len && len - next > 1 {
                    Stage::Running { plan, next: next + 1 }
                } else {
                    Stage::Applied
                }
            },
            (Stage::Running { plan: _, next: _ }, Event::StepDone(Err(e))) => Stage::Failed(
                Error::Io(e),
            ),
            (Stage::Applied, Event::MarkerWritten(Ok(()))) => Stage::Done,
            (Stage::Applied, Event::MarkerWritten(Err(e))) => Stage::Failed(Error::Io(e)),
            (s, _) => s,
        }
    }

    /// How the run ended: `None` while it is still going.
    pub fn outcome(self) -> (r: Option<Result<(), Error>>)
        ensures
            self is Done <==> r == Some(Ok::<(), Error>(())),
            self matches Stage::Failed(e) ==> r == Some(Err::<(), Error>(e)),
            !(self is Done) && !(self is Failed) <==> r is None,
    {
        match self {
            Stage::Done => Some(Ok(())),
            Stage::Failed(e) => Some(Err(e)),
            _ => None,
        }
    }
}

/// A second run on a database whose first run completed finds the marker
/// that the first run wrote, ends in `Done` without asking anything more, and
/// so runs no step and leaves the marker as it is.
pub proof fn lemma_rerun_is_done(text: Vec<u8>, r: Stage)
    requires
        text@ == decimal(OE_3_1_0_VERSION as nat),
        next_stage(Stage::Start, Event::MarkerRead(Ok(text)), r),
    ensures
        r == Stage::Done,
        spec_action(r) == Action::Finish,
{
    crate::marker::lemma_decimal_round_trip(OE_3_1_0_VERSION as nat);
}

/// An answer other than the agreement sentence (after trimming) cancels the
/// run, and a cancelled run asks for no further work: neither the store nor
/// the marker is touched.
pub proof fn lemma_refusal_cancels(from: u32, plan: Plan, answer: String, r: Stage)
    requires
        trimmed(answer@) != AGREEMENT_SENTENCE@,
        next_stage(Stage::Resolved { from, plan }, Event::Answer(answer), r),
    ensures
        r == Stage::Failed(Error::Cancelled),
        spec_action(r) == Action::Finish,
{
}

/// A marker that cannot be read or parsed stops the run before the store is
/// opened.
pub proof fn lemma_unknown_version_stops(marker: Result<Vec<u8>, String>, r: Stage)
    requires
        marker is Err || spec_parse(marker->Ok_0@) is None,
        next_stage(Stage::Start, Event::MarkerRead(marker), r),
    ensures
        r matches Stage::Failed(Error::UnknownDatabaseVersion(_)),
        spec_action(r) == Action::Finish,
{
}

/// The marker is rewritten only from `Applied`, and a run reaches `Applied`
/// only when the last step of its plan has succeeded (or the store opened for
/// a plan with no step): a run interrupted or failed before that leaves the
/// old marker in place, so the next run starts the same plan again.
pub proof fn lemma_marker_written_last(stage: Stage, event: Event, r: Stage)
    requires
        next_stage(stage, event, r),
        r is Applied,
        !(stage is Applied),
    ensures
        spec_action(r) == (Action::WriteMarker { version: OE_3_1_0_VERSION }),
        forall|s: Stage| (spec_action(s) is WriteMarker) ==> s is Applied,
        (stage matches Stage::Running { plan, next } && event matches Event::StepDone(Ok(()))
            && next + 1 >= plan.spec_steps().len()) || (stage matches Stage::Confirmed { plan }
            && event matches Event::StoreOpened(Ok(())) && plan.spec_steps().len() == 0),
{
}

proof fn lemma_trim_start_of_padding(pre: Seq<char>, rest: Seq<char>)
    requires
        forall|i: int| 0 <= i < pre.len() ==> is_white_space(#[trigger] pre[i]),
        rest.len() > 0,
        !is_white_space(rest[0]),
    ensures
        trim_start(pre + rest) == rest,
    decreases pre.len(),
{
    if pre.len() > 0 {
        assert((pre + rest).drop_first() =~= pre.drop_first() + rest);
        assert((pre + rest)[0] == pre[0]);
        lemma_trim_start_of_padding(pre.drop_first(), rest);
    } else {
        assert(pre + rest =~= rest);
    }
}

proof fn lemma_trim_end_of_padding(rest: Seq<char>, post: Seq<char>)
    requires
        forall|i: int| 0 <= i < post.len() ==> is_white_space(#[trigger] post[i]),
        rest.len() > 0,
        !is_white_space(rest.last()),
    ensures
        trim_end(rest + post) == rest,
    decreases post.len(),
{
    if post.len() > 0 {
        assert((rest + post).drop_last() =~= rest + post.drop_last());
        assert((rest + post).last() == post.last());
        lemma_trim_end_of_padding(rest, post.drop_last());
    } else {
        assert(rest + post =~= rest);
    }
}

/// The agreement sentence with any whitespace before and after it (a line
/// read with its newline, say) is accepted.
pub proof fn lemma_padded_agreement(pre: Seq<char>, post: Seq<char>)
    requires
        forall|i: int| 0 <= i < pre.len() ==> is_white_space(#[trigger] pre[i]),
        forall|i: int| 0 <= i < post.len() ==> is_white_space(#[trigger] post[i]),
    ensures
        trimmed(pre + AGREEMENT_SENTENCE@ + post) == AGREEMENT_SENTENCE@,
{
    reveal_strlit("I AGREE");
    let a = AGREEMENT_SENTENCE@;
    assert(pre + a + post =~= pre + (a + post));
    assert((a + post)[0] == a[0]);
    lemma_trim_start_of_padding(pre, a + post);
    lemma_trim_end_of_padding(a, post);
}

/// A run on a Parity 2.5 database whose operator agrees and whose outside
/// work all succeeds: it asks to confirm, opens the store with eight columns,
/// empties the accounts-bloom column, drops the trailing (light-chain) column,
/// writes the current version to the marker, and ends in `Done`.
pub proof fn lemma_parity_2_5_run(
    text: Vec<u8>,
    answer: String,
    s1: Stage,
    s2: Stage,
    s3: Stage,
    s4: Stage,
    s5: Stage,
    s6: Stage,
)
    requires
        spec_parse(text@) == Some(PARITY_2_5_13_VERSION),
        trimmed(answer@) == AGREEMENT_SENTENCE@,
        next_stage(Stage::Start, Event::MarkerRead(Ok(text)), s1),
        next_stage(s1, Event::Answer(answer), s2),
        next_stage(s2, Event::StoreOpened(Ok(())), s3),
        next_stage(s3, Event::StepDone(Ok(())), s4),
        next_stage(s4, Event::StepDone(Ok(())), s5),
        next_stage(s5, Event::MarkerWritten(Ok(())), s6),
    ensures
        spec_action(Stage::Start) == Action::ReadMarker,
        spec_action(s1) == (Action::Confirm { from: 13, to: OE_3_1_0_VERSION }),
        spec_action(s2) == (Action::OpenStore { columns: 8 }),
        spec_action(s3) == (Action::Purge { column: COL_ACCOUNT_BLOOM }),
        spec_action(s4) == Action::DropTrailingColumn,
        spec_action(s5) == (Action::WriteMarker { version: OE_3_1_0_VERSION }),
        s6 == Stage::Done,
        spec_action(s6) == Action::Finish,
{
}

} // verus!
