//! The reconciliation engine: what a run does next, given what has come
//! back from the outside. The caller performs each action (a look at the
//! disk, a download) and hands the outcome back as the next event.

use crate::index::{epub_links, selected_attrs, LINK_ATTRIBUTE, LINK_SELECTOR};
use crate::naming::{name_period, naming, LocalArtifact, NamingError};
use crate::period::{resolve, resolve_spec, Resolution, ResolvedPeriod};
use vstd::prelude::*;

verus! {

/// Where a run stands.
#[derive(Clone, Copy, Debug, PartialEq, Eq, Structural)]
pub enum Phase {
    /// Between candidates: the next one has not been looked at.
    Ready,
    /// Waiting to hear whether the candidate's file is already there.
    Checking,
    /// Waiting to hear whether the destination file could be created.
    Creating,
    /// Waiting for the download to end.
    Downloading,
    /// Waiting for the file's place under the library root.
    Locating,
    /// The run is over.
    Finished,
}

/// What came back from the outside.
#[derive(Clone, Copy, Debug, PartialEq, Eq, Structural)]
pub enum Event {
    /// Nothing: the run is asked to go on.
    Poll,
    /// Whether a file of the candidate's name exists in the save directory.
    Exists(bool),
    /// Whether the destination file was created.
    Created(bool),
    /// Whether the download ran to its end and was written out.
    Downloaded(bool),
    /// Whether the file lies under the library root.
    Located(bool),
}

/// What the caller is to do next. `index` is the candidate's place in the
/// run's list of links.
#[derive(Clone, Copy, Debug, PartialEq, Eq, Structural)]
pub enum Action {
    /// Nothing to do outside: the candidate has no target. Poll again.
    Advance { index: usize },
    /// Report that the year, the month or both could not be read. Poll again.
    ReportUnresolved { index: usize, year_missing: bool, month_missing: bool },
    /// Report that the period could not be named. Poll again.
    ReportUnnamed { index: usize, error: NamingError },
    /// Look for the artifact's file and answer with `Event::Exists`.
    CheckExists { index: usize },
    /// The file is already there: nothing is fetched. Poll again.
    Skip { index: usize },
    /// Create the destination file and answer with `Event::Created`.
    Create { index: usize },
    /// Report that the destination file could not be created, which counts
    /// as a failed fetch. Poll again.
    ReportStorage { index: usize },
    /// Fetch the link into the file and answer with `Event::Downloaded`.
    Download { index: usize },
    /// Report the failed download and remove the file. Poll again.
    Discard { index: usize },
    /// Find the file's path under the library root and answer with
    /// `Event::Located`.
    Locate { index: usize },
    /// Report that the file is not under the library root. Poll again.
    ReportPath { index: usize },
    /// Announce the added document. Poll again.
    Announce { index: usize },
    /// Send the terminal notification: the run is over.
    Finish { with_errors: bool },
    /// A pattern was refused: the run ends without a terminal notification.
    Abort,
    /// The event is not one that the run waits for: nothing changed.
    Refuse,
}

/// Whether an action records an error of its candidate.
pub open spec fn is_failure(action: Action) -> bool {
    action is ReportUnresolved || action is ReportUnnamed || action is ReportStorage
        || action is Discard || action is ReportPath
}

/// The state of a run as plain values.
pub struct RunState {
    pub links: Seq<Option<Seq<char>>>,
    pub limit: int,
    pub current_year: int,
    pub position: int,
    pub any_error: bool,
    pub phase: Phase,
    pub period: Option<ResolvedPeriod>,
    pub artifact: Option<(Seq<char>, Seq<char>)>,
}

/// A run over the links of one index page, in document order.
#[derive(Debug)]
pub struct Run {
    /// The target of each anchor found, `None` where an anchor has none.
    pub links: Vec<Option<String>>,
    /// How many candidates a run attempts at most.
    pub limit: usize,
    /// The last year that a link may name.
    pub current_year: i32,
    /// The place of the candidate that is looked at next, or is in progress.
    pub position: usize,
    /// Whether any candidate so far ended in an error.
    pub any_error: bool,
    pub phase: Phase,
    /// The period and the artifact of the last candidate that was named.
    pub period: Option<ResolvedPeriod>,
    pub artifact: Option<LocalArtifact>,
}

/// The text of a link, where there is one.
pub open spec fn link_text(link: Option<String>) -> Option<Seq<char>> {
    match link {
        Some(s) => Some(s@),
        None => None,
    }
}

/// The texts of a list of links.
pub open spec fn link_texts(links: Seq<Option<String>>) -> Seq<Option<Seq<char>>> {
    links.map_values(|l: Option<String>| link_text(l))
}

/// Whether a phase is one in which a candidate is in progress.
pub open spec fn in_progress(phase: Phase) -> bool {
    phase is Checking || phase is Creating || phase is Downloading || phase is Locating
}

impl RunState {
    /// A run never points past its links, and a candidate in progress has
    /// its period and its artifact.
    pub open spec fn wf(self) -> bool {
        &&& 0 <= self.position <= self.links.len()
        &&& in_progress(self.phase) ==> self.position < self.links.len() && self.period is Some
            && self.artifact is Some
    }

    /// The state once the candidate in progress is done with.
    pub open spec fn settled(self, failed: bool) -> RunState {
        RunState {
            position: self.position + 1,
            any_error: self.any_error || failed,
            phase: Phase::Ready,
            ..self
        }
    }

    /// The same state in another phase.
    pub open spec fn moved(self, phase: Phase) -> RunState {
        RunState { phase: phase, ..self }
    }
}

impl View for Run {
    type V = RunState;

    open spec fn view(&self) -> RunState {
        RunState {
            links: link_texts(self.links@),
            limit: self.limit as int,
            current_year: self.current_year as int,
            position: self.position as int,
            any_error: self.any_error,
            phase: self.phase,
            period: self.period,
            artifact: match self.artifact {
                Some(a) => Some(a@),
                None => None,
            },
        }
    }
}

/// The state in which every run starts.
pub open spec fn initial(links: Seq<Option<Seq<char>>>, limit: int, current_year: int) -> RunState {
    RunState {
        links: links,
        limit: limit,
        current_year: current_year,
        position: 0,
        any_error: false,
        phase: Phase::Ready,
        period: None,
        artifact: None,
    }
}

/// What a run does between candidates: it ends at the limit, at the end of
/// the links and on cancellation; else it resolves and names the next
/// candidate and asks whether its file exists.
pub open spec fn next_candidate(run: RunState, cancelled: bool) -> (RunState, Action) {
    let index = run.position as usize;
    if run.position >= run.limit || run.position >= run.links.len() || cancelled {
        (run.moved(Phase::Finished), Action::Finish { with_errors: run.any_error })
    } else {
        match run.links[run.position] {
            None => (run.settled(false), Action::Advance { index }),
            Some(href) => match resolve_spec(href, run.current_year) {
                None => (run.moved(Phase::Finished), Action::Abort),
                Some(Resolution::Unresolved { year_missing, month_missing }) => (
                    run.settled(true),
                    Action::ReportUnresolved { index, year_missing, month_missing },
                ),
                Some(Resolution::Resolved(period)) => match naming(period) {
                    None => (
                        run.settled(true),
                        Action::ReportUnnamed {
                            index,
                            error: NamingError::Unrepresentable {
                                year: period.year,
                                month: period.month,
                            },
                        },
                    ),
                    Some(names) => (
                        RunState {
                            phase: Phase::Checking,
                            period: Some(period),
                            artifact: Some(names),
                            ..run
                        },
                        Action::CheckExists { index },
                    ),
                },
            },
        }
    }
}

/// The transition of a run: from a state, an event and the cancellation
/// signal as it stands, to the next state and the action to perform.
pub open spec fn next(run: RunState, event: Event, cancelled: bool) -> (RunState, Action) {
    let index = run.position as usize;
    match (run.phase, event) {
        (Phase::Ready, Event::Poll) => next_candidate(run, cancelled),
        (Phase::Checking, Event::Exists(true)) => (run.settled(false), Action::Skip { index }),
        (Phase::Checking, Event::Exists(false)) => (
            run.moved(Phase::Creating),
            Action::Create { index },
        ),
        (Phase::Creating, Event::Created(true)) => (
            run.moved(Phase::Downloading),
            Action::Download { index },
        ),
        (Phase::Creating, Event::Created(false)) => (
            run.settled(true),
            Action::ReportStorage { index },
        ),
        (Phase::Downloading, Event::Downloaded(true)) => (
            run.moved(Phase::Locating),
            Action::Locate { index },
        ),
        (Phase::Downloading, Event::Downloaded(false)) => (
            run.settled(true),
            Action::Discard { index },
        ),
        (Phase::Locating, Event::Located(true)) => (run.settled(false), Action::Announce { index }),
        (Phase::Locating, Event::Located(false)) => (run.settled(true), Action::ReportPath { index }),
        _ => (run, Action::Refuse),
    }
}

impl Run {
    /// Well-formedness of a run: that of its state.
    pub open spec fn wf(&self) -> bool {
        self@.wf()
    }

    /// A run over `links` that attempts at most `limit` candidates and
    /// accepts no year after `current_year`.
    pub fn new(links: Vec<Option<String>>, limit: usize, current_year: i32) -> (run: Run)
        ensures
            run.wf(),
            run@ == initial(link_texts(links@), limit as int, current_year as int),
    {
        Run {
            links,
            limit,
            current_year,
            position: 0,
            any_error: false,
            phase: Phase::Ready,
            period: None,
            artifact: None,
        }
    }

    /// A run over the candidate links of an index page, in the page's
    /// order. `None` only where the link selector is refused.
    pub fn over_page(html: &str, limit: usize, current_year: i32) -> (result: Option<Run>)
        ensures
            match result {
                Some(run) => {
                    &&& run.wf()
                    &&& selected_attrs(html@, LINK_SELECTOR@, LINK_ATTRIBUTE@) is Some
                    &&& run@ == initial(
                        selected_attrs(html@, LINK_SELECTOR@, LINK_ATTRIBUTE@).unwrap(),
                        limit as int,
                        current_year as int,
                    )
                },
                None => selected_attrs(html@, LINK_SELECTOR@, LINK_ATTRIBUTE@) is None,
            },
    {
        match epub_links(html) {
            Some(links) => Some(Run::new(links, limit, current_year)),
            None => None,
        }
    }

    /// Whether the run is well formed, for callers that are not verified.
    pub fn is_well_formed(&self) -> (ok: bool)
        ensures
            ok == self.wf(),
    {
        let busy = match self.phase {
            Phase::Ready => false,
            Phase::Finished => false,
            _ => true,
        };
        self.position <= self.links.len() && (!busy || (self.position < self.links.len()
            && self.period.is_some() && self.artifact.is_some()))
    }

    /// Whether the run is over.
    pub fn is_finished(&self) -> (done: bool)
        ensures
            done == (self.phase is Finished),
    {
        match self.phase {
            Phase::Finished => true,
            _ => false,
        }
    }

    fn settle(self, failed: bool) -> (run: Run)
        requires
            self.wf(),
            self.position < self.links.len(),
        ensures
            run.wf(),
            run@ == self@.settled(failed),
    {
        let position = self.position + 1;
        let any_error = self.any_error || failed;
        Run { position, any_error, phase: Phase::Ready, ..self }
    }

    fn move_to(self, phase: Phase) -> (run: Run)
        requires
            self.wf(),
            in_progress(phase) ==> in_progress(self.phase),
        ensures
            run.wf(),
            run@ == self@.moved(phase),
    {
        Run { phase, ..self }
    }

    fn begin(self, cancelled: bool) -> (result: (Run, Action))
        requires
            self.wf(),
            self.phase is Ready,
        ensures
            result.0.wf(),
            result.0@ == next_candidate(self@, cancelled).0,
            result.1 == next_candidate(self@, cancelled).1,
    {
        let index = self.position;
        if index >= self.limit || index >= self.links.len() || cancelled {
            let with_errors = self.any_error;
            return (self.move_to(Phase::Finished), Action::Finish { with_errors });
        }
        let resolution = match &self.links[index] {
            None => {
                return (self.settle(false), Action::Advance { index });
            },
            Some(href) => resolve(href.as_str(), self.current_year),
        };
        match resolution {
            None => (self.move_to(Phase::Finished), Action::Abort),
            Some(Resolution::Unresolved { year_missing, month_missing }) => (
                self.settle(true),
                Action::ReportUnresolved { index, year_missing, month_missing },
            ),
            Some(Resolution::Resolved(period)) => match name_period(period) {
                Err(error) => (self.settle(true), Action::ReportUnnamed { index, error }),
                Ok(artifact) => (
                    Run {
                        phase: Phase::Checking,
                        period: Some(period),
                        artifact: Some(artifact),
                        ..self
                    },
                    Action::CheckExists { index },
                ),
            },
        }
    }

    /// Takes one step: the next state and the action to perform, as `next`
    /// gives them.
    pub fn step(self, event: Event, cancelled: bool) -> (result: (Run, Action))
        requires
            self.wf(),
        ensures
            result.0.wf(),
            result.0@ == next(self@, event, cancelled).0,
            result.1 == next(self@, event, cancelled).1,
    {
        let index = self.position;
        match (self.phase, event) {
            (Phase::Ready, Event::Poll) => self.begin(cancelled),
            (Phase::Checking, Event::Exists(true)) => (self.settle(false), Action::Skip { index }),
            (Phase::Checking, Event::Exists(false)) => (
                self.move_to(Phase::Creating),
                Action::Create { index },
            ),
            (Phase::Creating, Event::Created(true)) => (
                self.move_to(Phase::Downloading),
                Action::Download { index },
            ),
            (Phase::Creating, Event::Created(false)) => (
                self.settle(true),
                Action::ReportStorage { index },
            ),
            (Phase::Downloading, Event::Downloaded(true)) => (
                self.move_to(Phase::Locating),
                Action::Locate { index },
            ),
            (Phase::Downloading, Event::Downloaded(false)) => (
                self.settle(true),
                Action::Discard { index },
            ),
            (Phase::Locating, Event::Located(true)) => (
                self.settle(false),
                Action::Announce { index },
            ),
            (Phase::Locating, Event::Located(false)) => (
                self.settle(true),
                Action::ReportPath { index },
            ),
            _ => (self, Action::Refuse),
        }
    }
}

/// The inputs of one step: the event and the cancellation signal.
pub struct Input {
    pub event: Event,
    pub cancelled: bool,
}

/// The state of a run after the given steps.
pub open spec fn state_after(start: RunState, inputs: Seq<Input>) -> RunState
    decreases inputs.len(),
{
    if inputs.len() == 0 {
        start
    } else {
        next(
            state_after(start, inputs.drop_last()),
            inputs.last().event,
            inputs.last().cancelled,
        ).0
    }
}

/// The action that step `i` of the given steps returns.
pub open spec fn action_at(start: RunState, inputs: Seq<Input>, i: int) -> Action {
    next(state_after(start, inputs.take(i)), inputs[i].event, inputs[i].cancelled).1
}

/// A step keeps a run well formed, and changes neither its links nor its
/// limit nor its year.
pub proof fn lemma_step_keeps_run(run: RunState, event: Event, cancelled: bool)
    requires
        run.wf(),
    ensures
        next(run, event, cancelled).0.wf(),
        next(run, event, cancelled).0.links == run.links,
        next(run, event, cancelled).0.limit == run.limit,
        next(run, event, cancelled).0.current_year == run.current_year,
        run.position <= next(run, event, cancelled).0.position <= run.position + 1,
{
}

/// Where the file of a candidate is already there, the candidate is
/// skipped: the run goes on to the next one without creating or fetching
/// anything, and no error is recorded.
pub proof fn lemma_present_file_is_skipped(run: RunState, cancelled: bool)
    requires
        run.wf(),
        run.phase is Checking,
    ensures
        next(run, Event::Exists(true), cancelled).1 == (Action::Skip {
            index: run.position as usize,
        }),
        next(run, Event::Exists(true), cancelled).0.phase is Ready,
        next(run, Event::Exists(true), cancelled).0.position == run.position + 1,
        next(run, Event::Exists(true), cancelled).0.any_error == run.any_error,
{
}

/// A download is asked for only of a candidate whose file was reported
/// absent and then created.
pub proof fn lemma_download_only_after_create(run: RunState, event: Event, cancelled: bool)
    requires
        next(run, event, cancelled).1 is Download,
    ensures
        run.phase is Creating,
        event == Event::Created(true),
{
}

/// Once the signal is set, a run between candidates starts no other: it
/// ends there, with the errors it had.
pub proof fn lemma_cancelled_run_ends(run: RunState)
    requires
        run.phase is Ready,
    ensures
        next(run, Event::Poll, true).1 == (Action::Finish { with_errors: run.any_error }),
        next(run, Event::Poll, true).0 == run.moved(Phase::Finished),
{
}

/// A document is announced only after its download ran to the end: a
/// download that was cut short is discarded and counts as an error.
pub proof fn lemma_cut_download_is_not_announced(run: RunState, event: Event, cancelled: bool)
    requires
        run.phase is Downloading,
    ensures
        !(next(run, event, cancelled).1 is Announce),
        next(run, Event::Downloaded(false), cancelled).1 is Discard,
        next(run, Event::Downloaded(false), cancelled).0.any_error,
        next(run, event, cancelled).1 is Locate ==> event == Event::Downloaded(true),
{
}

/// The attempt limit holds: no candidate at or past the limit is looked at.
pub proof fn lemma_limit_ends_run(run: RunState, cancelled: bool)
    requires
        run.phase is Ready,
        run.position >= run.limit,
    ensures
        next(run, Event::Poll, cancelled).1 == (Action::Finish { with_errors: run.any_error }),
{
}

/// One step records an error exactly where its action reports a failure,
/// and never forgets one.
pub proof fn lemma_step_records_failure(run: RunState, event: Event, cancelled: bool)
    ensures
        next(run, event, cancelled).0.any_error == (run.any_error || is_failure(
            next(run, event, cancelled).1,
        )),
        next(run, event, cancelled).1 is Finish ==> next(run, event, cancelled).1 == (
        Action::Finish { with_errors: run.any_error }),
{
}

/// Over a whole run from its start, an error is on record if and only if
/// one of the steps reported a failure.
pub proof fn lemma_errors_iff_failure_reported(start: RunState, inputs: Seq<Input>)
    requires
        !start.any_error,
    ensures
        state_after(start, inputs).any_error <==> exists|i: int|
            0 <= i < inputs.len() && is_failure(#[trigger] action_at(start, inputs, i)),
    decreases inputs.len(),
{
    if inputs.len() > 0 {
        let before = inputs.drop_last();
        let n = before.len() as int;
        lemma_errors_iff_failure_reported(start, before);
        lemma_step_records_failure(
            state_after(start, before),
            inputs.last().event,
            inputs.last().cancelled,
        );
        assert(inputs.take(n) =~= before);
        assert forall|i: int| 0 <= i < n implies action_at(start, before, i) == action_at(
            start,
            inputs,
            i,
        ) by {
            assert(before.take(i) =~= inputs.take(i));
        }
        if state_after(start, inputs).any_error {
            if is_failure(action_at(start, inputs, n)) {
            } else {
                let i = choose|i: int|
                    0 <= i < before.len() && is_failure(#[trigger] action_at(start, before, i));
                assert(is_failure(action_at(start, inputs, i)));
            }
        } else {
            assert forall|i: int| 0 <= i < inputs.len() implies !is_failure(
                #[trigger] action_at(start, inputs, i),
            ) by {
                if i < n {
                    assert(action_at(start, before, i) == action_at(start, inputs, i));
                }
            }
        }
    }
}

/// The terminal notification speaks of errors if and only if a step of
/// the run reported a failure.
pub proof fn lemma_terminal_status(start: RunState, inputs: Seq<Input>, last: Input)
    requires
        !start.any_error,
        next(state_after(start, inputs), last.event, last.cancelled).1 is Finish,
    ensures
        next(state_after(start, inputs), last.event, last.cancelled).1->with_errors
            <==> exists|i: int|
            0 <= i < inputs.len() && is_failure(#[trigger] action_at(start, inputs, i)),
{
    lemma_errors_iff_failure_reported(start, inputs);
    lemma_step_records_failure(state_after(start, inputs), last.event, last.cancelled);
}

} // verus!
