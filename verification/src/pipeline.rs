//! The order of a run: solve every exercise once, then log each account in
//! and submit every solution for it.
//!
//! The run is a state machine. It hands out one action at a time; the caller
//! performs it and reports what happened as an event. A submission is only
//! dispatched, not awaited: all of them are awaited together at the join.

use vstd::prelude::*;
use crate::laws::{a_new_run_is_well_formed, a_step_keeps_the_run_well_formed};
use crate::model::{
    views, Account, AccountView, Exercise, ExerciseView, FormField, ParseError, RunError,
};
use crate::page::{exercise_result_view, extract_exercise, extraction};
use crate::prompt::{
    chosen, completion_request, request_for, solution_from, Completion, CompletionRequest,
    CompletionRequestView, CompletionView,
};
use crate::site::{
    exercise_address, exercise_url, form_view, login_address, login_fields, login_form, login_url,
    submit_address, submit_fields, submit_form, submit_url,
};

verus! {

/// What the run is waiting for.
#[derive(Clone, Copy, Debug, PartialEq, Eq, Structural)]
pub enum Phase {
    /// The page of the next unsolved exercise.
    Fetching,
    /// The completion for the next unsolved exercise.
    Generating,
    /// The login of the current account.
    LoggingIn,
    /// The dispatch of the current account's latest submission.
    Dispatching,
    /// The end of all dispatched submissions.
    Joining,
}

/// What the caller reports back.
#[derive(Debug, PartialEq, Eq)]
pub enum Event {
    PageFetched(String),
    FetchFailed,
    Completed(Completion),
    LoggedIn,
    LoginFailed,
    Dispatched,
    /// All dispatched submissions have ended; `failed` of them could not complete.
    Joined { failed: usize },
}

/// An event as plain text.
pub enum EventView {
    PageFetched(Seq<char>),
    FetchFailed,
    Completed(CompletionView),
    LoggedIn,
    LoginFailed,
    Dispatched,
    Joined { failed: usize },
}

impl View for Event {
    type V = EventView;

    open spec fn view(&self) -> EventView {
        match self {
            Event::PageFetched(markup) => EventView::PageFetched(markup@),
            Event::FetchFailed => EventView::FetchFailed,
            Event::Completed(c) => EventView::Completed(c@),
            Event::LoggedIn => EventView::LoggedIn,
            Event::LoginFailed => EventView::LoginFailed,
            Event::Dispatched => EventView::Dispatched,
            Event::Joined { failed } => EventView::Joined { failed: *failed },
        }
    }
}

/// What the caller is asked to do next.
#[derive(Debug, PartialEq, Eq)]
pub enum Action {
    /// Get the page at `url` and report `PageFetched` or `FetchFailed`.
    Fetch { url: String },
    /// Send the request to the completion service and report `Completed`.
    Generate { request: CompletionRequest },
    /// Open a session that keeps cookies for the account with this index,
    /// post the form to `url` on it, and report `LoggedIn` or `LoginFailed`.
    Login { account: usize, url: String, form: Vec<FormField> },
    /// Start posting the form to `url` on the session of the account with
    /// this index, without waiting for it, and report `Dispatched`.
    Submit { account: usize, url: String, form: Vec<FormField> },
    /// Wait for every dispatched submission and report `Joined`.
    Join,
    /// The run is over.
    Finish { outcome: Result<(), RunError> },
}

/// An action as plain text.
pub enum ActionView {
    Fetch { url: Seq<char> },
    Generate { request: CompletionRequestView },
    Login { account: int, url: Seq<char>, form: Seq<(Seq<char>, Seq<char>)> },
    Submit { account: int, url: Seq<char>, form: Seq<(Seq<char>, Seq<char>)> },
    Join,
    Finish { outcome: Result<(), RunError> },
}

impl View for Action {
    type V = ActionView;

    open spec fn view(&self) -> ActionView {
        match self {
            Action::Fetch { url } => ActionView::Fetch { url: url@ },
            Action::Generate { request } => ActionView::Generate { request: request@ },
            Action::Login { account, url, form } => ActionView::Login {
                account: *account as int,
                url: url@,
                form: form_view(*form),
            },
            Action::Submit { account, url, form } => ActionView::Submit {
                account: *account as int,
                url: url@,
                form: form_view(*form),
            },
            Action::Join => ActionView::Join,
            Action::Finish { outcome } => ActionView::Finish { outcome: *outcome },
        }
    }
}

/// A run in progress.
#[derive(Debug, PartialEq, Eq)]
pub struct Run {
    /// The accounts to submit for, in order; an identifier may repeat.
    pub accounts: Vec<Account>,
    /// The exercises to solve, each once, in the order of their first request.
    pub exercises: Vec<String>,
    /// The solution of each exercise solved so far, in the order of `exercises`.
    pub solutions: Vec<String>,
    pub phase: Phase,
    /// How many accounts are through with their login and dispatches.
    pub account: usize,
    /// How many submissions were dispatched for the current account.
    pub pair: usize,
    /// Whether `Finish` was handed out.
    pub done: bool,
}

/// A run as plain values: the model that the contracts speak of.
pub struct RunView {
    pub accounts: Seq<AccountView>,
    pub exercises: Seq<Seq<char>>,
    pub solutions: Seq<Seq<char>>,
    pub phase: Phase,
    pub account: int,
    pub pair: int,
    pub done: bool,
}

impl View for Run {
    type V = RunView;

    open spec fn view(&self) -> RunView {
        RunView {
            accounts: views(self.accounts@),
            exercises: views(self.exercises@),
            solutions: views(self.solutions@),
            phase: self.phase,
            account: self.account as int,
            pair: self.pair as int,
            done: self.done,
        }
    }
}

/// The requested identifiers without repetitions, each at the place of its
/// first occurrence.
pub open spec fn distinct(requested: Seq<Seq<char>>) -> Seq<Seq<char>>
    decreases requested.len(),
{
    if requested.len() == 0 {
        Seq::empty()
    } else if distinct(requested.drop_last()).contains(requested.last()) {
        distinct(requested.drop_last())
    } else {
        distinct(requested.drop_last()).push(requested.last())
    }
}

impl RunView {
    /// The positions agree with the phase: while exercises are being solved
    /// no account has been touched, and once accounts are touched every
    /// exercise has its solution.
    pub open spec fn wf(self) -> bool {
        &&& self.exercises.no_duplicates()
        &&& self.solutions.len() <= self.exercises.len()
        &&& 0 <= self.account <= self.accounts.len()
        &&& 0 <= self.pair <= self.exercises.len()
        &&& match self.phase {
            Phase::Fetching | Phase::Generating => {
                &&& self.solutions.len() < self.exercises.len()
                &&& self.account == 0
                &&& self.pair == 0
            },
            Phase::LoggingIn => {
                &&& self.solved()
                &&& self.account < self.accounts.len()
                &&& self.pair == 0
            },
            Phase::Dispatching => {
                &&& self.solved()
                &&& self.account < self.accounts.len()
                &&& 1 <= self.pair
            },
            Phase::Joining => {
                &&& self.solved()
                &&& self.account == self.accounts.len()
                &&& self.pair == 0
            },
        }
    }

    /// Every exercise has its solution.
    pub open spec fn solved(self) -> bool {
        self.solutions.len() == self.exercises.len()
    }

    /// How many `Fetch` actions were handed out.
    pub open spec fn fetched(self) -> int {
        self.solutions.len() + if self.phase == Phase::Fetching || self.phase
            == Phase::Generating {
            1int
        } else {
            0int
        }
    }

    /// How many `Generate` actions were handed out.
    pub open spec fn generated(self) -> int {
        self.solutions.len() + if self.phase == Phase::Generating {
            1int
        } else {
            0int
        }
    }

    /// How many `Login` actions were handed out.
    pub open spec fn logins(self) -> int {
        self.account + if self.phase == Phase::LoggingIn || self.phase == Phase::Dispatching {
            1int
        } else {
            0int
        }
    }

    /// How many `Submit` actions were handed out.
    pub open spec fn submitted(self) -> int {
        self.account * self.exercises.len() + self.pair
    }

    /// Ends the run with this outcome.
    pub open spec fn finish(self, outcome: Result<(), RunError>) -> (RunView, ActionView) {
        (RunView { done: true, ..self }, ActionView::Finish { outcome })
    }

    /// Asks for the page of the next unsolved exercise, or turns to the
    /// accounts when none is left.
    pub open spec fn fetch_or_login(self) -> (RunView, ActionView) {
        if self.solutions.len() < self.exercises.len() {
            (
                RunView { phase: Phase::Fetching, ..self },
                ActionView::Fetch {
                    url: exercise_address(self.exercises[self.solutions.len() as int]),
                },
            )
        } else {
            self.login_or_join()
        }
    }

    /// Logs the current account in, or joins when no account is left.
    pub open spec fn login_or_join(self) -> (RunView, ActionView) {
        if self.account < self.accounts.len() {
            let account = self.accounts[self.account];
            (
                RunView { phase: Phase::LoggingIn, pair: 0, ..self },
                ActionView::Login {
                    account: self.account,
                    url: login_address(),
                    form: login_fields(account.id, account.credential),
                },
            )
        } else {
            (RunView { phase: Phase::Joining, pair: 0, ..self }, ActionView::Join)
        }
    }

    /// Dispatches the current account's next submission, or moves on to the
    /// next account when it has had them all.
    pub open spec fn submit_or_advance(self) -> (RunView, ActionView) {
        if self.pair < self.exercises.len() {
            (
                RunView { phase: Phase::Dispatching, pair: self.pair + 1, ..self },
                ActionView::Submit {
                    account: self.account,
                    url: submit_address(),
                    form: submit_fields(
                        self.exercises[self.pair],
                        self.solutions[self.pair],
                        self.accounts[self.account].id,
                    ),
                },
            )
        } else {
            (RunView { account: self.account + 1, pair: 0, ..self }).login_or_join()
        }
    }

    /// The state and the action after a page was read: the request for the
    /// exercise's solution, or the end of the run where the page was no
    /// exercise page or the run was not waiting for one.
    pub open spec fn after_page(self, outcome: Result<ExerciseView, ParseError>) -> (
        RunView,
        ActionView,
    ) {
        if self.done || self.phase != Phase::Fetching {
            self.finish(Err(RunError::UnexpectedEvent))
        } else {
            match outcome {
                Err(e) => self.finish(Err(RunError::Parse(e))),
                Ok(exercise) => (
                    RunView { phase: Phase::Generating, ..self },
                    ActionView::Generate { request: request_for(exercise) },
                ),
            }
        }
    }

    /// The state of a new run and its first action.
    pub open spec fn start(accounts: Seq<AccountView>, requested: Seq<Seq<char>>) -> (
        RunView,
        ActionView,
    ) {
        (RunView {
            accounts,
            exercises: distinct(requested),
            solutions: Seq::empty(),
            phase: Phase::Fetching,
            account: 0,
            pair: 0,
            done: false,
        }).fetch_or_login()
    }

    /// The state after an event, and the action that answers it.
    ///
    /// A failure ends the run at once. So does an event that the run was not
    /// waiting for, and any event after the end.
    pub open spec fn next(self, event: EventView) -> (RunView, ActionView) {
        if self.done {
            self.finish(Err(RunError::UnexpectedEvent))
        } else {
            match (self.phase, event) {
                (Phase::Fetching, EventView::PageFetched(markup)) => self.after_page(
                    extraction(markup),
                ),
                (Phase::Fetching, EventView::FetchFailed) => self.finish(Err(RunError::Fetch)),
                (Phase::Generating, EventView::Completed(completion)) => match chosen(
                    completion,
                ) {
                    Err(e) => self.finish(Err(RunError::Generation(e))),
                    Ok(code) => (RunView {
                        solutions: self.solutions.push(code),
                        ..self
                    }).fetch_or_login(),
                },
                (Phase::LoggingIn, EventView::LoggedIn) => self.submit_or_advance(),
                (Phase::LoggingIn, EventView::LoginFailed) => self.finish(Err(RunError::Auth)),
                (Phase::Dispatching, EventView::Dispatched) => self.submit_or_advance(),
                (Phase::Joining, EventView::Joined { failed }) => self.finish(
                    if failed == 0 {
                        Ok(())
                    } else {
                        Err(RunError::Submission)
                    },
                ),
                _ => self.finish(Err(RunError::UnexpectedEvent)),
            }
        }
    }
}

/// Whether the identifier is among those of the list.
pub fn holds(ids: &Vec<String>, id: &String) -> (r: bool)
    ensures
        r == views(ids@).contains(id@),
{
    let mut i: usize = 0;
    while i < ids.len()
        invariant
            i <= ids.len(),
            forall|k: int| 0 <= k < i ==> views(ids@)[k] != id@,
        decreases ids.len() - i,
    {
        if ids[i] == *id {
            assert(views(ids@)[i as int] == id@);
            return true;
        }
        i = i + 1;
    }
    false
}

/// The requested identifiers without repetitions, each at the place of its
/// first occurrence.
pub fn distinct_ids(requested: &Vec<String>) -> (r: Vec<String>)
    ensures
        views(r@) == distinct(views(requested@)),
{
    let mut out: Vec<String> = Vec::new();
    let mut i: usize = 0;
    assert(views(requested@).take(0) =~= Seq::<Seq<char>>::empty());
    assert(views(out@) =~= Seq::<Seq<char>>::empty());
    while i < requested.len()
        invariant
            i <= requested.len(),
            views(out@) == distinct(views(requested@).take(i as int)),
        decreases requested.len() - i,
    {
        let ghost before = views(out@);
        let ghost all = views(requested@);
        assert(all.take(i + 1).drop_last() =~= all.take(i as int));
        assert(all.take(i + 1).last() == requested@[i as int]@);
        if !holds(&out, &requested[i]) {
            out.push(requested[i].clone());
            assert(views(out@) =~= before.push(requested@[i as int]@));
        }
        i = i + 1;
    }
    assert(views(requested@).take(i as int) =~= views(requested@));
    out
}

/// Whether no identifier occurs twice in the list.
pub fn all_distinct(ids: &Vec<String>) -> (r: bool)
    ensures
        r == views(ids@).no_duplicates(),
{
    let mut i: usize = 0;
    while i < ids.len()
        invariant
            i <= ids.len(),
            forall|a: int, b: int| 0 <= a < b < i ==> views(ids@)[a] != views(ids@)[b],
        decreases ids.len() - i,
    {
        let mut j: usize = 0;
        while j < i
            invariant
                j <= i < ids.len(),
                forall|a: int| 0 <= a < j ==> views(ids@)[a] != views(ids@)[i as int],
            decreases i - j,
        {
            if ids[j] == ids[i] {
                assert(views(ids@)[j as int] == views(ids@)[i as int]);
                return false;
            }
            j = j + 1;
        }
        i = i + 1;
    }
    true
}

impl Run {
    /// Whether the positions agree with the phase and no exercise occurs
    /// twice: what `step` asks of a run. It holds of every run that `start`
    /// and `step` have made.
    pub fn is_well_formed(&self) -> (r: bool)
        ensures
            r == self@.wf(),
    {
        let n = self.accounts.len();
        let m = self.exercises.len();
        let solved = self.solutions.len() == m;
        let placed = match self.phase {
            Phase::Fetching | Phase::Generating => self.solutions.len() < m && self.account == 0
                && self.pair == 0,
            Phase::LoggingIn => solved && self.account < n && self.pair == 0,
            Phase::Dispatching => solved && self.account < n && 1 <= self.pair,
            Phase::Joining => solved && self.account == n && self.pair == 0,
        };
        placed && self.solutions.len() <= m && self.account <= n && self.pair <= m
            && all_distinct(&self.exercises)
    }

    fn finish(&mut self, outcome: Result<(), RunError>) -> (action: Action)
        ensures
            final(self)@ == old(self)@.finish(outcome).0,
            action@ == old(self)@.finish(outcome).1,
    {
        self.done = true;
        Action::Finish { outcome }
    }

    fn login_or_join(&mut self) -> (action: Action)
        requires
            old(self).account <= old(self).accounts.len(),
        ensures
            final(self)@ == old(self)@.login_or_join().0,
            action@ == old(self)@.login_or_join().1,
    {
        self.pair = 0;
        if self.account < self.accounts.len() {
            self.phase = Phase::LoggingIn;
            let account = &self.accounts[self.account];
            Action::Login {
                account: self.account,
                url: login_url(),
                form: login_form(account.id.as_str(), account.credential.as_str()),
            }
        } else {
            self.phase = Phase::Joining;
            Action::Join
        }
    }

    fn fetch_or_login(&mut self) -> (action: Action)
        requires
            old(self).account <= old(self).accounts.len(),
        ensures
            final(self)@ == old(self)@.fetch_or_login().0,
            action@ == old(self)@.fetch_or_login().1,
    {
        if self.solutions.len() < self.exercises.len() {
            self.phase = Phase::Fetching;
            Action::Fetch { url: exercise_url(self.exercises[self.solutions.len()].as_str()) }
        } else {
            self.login_or_join()
        }
    }

    fn submit_or_advance(&mut self) -> (action: Action)
        requires
            old(self).account < old(self).accounts.len(),
            old(self).solutions.len() == old(self).exercises.len(),
        ensures
            final(self)@ == old(self)@.submit_or_advance().0,
            action@ == old(self)@.submit_or_advance().1,
    {
        if self.pair < self.exercises.len() {
            let form = submit_form(
                self.exercises[self.pair].as_str(),
                self.solutions[self.pair].as_str(),
                self.accounts[self.account].id.as_str(),
            );
            let account = self.account;
            self.phase = Phase::Dispatching;
            self.pair = self.pair + 1;
            Action::Submit { account, url: submit_url(), form }
        } else {
            self.account = self.account + 1;
            self.pair = 0;
            self.login_or_join()
        }
    }

    /// Begins a run for these accounts and the requested exercises, and
    /// hands out its first action.
    pub fn start(accounts: Vec<Account>, requested: &Vec<String>) -> (r: (Run, Action))
        ensures
            r.0@ == RunView::start(views(accounts@), views(requested@)).0,
            r.1@ == RunView::start(views(accounts@), views(requested@)).1,
            r.0@.wf(),
    {
        proof {
            a_new_run_is_well_formed(views(accounts@), views(requested@));
        }
        let mut run = Run {
            accounts,
            exercises: distinct_ids(requested),
            solutions: Vec::new(),
            phase: Phase::Fetching,
            account: 0,
            pair: 0,
            done: false,
        };
        assert(run@.solutions =~= Seq::<Seq<char>>::empty());
        let action = run.fetch_or_login();
        (run, action)
    }

    /// Takes in what the fetched page was read as, and hands out the request
    /// for the exercise's solution or ends the run.
    pub fn page_read(&mut self, outcome: Result<Exercise, ParseError>) -> (action: Action)
        ensures
            final(self)@ == old(self)@.after_page(exercise_result_view(outcome)).0,
            action@ == old(self)@.after_page(exercise_result_view(outcome)).1,
            old(self)@.wf() ==> final(self)@.wf(),
    {
        if self.done || self.phase != Phase::Fetching {
            return self.finish(Err(RunError::UnexpectedEvent));
        }
        match outcome {
            Err(e) => self.finish(Err(RunError::Parse(e))),
            Ok(exercise) => {
                self.phase = Phase::Generating;
                Action::Generate { request: completion_request(&exercise) }
            },
        }
    }

    /// Takes in what happened to the last action and hands out the next one.
    pub fn step(&mut self, event: Event) -> (action: Action)
        requires
            old(self)@.wf(),
        ensures
            final(self)@ == old(self)@.next(event@).0,
            action@ == old(self)@.next(event@).1,
            final(self)@.wf(),
    {
        proof {
            a_step_keeps_the_run_well_formed(self@, event@);
        }
        if self.done {
            return self.finish(Err(RunError::UnexpectedEvent));
        }
        match (self.phase, event) {
            (Phase::Fetching, Event::PageFetched(markup)) => {
                self.page_read(extract_exercise(markup.as_str()))
            },
            (Phase::Fetching, Event::FetchFailed) => self.finish(Err(RunError::Fetch)),
            (Phase::Generating, Event::Completed(completion)) => {
                match solution_from(completion) {
                    Err(e) => self.finish(Err(RunError::Generation(e))),
                    Ok(code) => {
                        let ghost before = self@.solutions;
                        self.solutions.push(code);
                        assert(self@.solutions =~= before.push(code@));
                        self.fetch_or_login()
                    },
                }
            },
            (Phase::LoggingIn, Event::LoggedIn) => self.submit_or_advance(),
            (Phase::LoggingIn, Event::LoginFailed) => self.finish(Err(RunError::Auth)),
            (Phase::Dispatching, Event::Dispatched) => self.submit_or_advance(),
            (Phase::Joining, Event::Joined { failed }) => {
                if failed == 0 {
                    self.finish(Ok(()))
                } else {
                    self.finish(Err(RunError::Submission))
                }
            },
            _ => self.finish(Err(RunError::UnexpectedEvent)),
        }
    }
}

} // verus!
