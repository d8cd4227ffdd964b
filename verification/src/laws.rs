//! What holds of every run, whatever the network answers.

use vstd::prelude::*;
use vstd::arithmetic::div_mod::lemma_fundamental_div_mod_converse;
use crate::model::{AccountView, ExerciseView, ParseError, RunError};
use crate::page::{
    exercise_of, extraction, joined, node_text, skip_backward, skip_forward, starter_selector,
    statement_selector, trimmed, white_space, whole_text, within_white_space,
};
use crate::pipeline::{distinct, ActionView, EventView, Phase, RunView};
use crate::prompt::{chosen, CompletionView};
use crate::site::{exercise_address, submit_address, submit_fields};

verus! {

/// The state after a sequence of events, each answered in turn.
pub open spec fn state_after(v: RunView, events: Seq<EventView>) -> RunView
    decreases events.len(),
{
    if events.len() == 0 {
        v
    } else {
        state_after(v, events.drop_last()).next(events.last()).0
    }
}

/// The action that answers the last of a sequence of events.
pub open spec fn answer_to(v: RunView, events: Seq<EventView>) -> ActionView
    recommends
        events.len() > 0,
{
    state_after(v, events.drop_last()).next(events.last()).1
}

/// The network calls that a run asks for.
pub enum Call {
    Fetch,
    Generate,
    Login,
    Submit,
}

/// Whether the action asks for a call of this kind.
pub open spec fn asks_for(action: ActionView, call: Call) -> bool {
    match call {
        Call::Fetch => action is Fetch,
        Call::Generate => action is Generate,
        Call::Login => action is Login,
        Call::Submit => action is Submit,
    }
}

/// How many calls of this kind the state says were asked for so far.
pub open spec fn asked_so_far(v: RunView, call: Call) -> int {
    match call {
        Call::Fetch => v.fetched(),
        Call::Generate => v.generated(),
        Call::Login => v.logins(),
        Call::Submit => v.submitted(),
    }
}

/// How many of the answers to a sequence of events ask for a call of this kind.
pub open spec fn asked_in(v: RunView, events: Seq<EventView>, call: Call) -> int
    decreases events.len(),
{
    if events.len() == 0 {
        0
    } else {
        asked_in(v, events.drop_last(), call) + if asks_for(answer_to(v, events), call) {
            1int
        } else {
            0int
        }
    }
}

/// Scanning forward stops within the text, passes white space only, and
/// stops at a character that is none.
pub proof fn skip_forward_passes_white_space(s: Seq<char>, i: int)
    requires
        0 <= i <= s.len(),
    ensures
        i <= skip_forward(s, i) <= s.len(),
        forall|k: int| i <= k < skip_forward(s, i) ==> white_space(s[k]),
        skip_forward(s, i) < s.len() ==> !white_space(s[skip_forward(s, i)]),
    decreases s.len() - i,
{
    if i < s.len() && white_space(s[i]) {
        skip_forward_passes_white_space(s, i + 1);
    }
}

/// Scanning backward stops at or after the lower bound, passes white space
/// only, and stops behind a character that is none.
pub proof fn skip_backward_passes_white_space(s: Seq<char>, lo: int, hi: int)
    requires
        0 <= lo <= hi <= s.len(),
    ensures
        lo <= skip_backward(s, lo, hi) <= hi,
        forall|k: int| skip_backward(s, lo, hi) <= k < hi ==> white_space(s[k]),
        lo < skip_backward(s, lo, hi) ==> !white_space(s[skip_backward(s, lo, hi) - 1]),
    decreases hi - lo,
{
    if lo < hi && white_space(s[hi - 1]) {
        skip_backward_passes_white_space(s, lo, hi - 1);
    }
}

/// Trimming takes the one stretch of the text that has only white space
/// before it and after it and that, unless it is empty, neither begins nor
/// ends with white space.
pub proof fn trimmed_is_the_text_within_the_white_space(s: Seq<char>)
    ensures
        exists|i: int, j: int| within_white_space(s, i, j) && trimmed(s) == s.subrange(i, j),
{
    let i = skip_forward(s, 0);
    skip_forward_passes_white_space(s, 0);
    let j = skip_backward(s, i, s.len() as int);
    skip_backward_passes_white_space(s, i, s.len() as int);
    assert(within_white_space(s, i, j) && trimmed(s) == s.subrange(i, j));
}

/// Text that neither begins nor ends with white space is left as it is.
pub proof fn trimmed_keeps_text_without_outer_white_space(s: Seq<char>)
    requires
        s.len() > 0 ==> !white_space(s[0]) && !white_space(s[s.len() - 1]),
    ensures
        trimmed(s) == s,
{
    assert(s.subrange(0, s.len() as int) =~= s);
}

/// The exercises of a run are the requested ones, each of them once, and no
/// others.
pub proof fn distinct_holds_each_request_once(requested: Seq<Seq<char>>)
    ensures
        distinct(requested).no_duplicates(),
        distinct(requested).len() <= requested.len(),
        forall|id: Seq<char>| distinct(requested).contains(id) <==> requested.contains(id),
    decreases requested.len(),
{
    if requested.len() > 0 {
        let front = requested.drop_last();
        let last = requested.last();
        distinct_holds_each_request_once(front);
        let d = distinct(front);
        assert forall|id: Seq<char>| requested.contains(id) <==> (front.contains(id) || id
            == last) by {
            if requested.contains(id) {
                let i = choose|i: int| 0 <= i < requested.len() && requested[i] == id;
                if i < front.len() {
                    assert(front[i] == id);
                }
            }
            if front.contains(id) {
                let i = choose|i: int| 0 <= i < front.len() && front[i] == id;
                assert(requested[i] == id);
            }
            if id == last {
                assert(requested[requested.len() - 1] == id);
            }
        }
        if !d.contains(last) {
            let e = d.push(last);
            assert forall|id: Seq<char>| e.contains(id) <==> (d.contains(id) || id == last) by {
                if e.contains(id) {
                    let i = choose|i: int| 0 <= i < e.len() && e[i] == id;
                    if i < d.len() {
                        assert(d[i] == id);
                    }
                }
                if d.contains(id) {
                    let i = choose|i: int| 0 <= i < d.len() && d[i] == id;
                    assert(e[i] == id);
                }
                if id == last {
                    assert(e[e.len() - 1] == id);
                }
            }
            assert forall|i: int, j: int| 0 <= i < e.len() && 0 <= j < e.len() && i != j implies e[i]
                != e[j] by {
                if i < d.len() && j < d.len() {
                } else if i < d.len() {
                    assert(d.contains(d[i]));
                } else {
                    assert(d.contains(d[j]));
                }
            }
        }
    }
}

/// A list without repetitions is its own list of distinct identifiers.
pub proof fn distinct_keeps_a_list_without_repetitions(ids: Seq<Seq<char>>)
    requires
        ids.no_duplicates(),
    ensures
        distinct(ids) == ids,
    decreases ids.len(),
{
    if ids.len() > 0 {
        let front = ids.drop_last();
        distinct_keeps_a_list_without_repetitions(front);
        if front.contains(ids.last()) {
            let i = choose|i: int| 0 <= i < front.len() && front[i] == ids.last();
            assert(ids[i] == ids[ids.len() - 1]);
        }
        assert(front.push(ids.last()) =~= ids);
    } else {
        assert(distinct(ids) =~= ids);
    }
}

/// A new run is well formed, holds the accounts as given and the requested
/// exercises each once, has no solution yet, and has asked for its first
/// action and nothing else.
pub proof fn a_new_run_is_well_formed(accounts: Seq<AccountView>, requested: Seq<Seq<char>>)
    ensures
        RunView::start(accounts, requested).0.wf(),
        !RunView::start(accounts, requested).0.done,
        RunView::start(accounts, requested).0.accounts == accounts,
        RunView::start(accounts, requested).0.exercises == distinct(requested),
        RunView::start(accounts, requested).0.solutions.len() == 0,
        RunView::start(accounts, requested).0.fetched() == if RunView::start(
            accounts,
            requested,
        ).1 is Fetch {
            1int
        } else {
            0int
        },
        RunView::start(accounts, requested).0.generated() == 0,
        RunView::start(accounts, requested).0.logins() == if RunView::start(
            accounts,
            requested,
        ).1 is Login {
            1int
        } else {
            0int
        },
        RunView::start(accounts, requested).0.submitted() == 0,
        !(RunView::start(accounts, requested).1 is Generate),
        !(RunView::start(accounts, requested).1 is Submit),
        !(RunView::start(accounts, requested).1 is Finish),
{
    distinct_holds_each_request_once(requested);
}

/// A step keeps a run well formed and never changes its accounts, its
/// exercises, or a solution that was recorded.
pub proof fn a_step_keeps_the_run_well_formed(v: RunView, event: EventView)
    requires
        v.wf(),
    ensures
        v.next(event).0.wf(),
        v.next(event).0.accounts == v.accounts,
        v.next(event).0.exercises == v.exercises,
        v.solutions.len() <= v.next(event).0.solutions.len() <= v.solutions.len() + 1,
        forall|i: int| 0 <= i < v.solutions.len() ==> v.next(event).0.solutions[i] == v.solutions[i],
        v.done ==> v.next(event).0.done,
{
}

/// Every exercise is fetched once and its solution generated once, however
/// many accounts there are: each `Fetch` and each `Generate` is counted, the
/// fetch numbered `k` is for the exercise numbered `k`, a generation follows
/// the fetch of its exercise, and neither count exceeds the number of
/// distinct exercises.
pub proof fn each_exercise_is_solved_once(v: RunView, event: EventView)
    requires
        v.wf(),
    ensures
        v.next(event).0.fetched() == v.fetched() + if v.next(event).1 is Fetch {
            1int
        } else {
            0int
        },
        v.next(event).0.generated() == v.generated() + if v.next(event).1 is Generate {
            1int
        } else {
            0int
        },
        v.next(event).1 matches ActionView::Fetch { url } ==> url == exercise_address(
            v.exercises[v.next(event).0.fetched() - 1],
        ),
        v.next(event).1 is Generate ==> v.next(event).0.generated() == v.next(event).0.fetched(),
        0 <= v.generated() <= v.fetched() <= v.exercises.len(),
{
}

/// No account is touched before every exercise has its solution, and once
/// one is touched the run never fetches or generates again.
pub proof fn submission_waits_for_every_solution(v: RunView, event: EventView)
    requires
        v.wf(),
    ensures
        (v.logins() > 0 || v.submitted() > 0 || v.phase == Phase::Joining) ==> v.solved(),
        (v.next(event).1 is Login || v.next(event).1 is Submit || v.next(event).1 is Join)
            ==> v.next(event).0.solved() && v.next(event).0.generated() == v.exercises.len(),
        v.solved() ==> !(v.next(event).1 is Fetch) && !(v.next(event).1 is Generate)
            && v.next(event).0.solved(),
{
}

/// Every login and every submission is counted, an account is logged in
/// before anything is submitted for it, and the submission numbered `k`
/// (from 0) is that of account `k / M` for exercise `k % M`, where `M` is
/// the number of exercises: it carries that exercise's identifier, its
/// recorded solution and that account's identifier.
pub proof fn each_pair_is_submitted_once(v: RunView, event: EventView)
    requires
        v.wf(),
    ensures
        v.next(event).0.logins() == v.logins() + if v.next(event).1 is Login {
            1int
        } else {
            0int
        },
        v.next(event).0.submitted() == v.submitted() + if v.next(event).1 is Submit {
            1int
        } else {
            0int
        },
        v.next(event).1 matches ActionView::Login { account, .. } ==> account == v.next(
            event,
        ).0.logins() - 1,
        v.next(event).1 matches ActionView::Submit { account, url, form } ==> {
            let k = v.submitted();
            let m = v.exercises.len() as int;
            &&& m > 0
            &&& account == k / m
            &&& account == v.next(event).0.logins() - 1
            &&& 0 <= account < v.accounts.len()
            &&& url == submit_address()
            &&& form == submit_fields(
                v.exercises[k % m],
                v.solutions[k % m],
                v.accounts[account].id,
            )
        },
        0 <= v.submitted() <= v.logins() * v.exercises.len(),
        v.logins() <= v.accounts.len(),
{
    let m = v.exercises.len() as int;
    let a = v.account;
    assert((a + 1) * m == a * m + m) by (nonlinear_arith);
    if v.next(event).1 is Submit {
        lemma_fundamental_div_mod_converse(v.submitted(), m, a, v.pair);
    }
}

/// A run that ends well has logged every account in once and has submitted
/// every solution for every account: `N` logins and `N * M` submissions.
pub proof fn a_finished_run_has_submitted_every_pair(v: RunView, event: EventView)
    requires
        v.wf(),
        v.next(event).1 == (ActionView::Finish { outcome: Ok(()) }),
    ensures
        v.next(event).0.solved(),
        v.next(event).0.fetched() == v.exercises.len(),
        v.next(event).0.generated() == v.exercises.len(),
        v.next(event).0.logins() == v.accounts.len(),
        v.next(event).0.submitted() == v.accounts.len() * v.exercises.len(),
{
}

/// After the end nothing is asked for any more: every further event is
/// answered with the end, and the state stays as it is.
pub proof fn nothing_follows_the_end(v: RunView, events: Seq<EventView>)
    requires
        v.done,
    ensures
        state_after(v, events) == v,
        events.len() > 0 ==> answer_to(v, events) == (ActionView::Finish {
            outcome: Err(RunError::UnexpectedEvent),
        }),
    decreases events.len(),
{
    if events.len() > 0 {
        nothing_follows_the_end(v, events.drop_last());
    }
}

/// A selection gives no text exactly where the selector was not accepted or
/// nothing matched; a match always has a text, the whole of its text nodes.
pub proof fn a_match_always_has_a_text(found: Option<Seq<Seq<Seq<char>>>>)
    ensures
        whole_text(found) is None <==> (found is None || found->Some_0.len() == 0),
        whole_text(found) matches Some(text) ==> text == trimmed(joined(found->Some_0[0])),
{
}

/// The text of a node with one text node is that text node, trimmed.
pub proof fn joined_single_text_is_itself(text: Seq<char>)
    ensures
        joined(seq![text]) == text,
{
    let one = seq![text];
    assert(one.drop_last() =~= Seq::<Seq<char>>::empty());
    assert(joined(one.drop_last()) =~= Seq::<char>::empty());
    assert(Seq::<char>::empty() + text =~= text);
}

/// Joining goes through the texts in order: the texts of two lists, one
/// after the other, join to the two joined texts, one after the other.
pub proof fn joined_follows_the_order(first: Seq<Seq<char>>, second: Seq<Seq<char>>)
    ensures
        joined(first + second) == joined(first) + joined(second),
    decreases second.len(),
{
    if second.len() == 0 {
        assert(first + second =~= first);
        assert(joined(first) + joined(second) =~= joined(first));
    } else {
        joined_follows_the_order(first, second.drop_last());
        assert((first + second).drop_last() =~= first + second.drop_last());
        assert((first + second).last() == second.last());
        assert(joined(first) + (joined(second.drop_last()) + second.last()) =~= (joined(first)
            + joined(second.drop_last())) + second.last());
    }
}

/// A page is no exercise page exactly where one of its two nodes is not
/// found, and the statement is the one that is named where both are not.
pub proof fn a_missing_node_is_a_parse_error(markup: Seq<char>)
    ensures
        node_text(markup, statement_selector()) is None ==> extraction(markup) == Err::<
            ExerciseView,
            ParseError,
        >(ParseError::MissingStatement),
        node_text(markup, statement_selector()) is Some && node_text(
            markup,
            starter_selector(),
        ) is None ==> extraction(markup) == Err::<ExerciseView, ParseError>(
            ParseError::MissingStarterCode,
        ),
        node_text(markup, statement_selector()) is Some && node_text(
            markup,
            starter_selector(),
        ) is Some ==> extraction(markup) is Ok,
{
}

/// A page that was read as no exercise page ends the run with the parse
/// error, and no completion is asked for and nothing is submitted, then or
/// later.
pub proof fn a_page_that_is_no_exercise_ends_the_run(
    v: RunView,
    outcome: Result<ExerciseView, ParseError>,
    later: Seq<EventView>,
)
    requires
        v.wf(),
        !v.done,
        v.phase == Phase::Fetching,
        outcome is Err,
    ensures
        v.after_page(outcome).1 == (ActionView::Finish {
            outcome: Err(RunError::Parse(outcome->Err_0)),
        }),
        state_after(v.after_page(outcome).0, later).generated() == v.solutions.len(),
        state_after(v.after_page(outcome).0, later).logins() == 0,
        state_after(v.after_page(outcome).0, later).submitted() == 0,
        later.len() > 0 ==> answer_to(v.after_page(outcome).0, later) is Finish,
{
    nothing_follows_the_end(v.after_page(outcome).0, later);
    assert(0 * v.exercises.len() == 0);
}

/// A page without its statement or its starter code ends the run with the
/// parse error, and no completion is asked for and nothing is submitted,
/// then or later.
pub proof fn a_page_without_its_nodes_ends_the_run(
    v: RunView,
    markup: Seq<char>,
    later: Seq<EventView>,
)
    requires
        v.wf(),
        !v.done,
        v.phase == Phase::Fetching,
        extraction(markup) is Err,
    ensures
        v.next(EventView::PageFetched(markup)).1 == (ActionView::Finish {
            outcome: Err(RunError::Parse(extraction(markup)->Err_0)),
        }),
        state_after(v.next(EventView::PageFetched(markup)).0, later).generated()
            == v.solutions.len(),
        state_after(v.next(EventView::PageFetched(markup)).0, later).logins() == 0,
        state_after(v.next(EventView::PageFetched(markup)).0, later).submitted() == 0,
        later.len() > 0 ==> answer_to(v.next(EventView::PageFetched(markup)).0, later) is Finish,
{
    a_page_that_is_no_exercise_ends_the_run(v, extraction(markup), later);
}

/// A completion that fails, cannot be decoded or holds no choice ends the
/// run with the generation error, and nothing is submitted for any account,
/// then or later.
pub proof fn a_failed_completion_ends_the_run(
    v: RunView,
    completion: CompletionView,
    later: Seq<EventView>,
)
    requires
        v.wf(),
        !v.done,
        v.phase == Phase::Generating,
        chosen(completion) is Err,
    ensures
        v.next(EventView::Completed(completion)).1 == (ActionView::Finish {
            outcome: Err(RunError::Generation(chosen(completion)->Err_0)),
        }),
        state_after(v.next(EventView::Completed(completion)).0, later).solutions == v.solutions,
        state_after(v.next(EventView::Completed(completion)).0, later).logins() == 0,
        state_after(v.next(EventView::Completed(completion)).0, later).submitted() == 0,
        later.len() > 0 ==> answer_to(v.next(EventView::Completed(completion)).0, later) is Finish,
{
    nothing_follows_the_end(v.next(EventView::Completed(completion)).0, later);
    assert(0 * v.exercises.len() == 0);
}

/// Whatever the events are, a run stays well formed and its counts of
/// fetches, generations, logins and submissions never go down.
pub proof fn counts_never_go_down(v: RunView, events: Seq<EventView>)
    requires
        v.wf(),
    ensures
        state_after(v, events).wf(),
        state_after(v, events).accounts == v.accounts,
        state_after(v, events).exercises == v.exercises,
        v.fetched() <= state_after(v, events).fetched() <= v.exercises.len(),
        v.generated() <= state_after(v, events).generated() <= v.exercises.len(),
        v.logins() <= state_after(v, events).logins() <= v.accounts.len(),
        v.submitted() <= state_after(v, events).submitted() <= v.accounts.len()
            * v.exercises.len(),
    decreases events.len(),
{
    let n = v.accounts.len() as int;
    let m = v.exercises.len() as int;
    if events.len() > 0 {
        counts_never_go_down(v, events.drop_last());
        let mid = state_after(v, events.drop_last());
        a_step_keeps_the_run_well_formed(mid, events.last());
        each_exercise_is_solved_once(mid, events.last());
        each_pair_is_submitted_once(mid, events.last());
    }
    let end = state_after(v, events);
    each_exercise_is_solved_once(end, EventView::FetchFailed);
    each_pair_is_submitted_once(end, EventView::FetchFailed);
    let l = end.logins();
    assert(0 <= l <= n && m >= 0 ==> l * m <= n * m) by (nonlinear_arith);
}

/// The counts that a state keeps are the calls that were asked for: after
/// any events, each count has grown by the number of answers that asked for
/// a call of its kind.
pub proof fn counts_are_the_calls_asked_for(v: RunView, events: Seq<EventView>, call: Call)
    requires
        v.wf(),
    ensures
        asked_so_far(state_after(v, events), call) == asked_so_far(v, call) + asked_in(
            v,
            events,
            call,
        ),
        asked_in(v, events, call) >= 0,
    decreases events.len(),
{
    if events.len() > 0 {
        counts_are_the_calls_asked_for(v, events.drop_last(), call);
        counts_never_go_down(v, events.drop_last());
        let mid = state_after(v, events.drop_last());
        each_exercise_is_solved_once(mid, events.last());
        each_pair_is_submitted_once(mid, events.last());
    }
}

/// Once every exercise has its solution, no events make the run fetch or
/// generate again.
pub proof fn solving_is_over_before_submission(v: RunView, events: Seq<EventView>)
    requires
        v.wf(),
        v.solved(),
    ensures
        asked_in(v, events, Call::Fetch) == 0,
        asked_in(v, events, Call::Generate) == 0,
{
    counts_are_the_calls_asked_for(v, events, Call::Fetch);
    counts_are_the_calls_asked_for(v, events, Call::Generate);
    counts_never_go_down(v, events);
}

/// A run of `N` accounts and `M` distinct exercises that ends well has, from
/// its start to its end, asked for `M` fetches, `M` generations, `N` logins
/// and `N * M` submissions. The first action counts with the answers.
pub proof fn a_run_that_ends_well_made_every_call_once(
    accounts: Seq<AccountView>,
    requested: Seq<Seq<char>>,
    events: Seq<EventView>,
    call: Call,
)
    requires
        events.len() > 0,
        answer_to(RunView::start(accounts, requested).0, events) == (ActionView::Finish {
            outcome: Ok(()),
        }),
    ensures
        asked_in(RunView::start(accounts, requested).0, events, call) + if asks_for(
            RunView::start(accounts, requested).1,
            call,
        ) {
            1int
        } else {
            0int
        } == match call {
            Call::Fetch => distinct(requested).len() as int,
            Call::Generate => distinct(requested).len() as int,
            Call::Login => accounts.len() as int,
            Call::Submit => (accounts.len() * distinct(requested).len()) as int,
        },
{
    let v = RunView::start(accounts, requested).0;
    a_new_run_is_well_formed(accounts, requested);
    counts_never_go_down(v, events.drop_last());
    counts_are_the_calls_asked_for(v, events, call);
    a_finished_run_has_submitted_every_pair(state_after(v, events.drop_last()), events.last());
}

} // verus!
