//! What holds of every lane: the laws of the judging engine, stated over what
//! an observer of a lane sees and proved from the step function.

use crate::judge::execution::report_of;
use crate::judge::execution::timeout_marker;
use crate::judge::execution::RunOutcomeView;
use crate::judge::execution::TIMEOUT_EXIT_CODE;
use crate::judge::lane::first_attempt;
use crate::judge::lane::initial_state;
use crate::judge::lane::no_test_cases_message;
use crate::judge::lane::step_of;
use crate::judge::lane::system_error_message;
use crate::judge::lane::unsupported_message;
use crate::judge::lane::Attempts;
use crate::judge::lane::LaneActionView;
use crate::judge::lane::LaneEventView;
use crate::judge::lane::LaneState;
use crate::judge::verdict::attempt_entry;
use crate::judge::verdict::failure_entry;
use crate::judge::verdict::failure_message;
use crate::judge::verdict::failure_update;
use crate::judge::verdict::final_update;
use crate::judge::verdict::folded;
use crate::judge::verdict::verdict_of;
use crate::judge::verdict::StatusUpdateView;
use crate::models::judge::config_of;
use crate::models::judge::ExecutionLogEntry;
use crate::models::language::LanguageView;
use crate::models::submission::SubmissionStatus;
use crate::models::submission::SubmissionView;
use crate::models::test_case::TestCaseView;
use crate::text::occurs_at;
use uuid::Uuid;
use vstd::prelude::*;

verus! {

/// What an observer of a lane has seen so far: the state of the lane, the
/// records it asked to append to the execution trail, the inputs it asked the
/// run stage to run, and the status writes it asked for, each in order.
pub struct History {
    pub state: LaneState,
    pub records: Seq<ExecutionLogEntry>,
    pub runs: Seq<Seq<char>>,
    pub status_writes: Seq<StatusUpdateView>,
}

/// The history of a lane that has just been started.
pub open spec fn started(submission_id: Uuid) -> History {
    History {
        state: initial_state(submission_id),
        records: Seq::empty(),
        runs: Seq::empty(),
        status_writes: Seq::empty(),
    }
}

/// The history after one more event.
pub open spec fn observed(history: History, event: LaneEventView) -> History {
    let (state, action) = step_of(history.state, event);
    History {
        state,
        records: match action {
            LaneActionView::RecordLog(entry) => history.records.push(entry),
            _ => history.records,
        },
        runs: match action {
            LaneActionView::Run { input, .. } => history.runs.push(input),
            _ => history.runs,
        },
        status_writes: match action {
            LaneActionView::UpdateStatus(update) => history.status_writes.push(update),
            _ => history.status_writes,
        },
    }
}

/// The history after a sequence of events.
pub open spec fn observed_all(history: History, events: Seq<LaneEventView>) -> History
    decreases events.len(),
{
    if events.len() == 0 {
        history
    } else {
        observed_all(observed(history, events.first()), events.drop_first())
    }
}

/// The events of a run of attempts whose records are all written: for each
/// outcome, the run stage ends with it and the record is appended.
pub open spec fn attempt_events(outcomes: Seq<RunOutcomeView>) -> Seq<LaneEventView>
    decreases outcomes.len(),
{
    if outcomes.len() == 0 {
        Seq::empty()
    } else {
        seq![LaneEventView::Ran(outcomes.first()), LaneEventView::LogRecorded] + attempt_events(
            outcomes.drop_first(),
        )
    }
}

/// The events that bring a lane to its first attempt: the submission is
/// found, its language is known, the problem has the given test cases, the
/// language is found, and the compile stage succeeds.
pub open spec fn judging_events(
    submission: SubmissionView,
    test_cases: Seq<TestCaseView>,
    language: LanguageView,
    compiler_output: Seq<char>,
) -> Seq<LaneEventView> {
    seq![
        LaneEventView::SubmissionLoaded(Some(submission)),
        LaneEventView::LanguageChecked(true),
        LaneEventView::TestCasesLoaded(test_cases),
        LaneEventView::LanguageLoaded(Some(language)),
        LaneEventView::Compiled { succeeded: true, stderr: compiler_output },
    ]
}

/// The inputs of the first `count` test cases, in order.
pub open spec fn first_inputs(test_cases: Seq<TestCaseView>, count: nat) -> Seq<Seq<char>> {
    Seq::new(count, |i: int| test_cases[i].input_data)
}

/// Observing `first` and then `rest` is observing `first` followed by `rest`.
pub proof fn lemma_observed_then(
    history: History,
    first: Seq<LaneEventView>,
    rest: Seq<LaneEventView>,
)
    ensures
        observed_all(history, first + rest) == observed_all(observed_all(history, first), rest),
    decreases first.len(),
{
    if first.len() == 0 {
        assert(first + rest =~= rest);
    } else {
        assert((first + rest).first() == first.first());
        assert((first + rest).drop_first() =~= first.drop_first() + rest);
        lemma_observed_then(observed(history, first.first()), first.drop_first(), rest);
    }
}

/// Observing one event and then `rest`.
pub proof fn lemma_observed_first(history: History, event: LaneEventView, rest: Seq<LaneEventView>)
    ensures
        observed_all(history, seq![event] + rest) == observed_all(observed(history, event), rest),
{
    let events = seq![event] + rest;
    assert(events.first() == event);
    assert(events.drop_first() =~= rest);
}

/// Once a lane waits for its last status write, or has ended, it asks for
/// no record, no run and no status write any more.
pub proof fn lemma_winding_down(history: History, events: Seq<LaneEventView>)
    requires
        history.state is AwaitingStatus || history.state is Finished,
    ensures
        observed_all(history, events).records == history.records,
        observed_all(history, events).runs == history.runs,
        observed_all(history, events).status_writes == history.status_writes,
        events.len() > 0 ==> observed_all(history, events).state is Finished,
    decreases events.len(),
{
    if events.len() > 0 {
        let next = observed(history, events.first());
        assert(next.state is Finished);
        lemma_winding_down(next, events.drop_first());
        if events.drop_first().len() == 0 {
            assert(observed_all(next, events.drop_first()) == next);
        }
    }
}

/// Once the record of a failure before any attempt is under way, the lane
/// asks for no further record and no run, and for one status write, a
/// runtime error with the message of the failure, as soon as the record is
/// written.
pub proof fn lemma_after_refusal(
    history: History,
    submission_id: Uuid,
    message: Seq<char>,
    events: Seq<LaneEventView>,
)
    requires
        history.state == (LaneState::AwaitingFailureLog { submission_id, message }),
    ensures
        observed_all(history, events).records == history.records,
        observed_all(history, events).runs == history.runs,
        observed_all(history, events).status_writes == if events.len() > 0 && events[0]
            is LogRecorded {
            history.status_writes.push(failure_update(submission_id, message))
        } else {
            history.status_writes
        },
{
    if events.len() > 0 {
        let next = observed(history, events.first());
        lemma_winding_down(next, events.drop_first());
    }
}

/// What is seen of a lane that refused to judge: the one record of the
/// refusal, no run, and the status write once the record is written.
pub open spec fn refused_history(
    submission_id: Uuid,
    language: Seq<char>,
    message: Seq<char>,
    written: bool,
) -> (Seq<ExecutionLogEntry>, Seq<Seq<char>>, Seq<StatusUpdateView>) {
    (
        seq![failure_entry(submission_id, language, message)],
        Seq::empty(),
        if written {
            seq![failure_update(submission_id, message)]
        } else {
            Seq::empty()
        },
    )
}

/// Unsupported language, as the language check reports it. For every
/// submission and whatever happens afterwards: exactly one record is appended
/// to the execution trail, a runtime error that names the language; no test
/// case is run; and the only status written, once the record is appended, is
/// a runtime error with the same message.
pub proof fn law_unsupported_language(
    submission_id: Uuid,
    submission: SubmissionView,
    rest: Seq<LaneEventView>,
)
    ensures
        ({
            let events = seq![
                LaneEventView::SubmissionLoaded(Some(submission)),
                LaneEventView::LanguageChecked(false),
            ] + rest;
            let seen = observed_all(started(submission_id), events);
            (seen.records, seen.runs, seen.status_writes) == refused_history(
                submission_id,
                submission.language_id,
                unsupported_message(submission.language_id),
                rest.len() > 0 && rest[0] is LogRecorded,
            )
        }),
{
    let first = seq![
        LaneEventView::SubmissionLoaded(Some(submission)),
        LaneEventView::LanguageChecked(false),
    ];
    let h0 = started(submission_id);
    let h1 = observed(h0, first[0]);
    let h2 = observed(h1, first[1]);
    assert(observed_all(h0, first) == h2) by {
        lemma_observed_first(h0, first[0], seq![first[1]]);
        assert(seq![first[0]] + seq![first[1]] =~= first);
        lemma_observed_first(h1, first[1], Seq::empty());
        assert(seq![first[1]] + Seq::<LaneEventView>::empty() =~= seq![first[1]]);
    }
    lemma_observed_then(h0, first, rest);
    let message = unsupported_message(submission.language_id);
    lemma_after_refusal(h2, submission_id, message, rest);
    assert(h2.records =~= seq![failure_entry(submission_id, submission.language_id, message)]);
    assert(h2.status_writes.push(failure_update(submission_id, message)) =~= seq![
        failure_update(submission_id, message),
    ]);
}

/// Unsupported language, as the lookup of the language reports it after the
/// check let it pass. The same holds as where the check reports it: one
/// record, no run, and a runtime error as the only status.
pub proof fn law_unknown_language(
    submission_id: Uuid,
    submission: SubmissionView,
    test_cases: Seq<TestCaseView>,
    rest: Seq<LaneEventView>,
)
    requires
        test_cases.len() > 0,
    ensures
        ({
            let events = seq![
                LaneEventView::SubmissionLoaded(Some(submission)),
                LaneEventView::LanguageChecked(true),
                LaneEventView::TestCasesLoaded(test_cases),
                LaneEventView::LanguageLoaded(None),
            ] + rest;
            let seen = observed_all(started(submission_id), events);
            (seen.records, seen.runs, seen.status_writes) == refused_history(
                submission_id,
                submission.language_id,
                unsupported_message(submission.language_id),
                rest.len() > 0 && rest[0] is LogRecorded,
            )
        }),
{
    let first = seq![
        LaneEventView::SubmissionLoaded(Some(submission)),
        LaneEventView::LanguageChecked(true),
        LaneEventView::TestCasesLoaded(test_cases),
        LaneEventView::LanguageLoaded(None),
    ];
    let h0 = started(submission_id);
    let h1 = observed(h0, first[0]);
    let h2 = observed(h1, first[1]);
    let h3 = observed(h2, first[2]);
    let h4 = observed(h3, first[3]);
    assert(observed_all(h0, first) == h4) by {
        lemma_observed_first(h0, first[0], first.subrange(1, 4));
        assert(seq![first[0]] + first.subrange(1, 4) =~= first);
        lemma_observed_first(h1, first[1], first.subrange(2, 4));
        assert(seq![first[1]] + first.subrange(2, 4) =~= first.subrange(1, 4));
        lemma_observed_first(h2, first[2], first.subrange(3, 4));
        assert(seq![first[2]] + first.subrange(3, 4) =~= first.subrange(2, 4));
        lemma_observed_first(h3, first[3], Seq::empty());
        assert(seq![first[3]] + Seq::<LaneEventView>::empty() =~= first.subrange(3, 4));
    }
    lemma_observed_then(h0, first, rest);
    let message = unsupported_message(submission.language_id);
    lemma_after_refusal(h4, submission_id, message, rest);
    assert(h4.records =~= seq![failure_entry(submission_id, submission.language_id, message)]);
    assert(h4.status_writes.push(failure_update(submission_id, message)) =~= seq![
        failure_update(submission_id, message),
    ]);
}

/// No test cases. For every submission on a problem without test cases and
/// whatever happens afterwards: exactly one record is appended, a runtime
/// error whose message says that no test cases were found; the run stage is
/// never asked for anything; and the only status written, once the record is
/// appended, is a runtime error with the same message.
pub proof fn law_no_test_cases(
    submission_id: Uuid,
    submission: SubmissionView,
    rest: Seq<LaneEventView>,
)
    ensures
        ({
            let events = seq![
                LaneEventView::SubmissionLoaded(Some(submission)),
                LaneEventView::LanguageChecked(true),
                LaneEventView::TestCasesLoaded(Seq::empty()),
            ] + rest;
            let seen = observed_all(started(submission_id), events);
            (seen.records, seen.runs, seen.status_writes) == refused_history(
                submission_id,
                submission.language_id,
                no_test_cases_message(),
                rest.len() > 0 && rest[0] is LogRecorded,
            )
        }),
{
    let first = seq![
        LaneEventView::SubmissionLoaded(Some(submission)),
        LaneEventView::LanguageChecked(true),
        LaneEventView::TestCasesLoaded(Seq::empty()),
    ];
    let h0 = started(submission_id);
    let h1 = observed(h0, first[0]);
    let h2 = observed(h1, first[1]);
    let h3 = observed(h2, first[2]);
    assert(observed_all(h0, first) == h3) by {
        lemma_observed_first(h0, first[0], first.subrange(1, 3));
        assert(seq![first[0]] + first.subrange(1, 3) =~= first);
        lemma_observed_first(h1, first[1], first.subrange(2, 3));
        assert(seq![first[1]] + first.subrange(2, 3) =~= first.subrange(1, 3));
        lemma_observed_first(h2, first[2], Seq::empty());
        assert(seq![first[2]] + Seq::<LaneEventView>::empty() =~= first.subrange(2, 3));
    }
    lemma_observed_then(h0, first, rest);
    let message = no_test_cases_message();
    lemma_after_refusal(h3, submission_id, message, rest);
    assert(h3.records =~= seq![failure_entry(submission_id, submission.language_id, message)]);
    assert(h3.status_writes.push(failure_update(submission_id, message)) =~= seq![
        failure_update(submission_id, message),
    ]);
}

/// The events of `judging_events` bring a lane from its start to its first
/// attempt: nothing is recorded or written yet, and the first test case is
/// the only one that the run stage was asked to run.
pub proof fn lemma_judging_begins(
    submission_id: Uuid,
    submission: SubmissionView,
    test_cases: Seq<TestCaseView>,
    language: LanguageView,
    compiler_output: Seq<char>,
)
    requires
        test_cases.len() > 0,
    ensures
        ({
            let seen = observed_all(
                started(submission_id),
                judging_events(submission, test_cases, language, compiler_output),
            );
            &&& seen.state == (LaneState::AwaitingRun {
                run: first_attempt(submission_id, submission, test_cases, language),
            })
            &&& seen.records == Seq::<ExecutionLogEntry>::empty()
            &&& seen.runs == first_inputs(test_cases, 1)
            &&& seen.status_writes == Seq::<StatusUpdateView>::empty()
        }),
{
    let first = judging_events(submission, test_cases, language, compiler_output);
    let h0 = started(submission_id);
    let h1 = observed(h0, first[0]);
    let h2 = observed(h1, first[1]);
    let h3 = observed(h2, first[2]);
    let h4 = observed(h3, first[3]);
    let h5 = observed(h4, first[4]);
    assert(observed_all(h0, first) == h5) by {
        lemma_observed_first(h0, first[0], first.subrange(1, 5));
        assert(seq![first[0]] + first.subrange(1, 5) =~= first);
        lemma_observed_first(h1, first[1], first.subrange(2, 5));
        assert(seq![first[1]] + first.subrange(2, 5) =~= first.subrange(1, 5));
        lemma_observed_first(h2, first[2], first.subrange(3, 5));
        assert(seq![first[2]] + first.subrange(3, 5) =~= first.subrange(2, 5));
        lemma_observed_first(h3, first[3], first.subrange(4, 5));
        assert(seq![first[3]] + first.subrange(4, 5) =~= first.subrange(3, 5));
        lemma_observed_first(h4, first[4], Seq::empty());
        assert(seq![first[4]] + Seq::<LaneEventView>::empty() =~= first.subrange(4, 5));
    }
    assert(h5.runs =~= first_inputs(test_cases, 1));
}

/// The record that the attempt on test case `index` leaves, given the
/// outcome of the run stage.
pub open spec fn record_of(run: Attempts, index: int, outcome: RunOutcomeView) -> ExecutionLogEntry {
    let out = report_of(outcome, run.time_limit);
    attempt_entry(
        run.submission_id,
        run.language,
        (index + 1) as nat,
        verdict_of(run.test_cases[index].expected_output, out),
        out,
    )
}

/// The records that attempts on the test cases from `run.next` on leave,
/// given the outcomes of the run stage in order.
pub open spec fn records_of(run: Attempts, outcomes: Seq<RunOutcomeView>) -> Seq<
    ExecutionLogEntry,
> {
    Seq::new(outcomes.len(), |i: int| record_of(run, run.next + i, outcomes[i]))
}

/// Whether the outcome of the run stage lets test case `index` pass.
pub open spec fn passes(run: Attempts, index: int, outcome: RunOutcomeView) -> bool {
    verdict_of(run.test_cases[index].expected_output, report_of(outcome, run.time_limit))
        == SubmissionStatus::Accepted
}

/// A run of passing attempts, with a test case left after them, brings the
/// lane to the attempt on that test case: each attempt leaves one record and
/// starts the run of the next test case, and no status is written.
pub proof fn lemma_passing_attempts(history: History, run: Attempts, outcomes: Seq<RunOutcomeView>)
    requires
        history.state == (LaneState::AwaitingRun { run }),
        run.tally.status == SubmissionStatus::Accepted,
        run.next + outcomes.len() < run.test_cases.len(),
        history.runs == first_inputs(run.test_cases, run.next + 1),
        forall|i: int| 0 <= i < outcomes.len() ==> passes(run, run.next + i, #[trigger] outcomes[i]),
    ensures
        ({
            let seen = observed_all(history, attempt_events(outcomes));
            &&& seen.state is AwaitingRun
            &&& seen.state->AwaitingRun_run == (Attempts {
                next: run.next + outcomes.len(),
                tally: seen.state->AwaitingRun_run.tally,
                ..run
            })
            &&& seen.state->AwaitingRun_run.tally.status == SubmissionStatus::Accepted
            &&& seen.state->AwaitingRun_run.tally.error_message == run.tally.error_message
            &&& seen.records == history.records + records_of(run, outcomes)
            &&& seen.runs == first_inputs(run.test_cases, run.next + outcomes.len() + 1)
            &&& seen.status_writes == history.status_writes
        }),
    decreases outcomes.len(),
{
    if outcomes.len() == 0 {
        assert(history.records + records_of(run, outcomes) =~= history.records);
    } else {
        let outcome = outcomes.first();
        let later = outcomes.drop_first();
        let tail = attempt_events(later);
        let ran = observed(history, LaneEventView::Ran(outcome));
        let logged = observed(ran, LaneEventView::LogRecorded);
        assert(passes(run, run.next + 0int, outcomes[0]));
        assert(observed_all(history, attempt_events(outcomes)) == observed_all(logged, tail)) by {
            let pair = seq![LaneEventView::Ran(outcome), LaneEventView::LogRecorded];
            lemma_observed_then(history, pair, tail);
            lemma_observed_first(history, pair[0], seq![pair[1]]);
            assert(seq![pair[0]] + seq![pair[1]] =~= pair);
            lemma_observed_first(ran, pair[1], Seq::empty());
            assert(seq![pair[1]] + Seq::<LaneEventView>::empty() =~= seq![pair[1]]);
        }
        let expected = run.test_cases[run.next as int].expected_output;
        let out = report_of(outcome, run.time_limit);
        let next_run = Attempts {
            next: run.next + 1,
            tally: folded(run.tally, expected, out),
            ..run
        };
        assert(logged.state == (LaneState::AwaitingRun { run: next_run }));
        assert(logged.runs =~= first_inputs(run.test_cases, next_run.next + 1));
        assert forall|i: int| 0 <= i < later.len() implies passes(
            next_run,
            next_run.next + i,
            #[trigger] later[i],
        ) by {
            assert(later[i] == outcomes[i + 1]);
            assert(passes(run, run.next + (i + 1), outcomes[i + 1]));
        }
        lemma_passing_attempts(logged, next_run, later);
        assert(logged.records == history.records.push(record_of(run, run.next as int, outcome)));
        assert forall|i: int| 0 <= i < later.len() implies #[trigger] records_of(next_run, later)[i]
            == records_of(run, outcomes)[i + 1] by {
            assert(later[i] == outcomes[i + 1]);
        }
        assert(logged.records + records_of(next_run, later) =~= history.records + records_of(
            run,
            outcomes,
        ));
    }
}

/// The attempt that ends the judging: where the test case in turn fails, or
/// passes as the last one, its record is the last record, no further test
/// case is run, and the final status is the only status written, whatever
/// happens afterwards.
pub proof fn lemma_last_attempt(
    history: History,
    run: Attempts,
    outcome: RunOutcomeView,
    rest: Seq<LaneEventView>,
)
    requires
        history.state == (LaneState::AwaitingRun { run }),
        run.tally.status == SubmissionStatus::Accepted,
        run.next < run.test_cases.len(),
        !passes(run, run.next as int, outcome) || run.next + 1 == run.test_cases.len(),
    ensures
        ({
            let events = seq![LaneEventView::Ran(outcome), LaneEventView::LogRecorded] + rest;
            let seen = observed_all(history, events);
            let out = report_of(outcome, run.time_limit);
            let expected = run.test_cases[run.next as int].expected_output;
            &&& seen.records == history.records.push(record_of(run, run.next as int, outcome))
            &&& seen.runs == history.runs
            &&& seen.status_writes == history.status_writes.push(
                final_update(run.submission_id, folded(run.tally, expected, out)),
            )
        }),
{
    let end = seq![LaneEventView::Ran(outcome), LaneEventView::LogRecorded];
    let ran = observed(history, end[0]);
    let logged = observed(ran, end[1]);
    assert(observed_all(history, end) == logged) by {
        lemma_observed_first(history, end[0], seq![end[1]]);
        assert(seq![end[0]] + seq![end[1]] =~= end);
        lemma_observed_first(ran, end[1], Seq::empty());
        assert(seq![end[1]] + Seq::<LaneEventView>::empty() =~= seq![end[1]]);
    }
    lemma_observed_then(history, end, rest);
    lemma_winding_down(logged, rest);
}

/// The events of a run of attempts end with the events of its last attempt.
pub proof fn lemma_attempt_events_end(outcomes: Seq<RunOutcomeView>, last: RunOutcomeView)
    ensures
        attempt_events(outcomes.push(last)) == attempt_events(outcomes) + seq![
            LaneEventView::Ran(last),
            LaneEventView::LogRecorded,
        ],
    decreases outcomes.len(),
{
    let end = seq![LaneEventView::Ran(last), LaneEventView::LogRecorded];
    let all = outcomes.push(last);
    if outcomes.len() == 0 {
        assert(all.first() == last);
        assert(all.drop_first() =~= Seq::<RunOutcomeView>::empty());
        assert(attempt_events(all.drop_first()) =~= Seq::<LaneEventView>::empty());
        assert(attempt_events(all) =~= end);
        assert(attempt_events(outcomes) + end =~= end);
    } else {
        assert(all.first() == outcomes.first());
        assert(all.drop_first() =~= outcomes.drop_first().push(last));
        lemma_attempt_events_end(outcomes.drop_first(), last);
        let head = seq![LaneEventView::Ran(outcomes.first()), LaneEventView::LogRecorded];
        assert(head + (attempt_events(outcomes.drop_first()) + end) =~= (head + attempt_events(
            outcomes.drop_first(),
        )) + end);
    }
}

/// Fail-fast. Given test cases of which the first `passing.len()` pass and
/// the next one fails, with whatever verdict, and whatever happens after the
/// record of the failing attempt is written: there is one record for each
/// attempt up to and including the failing one, in order; the test cases up
/// to the failing one, and no others, were run, in order; and exactly one
/// status is written, which carries the verdict of the failing attempt and
/// its message.
pub proof fn law_fail_fast(
    submission_id: Uuid,
    submission: SubmissionView,
    test_cases: Seq<TestCaseView>,
    language: LanguageView,
    compiler_output: Seq<char>,
    passing: Seq<RunOutcomeView>,
    failing: RunOutcomeView,
    rest: Seq<LaneEventView>,
)
    requires
        passing.len() < test_cases.len(),
        forall|i: int|
            0 <= i < passing.len() ==> verdict_of(
                test_cases[i].expected_output,
                report_of(#[trigger] passing[i], config_of(language).time_limit),
            ) == SubmissionStatus::Accepted,
        verdict_of(
            test_cases[passing.len() as int].expected_output,
            report_of(failing, config_of(language).time_limit),
        ) != SubmissionStatus::Accepted,
    ensures
        ({
            let events = judging_events(submission, test_cases, language, compiler_output)
                + attempt_events(passing) + seq![
                LaneEventView::Ran(failing),
                LaneEventView::LogRecorded,
            ] + rest;
            let seen = observed_all(started(submission_id), events);
            let out = report_of(failing, config_of(language).time_limit);
            let verdict = verdict_of(test_cases[passing.len() as int].expected_output, out);
            &&& seen.records.len() == passing.len() + 1
            &&& seen.records == records_of(
                first_attempt(submission_id, submission, test_cases, language),
                passing.push(failing),
            )
            &&& seen.runs == first_inputs(test_cases, passing.len() + 1)
            &&& seen.status_writes.len() == 1
            &&& seen.status_writes[0].submission_id == submission_id
            &&& seen.status_writes[0].status == verdict
            &&& seen.status_writes[0].error_message == failure_message(verdict, out)
        }),
{
    let begin = judging_events(submission, test_cases, language, compiler_output);
    let middle = attempt_events(passing);
    let end = seq![LaneEventView::Ran(failing), LaneEventView::LogRecorded];
    let h0 = started(submission_id);
    let run = first_attempt(submission_id, submission, test_cases, language);
    lemma_judging_begins(submission_id, submission, test_cases, language, compiler_output);
    let h1 = observed_all(h0, begin);
    assert forall|i: int| 0 <= i < passing.len() implies passes(
        run,
        run.next + i,
        #[trigger] passing[i],
    ) by {}
    lemma_passing_attempts(h1, run, passing);
    let h2 = observed_all(h1, middle);
    let last_run = h2.state->AwaitingRun_run;
    lemma_last_attempt(h2, last_run, failing, rest);
    assert(observed_all(h0, begin + middle + end + rest) == observed_all(h2, end + rest)) by {
        assert(begin + middle + end + rest =~= (begin + middle) + (end + rest));
        lemma_observed_then(h0, begin + middle, end + rest);
        lemma_observed_then(h0, begin, middle);
    }
    let all = passing.push(failing);
    assert(h2.records.push(record_of(last_run, last_run.next as int, failing)) =~= records_of(
        run,
        all,
    )) by {
        assert(h2.records =~= records_of(run, passing));
        assert forall|i: int| 0 <= i < passing.len() implies #[trigger] records_of(run, all)[i]
            == records_of(run, passing)[i] by {
            assert(all[i] == passing[i]);
        }
    }
}

/// Accepted. Given test cases that all pass, and whatever happens after the
/// record of the last attempt is written: there is one record for each test
/// case, in order; every test case was run, in order; and exactly one status
/// is written, which says accepted and carries no message.
pub proof fn law_all_passed(
    submission_id: Uuid,
    submission: SubmissionView,
    test_cases: Seq<TestCaseView>,
    language: LanguageView,
    compiler_output: Seq<char>,
    outcomes: Seq<RunOutcomeView>,
    rest: Seq<LaneEventView>,
)
    requires
        test_cases.len() > 0,
        outcomes.len() == test_cases.len(),
        forall|i: int|
            0 <= i < outcomes.len() ==> verdict_of(
                test_cases[i].expected_output,
                report_of(#[trigger] outcomes[i], config_of(language).time_limit),
            ) == SubmissionStatus::Accepted,
    ensures
        ({
            let events = judging_events(submission, test_cases, language, compiler_output)
                + attempt_events(outcomes) + rest;
            let seen = observed_all(started(submission_id), events);
            &&& seen.records.len() == test_cases.len()
            &&& seen.records == records_of(
                first_attempt(submission_id, submission, test_cases, language),
                outcomes,
            )
            &&& seen.runs == first_inputs(test_cases, test_cases.len())
            &&& seen.status_writes.len() == 1
            &&& seen.status_writes[0].submission_id == submission_id
            &&& seen.status_writes[0].status == SubmissionStatus::Accepted
            &&& seen.status_writes[0].error_message == None::<Seq<char>>
        }),
{
    let passing = outcomes.drop_last();
    let last = outcomes.last();
    assert(passing.push(last) =~= outcomes);
    lemma_attempt_events_end(passing, last);
    let begin = judging_events(submission, test_cases, language, compiler_output);
    let middle = attempt_events(passing);
    let end = seq![LaneEventView::Ran(last), LaneEventView::LogRecorded];
    let h0 = started(submission_id);
    let run = first_attempt(submission_id, submission, test_cases, language);
    lemma_judging_begins(submission_id, submission, test_cases, language, compiler_output);
    let h1 = observed_all(h0, begin);
    assert forall|i: int| 0 <= i < passing.len() implies passes(
        run,
        run.next + i,
        #[trigger] passing[i],
    ) by {
        assert(passing[i] == outcomes[i]);
    }
    lemma_passing_attempts(h1, run, passing);
    let h2 = observed_all(h1, middle);
    let last_run = h2.state->AwaitingRun_run;
    lemma_last_attempt(h2, last_run, last, rest);
    assert(observed_all(h0, begin + attempt_events(outcomes) + rest) == observed_all(
        h2,
        end + rest,
    )) by {
        assert(begin + (middle + end) + rest =~= (begin + middle) + (end + rest));
        lemma_observed_then(h0, begin + middle, end + rest);
        lemma_observed_then(h0, begin, middle);
    }
    assert(passes(last_run, last_run.next as int, last)) by {
        assert(outcomes[outcomes.len() - 1] == last);
    }
    assert(h2.records.push(record_of(last_run, last_run.next as int, last)) =~= records_of(
        run,
        outcomes,
    )) by {
        assert(h2.records =~= records_of(run, passing));
        assert forall|i: int| 0 <= i < passing.len() implies #[trigger] records_of(run, outcomes)[i]
            == records_of(run, passing)[i] by {
            assert(outcomes[i] == passing[i]);
        }
    }
}

/// Wrong answer. Given test cases of which the first `passing.len()` pass
/// and the next one ends well with an output that does not match: exactly
/// `passing.len() + 1` records are appended, no test case after the failing
/// one is run, and the one status written is a wrong answer.
pub proof fn law_wrong_answer_stops(
    submission_id: Uuid,
    submission: SubmissionView,
    test_cases: Seq<TestCaseView>,
    language: LanguageView,
    compiler_output: Seq<char>,
    passing: Seq<RunOutcomeView>,
    failing: RunOutcomeView,
    rest: Seq<LaneEventView>,
)
    requires
        passing.len() < test_cases.len(),
        forall|i: int|
            0 <= i < passing.len() ==> verdict_of(
                test_cases[i].expected_output,
                report_of(#[trigger] passing[i], config_of(language).time_limit),
            ) == SubmissionStatus::Accepted,
        verdict_of(
            test_cases[passing.len() as int].expected_output,
            report_of(failing, config_of(language).time_limit),
        ) == SubmissionStatus::WrongAnswer,
    ensures
        ({
            let events = judging_events(submission, test_cases, language, compiler_output)
                + attempt_events(passing) + seq![
                LaneEventView::Ran(failing),
                LaneEventView::LogRecorded,
            ] + rest;
            let seen = observed_all(started(submission_id), events);
            &&& seen.records.len() == passing.len() + 1
            &&& seen.runs == first_inputs(test_cases, passing.len() + 1)
            &&& seen.status_writes.len() == 1
            &&& seen.status_writes[0].status == SubmissionStatus::WrongAnswer
            &&& seen.status_writes[0].error_message == Some("Wrong answer"@)
        }),
{
    law_fail_fast(
        submission_id,
        submission,
        test_cases,
        language,
        compiler_output,
        passing,
        failing,
        rest,
    );
}

/// A compiler that fails ends the judging. For every submission whose
/// source the compiler rejects, and whatever happens afterwards: no test case
/// is run, nothing is recorded, and the one status written is a runtime
/// error that carries what the compiler wrote to its error output.
pub proof fn law_compile_failure(
    submission_id: Uuid,
    submission: SubmissionView,
    test_cases: Seq<TestCaseView>,
    language: LanguageView,
    compiler_output: Seq<char>,
    rest: Seq<LaneEventView>,
)
    requires
        test_cases.len() > 0,
    ensures
        ({
            let events = seq![
                LaneEventView::SubmissionLoaded(Some(submission)),
                LaneEventView::LanguageChecked(true),
                LaneEventView::TestCasesLoaded(test_cases),
                LaneEventView::LanguageLoaded(Some(language)),
                LaneEventView::Compiled { succeeded: false, stderr: compiler_output },
            ] + rest;
            let seen = observed_all(started(submission_id), events);
            &&& seen.runs == Seq::<Seq<char>>::empty()
            &&& seen.records == Seq::<ExecutionLogEntry>::empty()
            &&& seen.status_writes == seq![failure_update(submission_id, compiler_output)]
        }),
{
    let first = seq![
        LaneEventView::SubmissionLoaded(Some(submission)),
        LaneEventView::LanguageChecked(true),
        LaneEventView::TestCasesLoaded(test_cases),
        LaneEventView::LanguageLoaded(Some(language)),
        LaneEventView::Compiled { succeeded: false, stderr: compiler_output },
    ];
    let h0 = started(submission_id);
    let h1 = observed(h0, first[0]);
    let h2 = observed(h1, first[1]);
    let h3 = observed(h2, first[2]);
    let h4 = observed(h3, first[3]);
    let h5 = observed(h4, first[4]);
    assert(observed_all(h0, first) == h5) by {
        lemma_observed_first(h0, first[0], first.subrange(1, 5));
        assert(seq![first[0]] + first.subrange(1, 5) =~= first);
        lemma_observed_first(h1, first[1], first.subrange(2, 5));
        assert(seq![first[1]] + first.subrange(2, 5) =~= first.subrange(1, 5));
        lemma_observed_first(h2, first[2], first.subrange(3, 5));
        assert(seq![first[2]] + first.subrange(3, 5) =~= first.subrange(2, 5));
        lemma_observed_first(h3, first[3], first.subrange(4, 5));
        assert(seq![first[3]] + first.subrange(4, 5) =~= first.subrange(3, 5));
        lemma_observed_first(h4, first[4], Seq::empty());
        assert(seq![first[4]] + Seq::<LaneEventView>::empty() =~= first.subrange(4, 5));
    }
    lemma_observed_then(h0, first, rest);
    lemma_winding_down(h5, rest);
    assert(h5.status_writes =~= seq![failure_update(submission_id, compiler_output)]);
}

/// A failure of the process layer ends the judging. Given test cases of
/// which the first `passing.len()` pass and a run stage that then fails to
/// run the next one, and whatever happens after the record of the failure is
/// written: every attempt before the failure has its record, the failure
/// leaves one more, a runtime error that carries what the operating system
/// said; no further test case is run; and the one status written is a
/// runtime error with the same message.
pub proof fn law_system_error(
    submission_id: Uuid,
    submission: SubmissionView,
    test_cases: Seq<TestCaseView>,
    language: LanguageView,
    compiler_output: Seq<char>,
    passing: Seq<RunOutcomeView>,
    detail: Seq<char>,
    rest: Seq<LaneEventView>,
)
    requires
        passing.len() < test_cases.len(),
        forall|i: int|
            0 <= i < passing.len() ==> verdict_of(
                test_cases[i].expected_output,
                report_of(#[trigger] passing[i], config_of(language).time_limit),
            ) == SubmissionStatus::Accepted,
    ensures
        ({
            let events = judging_events(submission, test_cases, language, compiler_output)
                + attempt_events(passing) + seq![
                LaneEventView::SystemError(detail),
                LaneEventView::LogRecorded,
            ] + rest;
            let seen = observed_all(started(submission_id), events);
            let run = first_attempt(submission_id, submission, test_cases, language);
            let message = system_error_message(detail);
            &&& seen.records == records_of(run, passing).push(
                failure_entry(submission_id, submission.language_id, message),
            )
            &&& seen.runs == first_inputs(test_cases, passing.len() + 1)
            &&& seen.status_writes.len() == 1
            &&& seen.status_writes[0].submission_id == submission_id
            &&& seen.status_writes[0].status == SubmissionStatus::RuntimeError
            &&& seen.status_writes[0].error_message == Some(message)
        }),
{
    let begin = judging_events(submission, test_cases, language, compiler_output);
    let middle = attempt_events(passing);
    let end = seq![LaneEventView::SystemError(detail), LaneEventView::LogRecorded];
    let h0 = started(submission_id);
    let run = first_attempt(submission_id, submission, test_cases, language);
    lemma_judging_begins(submission_id, submission, test_cases, language, compiler_output);
    let h1 = observed_all(h0, begin);
    assert forall|i: int| 0 <= i < passing.len() implies passes(
        run,
        run.next + i,
        #[trigger] passing[i],
    ) by {}
    lemma_passing_attempts(h1, run, passing);
    let h2 = observed_all(h1, middle);
    let broke = observed(h2, end[0]);
    let logged = observed(broke, end[1]);
    assert(observed_all(h2, end) == logged) by {
        lemma_observed_first(h2, end[0], seq![end[1]]);
        assert(seq![end[0]] + seq![end[1]] =~= end);
        lemma_observed_first(broke, end[1], Seq::empty());
        assert(seq![end[1]] + Seq::<LaneEventView>::empty() =~= seq![end[1]]);
    }
    lemma_winding_down(logged, rest);
    assert(observed_all(h0, begin + middle + end + rest) == observed_all(logged, rest)) by {
        lemma_observed_then(h0, begin + middle + end, rest);
        lemma_observed_then(h0, begin + middle, end);
        lemma_observed_then(h0, begin, middle);
    }
    assert(h2.records =~= records_of(run, passing));
}

/// Whether a lane has asked for its last status write, or has ended.
pub open spec fn settled(history: History) -> bool {
    history.state is AwaitingStatus || history.state is Finished
}

/// Whether the status writes of a history are in order: none before the
/// lane has settled, at most one after.
pub open spec fn written_in_order(history: History) -> bool {
    if settled(history) {
        history.status_writes.len() <= 1
    } else {
        history.status_writes.len() == 0
    }
}

/// Status writes stay in order over any sequence of events.
pub proof fn lemma_written_in_order(history: History, events: Seq<LaneEventView>)
    requires
        written_in_order(history),
    ensures
        written_in_order(observed_all(history, events)),
    decreases events.len(),
{
    if events.len() > 0 {
        lemma_written_in_order(observed(history, events.first()), events.drop_first());
    }
}

/// The status is written once and last. Whatever events a lane is handed,
/// in whatever order: it asks for at most one status write, and once it has
/// asked for it, it asks for no further record and no further run.
pub proof fn law_status_written_once(
    submission_id: Uuid,
    events: Seq<LaneEventView>,
    later: Seq<LaneEventView>,
)
    ensures
        ({
            let seen = observed_all(started(submission_id), events);
            let finally = observed_all(started(submission_id), events + later);
            &&& seen.status_writes.len() <= 1
            &&& seen.status_writes.len() == 1 ==> {
                &&& finally.status_writes == seen.status_writes
                &&& finally.records == seen.records
                &&& finally.runs == seen.runs
            }
        }),
{
    let seen = observed_all(started(submission_id), events);
    lemma_written_in_order(started(submission_id), events);
    lemma_observed_then(started(submission_id), events, later);
    if seen.status_writes.len() == 1 {
        lemma_winding_down(seen, later);
    }
}

/// Whether records and runs keep pace in a history: before the first
/// attempt there is neither, but for the one record of a refusal; while a run
/// is under way every earlier run has its record; while a record is being
/// written every run has one; and a record without a run, which a failure of
/// the compile stage leaves, ends the attempts.
pub open spec fn paced(history: History) -> bool {
    let records = history.records.len();
    let runs = history.runs.len();
    match history.state {
        LaneState::AwaitingRun { .. } => runs == records + 1,
        LaneState::AwaitingAttemptLog { run } => {
            ||| records == runs
            ||| runs == 0 && records == 1 && run.tally.status != SubmissionStatus::Accepted
        },
        LaneState::AwaitingFailureLog { .. } => runs == 0 && records == 1,
        LaneState::AwaitingStatus { .. } => runs <= records + 1 && records <= runs + 1,
        LaneState::Finished { .. } => runs <= records + 1 && records <= runs + 1,
        _ => runs == 0 && records == 0,
    }
}

/// Records and runs keep pace over any sequence of events.
pub proof fn lemma_paced(history: History, events: Seq<LaneEventView>)
    requires
        paced(history),
    ensures
        paced(observed_all(history, events)),
    decreases events.len(),
{
    if events.len() > 0 {
        lemma_paced(observed(history, events.first()), events.drop_first());
    }
}

/// One record for each attempt. Whatever events a lane is handed, in
/// whatever order: it never asks for a run while the record of an earlier run
/// is outstanding, so that at every moment there is at most one run without
/// record; and there is at most one record without a run, that of a failure
/// before all attempts.
pub proof fn law_one_record_per_attempt(submission_id: Uuid, events: Seq<LaneEventView>)
    ensures
        ({
            let seen = observed_all(started(submission_id), events);
            &&& seen.runs.len() <= seen.records.len() + 1
            &&& seen.records.len() <= seen.runs.len() + 1
        }),
{
    lemma_paced(started(submission_id), events);
}

/// A run that was stopped at its deadline counts as time limit exceeded,
/// whatever was expected of it and whatever the limit was, and it is
/// reported with the exit code that stands for a timeout.
pub proof fn law_timeout_verdict(expected: Seq<char>, time_limit: i32)
    ensures
        verdict_of(expected, report_of(RunOutcomeView::TimedOut, time_limit))
            == SubmissionStatus::TimeLimitExceeded,
        report_of(RunOutcomeView::TimedOut, time_limit).exit_code == TIMEOUT_EXIT_CODE,
        report_of(RunOutcomeView::TimedOut, time_limit).execution_time == time_limit,
{
    let marker = timeout_marker();
    assert(marker.subrange(0, marker.len() as int) =~= marker);
    assert(occurs_at(marker, marker, 0));
}

} // verus!
