//! Benchmarks of functions in a document: which functions, under which names, and in what course.

use std::path::PathBuf;
use vstd::prelude::*;
use vstd::string::*;

use crate::path::{slashed, slashed_path};
use crate::text::starts_with;

verus! {

/// A definition of the main file.
#[derive(Debug, PartialEq, Eq)]
pub struct Binding {
    /// The name that is defined.
    pub name: String,
    /// Whether it is a function.
    pub is_function: bool,
}

impl View for Binding {
    type V = (Seq<char>, bool);

    open spec fn view(&self) -> (Seq<char>, bool) {
        (self.name@, self.is_function)
    }
}

/// A function to benchmark.
#[derive(Debug, PartialEq, Eq)]
pub struct Goal {
    /// The name of the benchmark.
    pub name: String,
    /// Which of the definitions the function is.
    pub binding: usize,
}

impl View for Goal {
    type V = (Seq<char>, int);

    open spec fn view(&self) -> (Seq<char>, int) {
        (self.name@, self.binding as int)
    }
}

pub open spec fn binding_views(bindings: Seq<Binding>) -> Seq<(Seq<char>, bool)> {
    bindings.map_values(|binding: Binding| binding@)
}

pub open spec fn goal_views(goals: Seq<Goal>) -> Seq<(Seq<char>, int)> {
    goals.map_values(|goal: Goal| goal@)
}

/// Whether a definition is a function whose name begins with `bench`.
pub open spec fn is_benchmark(binding: (Seq<char>, bool)) -> bool {
    "bench"@.is_prefix_of(binding.0) && binding.1
}

/// The name of the benchmark of a function.
pub open spec fn benchmark_name(main_path: Seq<char>, name: Seq<char>) -> Seq<char> {
    main_path + "@"@ + name
}

/// The functions to benchmark, in the order of their definitions.
pub open spec fn goals_spec(main_path: Seq<char>, bindings: Seq<(Seq<char>, bool)>) -> Seq<
    (Seq<char>, int),
>
    decreases bindings.len(),
{
    if bindings.len() == 0 {
        Seq::empty()
    } else {
        let goals = goals_spec(main_path, bindings.drop_last());
        if is_benchmark(bindings.last()) {
            goals.push((benchmark_name(main_path, bindings.last().0), bindings.len() - 1))
        } else {
            goals
        }
    }
}

/// Collects the functions to benchmark.
pub fn collect_goals(main_path: &str, bindings: &Vec<Binding>) -> (goals: Vec<Goal>)
    ensures
        goal_views(goals@) == goals_spec(main_path@, binding_views(bindings@)),
{
    let ghost views = binding_views(bindings@);
    let mut goals: Vec<Goal> = Vec::new();
    let mut i: usize = 0;
    assert(goal_views(goals@) =~= goals_spec(main_path@, views.take(0)));
    while i < bindings.len()
        invariant
            i <= bindings.len(),
            views == binding_views(bindings@),
            goal_views(goals@) == goals_spec(main_path@, views.take(i as int)),
        decreases bindings.len() - i,
    {
        assert(views.take(i + 1).drop_last() =~= views.take(i as int));
        let binding = &bindings[i];
        assert(views[i as int] == binding@);
        if starts_with(binding.name.as_str(), "bench") && binding.is_function {
            let ghost before = goal_views(goals@);
            let mut name = main_path.to_owned();
            name.append("@");
            name.append(binding.name.as_str());
            let goal = Goal { name, binding: i };
            goals.push(goal);
            assert(goal_views(goals@) =~= before.push(goal@));
        }
        i += 1;
    }
    assert(views.take(i as int) =~= views);
    goals
}

/// What to do with a function after it was called once.
#[derive(Debug, PartialEq, Eq)]
pub enum FirstCall {
    /// It works, so it is benchmarked.
    Measure,
    /// It does not work, so it is passed over with this message.
    Report(String),
}

/// The message for a function that does not work.
pub open spec fn call_error(name: Seq<char>, err: Seq<char>) -> Seq<char> {
    "call error in "@ + name + ": "@ + err
}

/// Decides what to do with a function after it was called once.
pub fn first_call(name: &str, result: Result<(), String>) -> (first: FirstCall)
    ensures
        match first {
            FirstCall::Measure => result is Ok,
            FirstCall::Report(message) => {
                &&& result matches Err(err)
                &&& message@ == call_error(name@, err@)
            },
        },
{
    match result {
        Ok(_) => FirstCall::Measure,
        Err(err) => {
            let mut message = "call error in ".to_owned();
            message.append(name);
            message.append(": ");
            message.append(err.as_str());
            FirstCall::Report(message)
        },
    }
}

/// Each goal is a function that the main file defines under a name that begins with `bench`, each
/// such function is a goal, and the goals come in the order of the definitions.
pub proof fn lemma_goals(main_path: Seq<char>, bindings: Seq<(Seq<char>, bool)>)
    ensures
        ({
            let goals = goals_spec(main_path, bindings);
            &&& forall|i: int| #![trigger goals[i]]
                0 <= i < goals.len() ==> {
                    &&& 0 <= goals[i].1 < bindings.len()
                    &&& is_benchmark(bindings[goals[i].1])
                    &&& goals[i].0 == benchmark_name(main_path, bindings[goals[i].1].0)
                }
            &&& forall|i: int, j: int| #![trigger goals[i], goals[j]]
                0 <= i < j < goals.len() ==> goals[i].1 < goals[j].1
            &&& forall|k: int| #![trigger bindings[k]]
                0 <= k < bindings.len() && is_benchmark(bindings[k]) ==> goals.contains(
                    (benchmark_name(main_path, bindings[k].0), k),
                )
        }),
    decreases bindings.len(),
{
    if bindings.len() > 0 {
        let before = bindings.drop_last();
        lemma_goals(main_path, before);
        let goals = goals_spec(main_path, bindings);
        let shorter = goals_spec(main_path, before);
        assert forall|i: int| #![trigger goals[i]] 0 <= i < goals.len() implies {
            &&& 0 <= goals[i].1 < bindings.len()
            &&& is_benchmark(bindings[goals[i].1])
            &&& goals[i].0 == benchmark_name(main_path, bindings[goals[i].1].0)
        } by {
            if i < shorter.len() {
                assert(goals[i] == shorter[i]);
                assert(before[shorter[i].1] == bindings[shorter[i].1]);
            }
        }
        assert forall|i: int, j: int|
            #![trigger goals[i], goals[j]]
            0 <= i < j < goals.len() implies goals[i].1 < goals[j].1 by {
            assert(goals[i] == shorter[i]);
            if j < shorter.len() {
                assert(goals[j] == shorter[j]);
            }
        }
        assert forall|k: int| #![trigger bindings[k]]
            0 <= k < bindings.len() && is_benchmark(bindings[k]) implies goals.contains(
            (benchmark_name(main_path, bindings[k].0), k),
        ) by {
            let goal = (benchmark_name(main_path, bindings[k].0), k);
            if k < before.len() {
                assert(before[k] == bindings[k]);
                assert(shorter.contains(goal));
                let i = choose|i: int| 0 <= i < shorter.len() && shorter[i] == goal;
                assert(goals[i] == goal);
            } else {
                assert(goals[goals.len() - 1] == goal);
            }
        }
    }
}

/// Why there are no benchmarks.
#[derive(Debug, PartialEq, Eq)]
pub enum BenchError {
    /// The main file could not be evaluated, for this reason.
    Evaluation(String),
}

impl BenchError {
    /// Writes the message of the error.
    pub fn message(&self) -> (message: String)
        ensures
            message@ == "evaluation error"@,
    {
        "evaluation error".to_owned()
    }
}

/// How far the benchmarks have come: what they wait for, or how they ended.
#[derive(Debug, PartialEq, Eq)]
pub enum BenchState {
    /// The main file is to be evaluated.
    Evaluating,
    /// The function of a goal is to be called once.
    Calling(usize),
    /// The function of a goal is to be measured.
    Measuring(usize),
    /// The benchmarks are over.
    Finished(Result<(), BenchError>),
}

/// What happened to what the benchmarks wait for.
#[derive(Debug, PartialEq, Eq)]
pub enum BenchEvent {
    /// The main file defines this, or could not be evaluated.
    Evaluated(Result<Vec<Binding>, String>),
    /// The function was called.
    Called(Result<(), String>),
    /// The function was measured.
    Measured,
}

/// The benchmarks of a document under way.
#[derive(Debug, PartialEq, Eq)]
pub struct BenchRun {
    /// The path of the main file.
    pub main_path: String,
    /// The functions to benchmark.
    pub goals: Vec<Goal>,
    pub state: BenchState,
}

/// How it goes on with the goal of an index, if there is one.
pub open spec fn turn_to_spec(goals: nat, i: int) -> BenchState {
    if i < goals {
        BenchState::Calling(i as usize)
    } else {
        BenchState::Finished(Ok(()))
    }
}

impl BenchRun {
    /// Whether the goal that is dealt with is there.
    pub open spec fn is_consistent(self) -> bool {
        match self.state {
            BenchState::Calling(i) => i < self.goals@.len(),
            BenchState::Measuring(i) => i < self.goals@.len(),
            _ => true,
        }
    }

    /// Whether something that happened is what the benchmarks wait for.
    pub open spec fn expects(self, event: BenchEvent) -> bool {
        match self.state {
            BenchState::Evaluating => event is Evaluated,
            BenchState::Calling(_) => event is Called,
            BenchState::Measuring(_) => event is Measured,
            BenchState::Finished(_) => false,
        }
    }

    /// How the benchmarks go on: functions are dealt with in turn, and one that fails when it is
    /// called once is not measured but reported.
    pub open spec fn advances(
        self,
        event: BenchEvent,
        next: BenchRun,
        report: Option<String>,
    ) -> bool {
        let goals = self.goals@.len();
        &&& next.main_path == self.main_path
        &&& !(self.state is Evaluating) ==> next.goals == self.goals
        &&& match (self.state, event) {
            (BenchState::Evaluating, BenchEvent::Evaluated(Ok(bindings))) => {
                &&& goal_views(next.goals@) == goals_spec(
                    self.main_path@,
                    binding_views(bindings@),
                )
                &&& next.state == turn_to_spec(next.goals@.len(), 0)
                &&& report is None
            },
            (BenchState::Evaluating, BenchEvent::Evaluated(Err(err))) => {
                &&& next.goals == self.goals
                &&& next.state == BenchState::Finished(Err(BenchError::Evaluation(err)))
                &&& report is None
            },
            (BenchState::Calling(i), BenchEvent::Called(Ok(_))) => {
                next.state == BenchState::Measuring(i) && report is None
            },
            (BenchState::Calling(i), BenchEvent::Called(Err(err))) => {
                &&& next.state == turn_to_spec(goals, i + 1)
                &&& report matches Some(message)
                &&& message@ == call_error(self.goals@[i as int].name@, err@)
            },
            (BenchState::Measuring(i), BenchEvent::Measured) => {
                next.state == turn_to_spec(goals, i + 1) && report is None
            },
            _ => next == self && report is None,
        }
    }

    fn turn_to(&self, i: usize) -> (state: BenchState)
        ensures
            state == turn_to_spec(self.goals@.len(), i as int),
    {
        if i < self.goals.len() {
            BenchState::Calling(i)
        } else {
            BenchState::Finished(Ok(()))
        }
    }

    /// Takes what happened to what the benchmarks wait for, and gives what is to be reported.
    pub fn advance(&mut self, event: BenchEvent) -> (report: Option<String>)
        requires
            old(self).is_consistent(),
            old(self).expects(event),
        ensures
            final(self).is_consistent(),
            old(self).advances(event, *final(self), report),
    {
        assert(self.goals.len() == self.goals@.len());
        match (&self.state, event) {
            (BenchState::Evaluating, BenchEvent::Evaluated(Ok(bindings))) => {
                self.goals = collect_goals(self.main_path.as_str(), &bindings);
                self.state = self.turn_to(0);
                None
            },
            (BenchState::Evaluating, BenchEvent::Evaluated(Err(err))) => {
                self.state = BenchState::Finished(Err(BenchError::Evaluation(err)));
                None
            },
            (BenchState::Calling(i), BenchEvent::Called(result)) => {
                let i: usize = *i;
                match first_call(self.goals[i].name.as_str(), result) {
                    FirstCall::Measure => {
                        self.state = BenchState::Measuring(i);
                        None
                    },
                    FirstCall::Report(message) => {
                        self.state = self.turn_to(i + 1);
                        Some(message)
                    },
                }
            },
            (BenchState::Measuring(i), BenchEvent::Measured) => {
                self.state = self.turn_to(*i + 1);
                None
            },
            _ => None,
        }
    }
}

/// Begins the benchmarks of a document with the path of its main file, which is written with
/// slashes.
pub fn bench(main_path: &PathBuf) -> (run: BenchRun)
    ensures
        run.is_consistent(),
        run.main_path@ == slashed_path(*main_path),
        run.goals@.len() == 0,
        run.state == BenchState::Evaluating,
{
    BenchRun { main_path: slashed(main_path), goals: Vec::new(), state: BenchState::Evaluating }
}

/// What happens to what the benchmarks wait for, given what comes of the main file and of the
/// calls.
pub open spec fn event_spec(
    state: BenchState,
    evaluated: Result<Vec<Binding>, String>,
    calls: Seq<Result<(), String>>,
) -> BenchEvent {
    match state {
        BenchState::Evaluating => BenchEvent::Evaluated(evaluated),
        BenchState::Calling(i) => BenchEvent::Called(calls[i as int]),
        _ => BenchEvent::Measured,
    }
}

/// Whether benchmarks that are not over go on to a state, with this report.
pub open spec fn is_turn(
    run: BenchRun,
    next: BenchRun,
    report: Option<String>,
    evaluated: Result<Vec<Binding>, String>,
    calls: Seq<Result<(), String>>,
) -> bool {
    &&& !(run.state is Finished)
    &&& run.advances(event_spec(run.state, evaluated, calls), next, report)
}

/// Whether benchmarks go from one of a series of states to the next, with these reports.
pub open spec fn is_course(
    runs: Seq<BenchRun>,
    reports: Seq<Option<String>>,
    evaluated: Result<Vec<Binding>, String>,
    calls: Seq<Result<(), String>>,
) -> bool {
    &&& runs.len() == reports.len() + 1
    &&& runs[0].state is Evaluating
    &&& forall|k: int|
        0 <= k < reports.len() ==> is_turn(
            runs[k],
            runs[k + 1],
            #[trigger] reports[k],
            evaluated,
            calls,
        )
}

/// The names of the benchmarks that are measured in a series of states, in order.
pub open spec fn measured(runs: Seq<BenchRun>) -> Seq<Seq<char>>
    decreases runs.len(),
{
    if runs.len() == 0 {
        Seq::empty()
    } else {
        let before = measured(runs.drop_last());
        match runs.last().state {
            BenchState::Measuring(i) => before.push(runs.last().goals@[i as int].name@),
            _ => before,
        }
    }
}

/// What is reported, in order.
pub open spec fn reported(reports: Seq<Option<String>>) -> Seq<Seq<char>>
    decreases reports.len(),
{
    if reports.len() == 0 {
        Seq::empty()
    } else {
        let before = reported(reports.drop_last());
        match reports.last() {
            Some(message) => before.push(message@),
            None => before,
        }
    }
}

/// The names of those of the first goals whose calls succeed.
pub open spec fn working(
    goals: Seq<(Seq<char>, int)>,
    calls: Seq<Result<(), String>>,
    n: int,
) -> Seq<Seq<char>>
    decreases n,
{
    if n <= 0 {
        Seq::empty()
    } else {
        let before = working(goals, calls, n - 1);
        match calls[n - 1] {
            Ok(_) => before.push(goals[n - 1].0),
            Err(_) => before,
        }
    }
}

/// The messages for those of the first goals whose calls fail.
pub open spec fn failing(
    goals: Seq<(Seq<char>, int)>,
    calls: Seq<Result<(), String>>,
    n: int,
) -> Seq<Seq<char>>
    decreases n,
{
    if n <= 0 {
        Seq::empty()
    } else {
        let before = failing(goals, calls, n - 1);
        match calls[n - 1] {
            Ok(_) => before,
            Err(err) => before.push(call_error(goals[n - 1].0, err@)),
        }
    }
}

/// What the benchmarks of a main file that could be evaluated have done so far, and after how many
/// events at most.
pub open spec fn is_done_so_far(
    runs: Seq<BenchRun>,
    reports: Seq<Option<String>>,
    goals: Seq<(Seq<char>, int)>,
    calls: Seq<Result<(), String>>,
) -> bool {
    let last = runs.last();
    &&& goal_views(last.goals@) == goals
    &&& match last.state {
        BenchState::Evaluating => false,
        BenchState::Calling(i) => {
            &&& i < goals.len()
            &&& measured(runs) == working(goals, calls, i as int)
            &&& reported(reports) == failing(goals, calls, i as int)
            &&& reports.len() <= 1 + 2 * i
        },
        BenchState::Measuring(i) => {
            &&& i < goals.len()
            &&& measured(runs) == working(goals, calls, i + 1)
            &&& reported(reports) == failing(goals, calls, i + 1)
            &&& reports.len() <= 2 + 2 * i
        },
        BenchState::Finished(outcome) => {
            &&& outcome is Ok
            &&& measured(runs) == working(goals, calls, goals.len() as int)
            &&& reported(reports) == failing(goals, calls, goals.len() as int)
            &&& reports.len() <= 1 + 2 * goals.len()
        },
    }
}

/// The benchmarks of a main file that could be evaluated end after at most one event and two for
/// each goal. The benchmarks that are measured until then are, in order, exactly those of the goals
/// whose calls succeed, the others are reported, and nothing that fails ends the benchmarks.
pub proof fn lemma_course(
    runs: Seq<BenchRun>,
    reports: Seq<Option<String>>,
    bindings: Vec<Binding>,
    calls: Seq<Result<(), String>>,
)
    requires
        is_course(runs, reports, Ok(bindings), calls),
        reports.len() > 0,
    ensures
        is_done_so_far(
            runs,
            reports,
            goals_spec(runs[0].main_path@, binding_views(bindings@)),
            calls,
        ),
    decreases reports.len(),
{
    let goals = goals_spec(runs[0].main_path@, binding_views(bindings@));
    let earlier = runs.drop_last();
    let told = reports.drop_last();
    let run = earlier.last();
    let next = runs.last();
    assert(reports[told.len() as int] == reports.last());
    assert(run.goals.len() == run.goals@.len());
    assert(next.goals.len() == next.goals@.len());
    assert(goal_views(next.goals@).len() == next.goals@.len());
    if told.len() == 0 {
        reveal_with_fuel(measured, 3);
        reveal_with_fuel(reported, 3);
    } else {
        assert(is_course(earlier, told, Ok(bindings), calls)) by {
            assert(earlier[0] == runs[0]);
            assert forall|k: int| 0 <= k < told.len() implies is_turn(
                earlier[k],
                earlier[k + 1],
                #[trigger] told[k],
                Ok(bindings),
                calls,
            ) by {
                assert(told[k] == reports[k]);
            }
        }
        lemma_course(earlier, told, bindings, calls);
        assert(run.goals == next.goals);
        assert(forall|k: int| 0 <= k < goals.len() ==> goals[k].0 == #[trigger] run.goals@[k].name@)
            by {
            assert(forall|k: int|
                0 <= k < goals.len() ==> #[trigger] goal_views(run.goals@)[k] == run.goals@[k]@);
        }
    }
}

/// The benchmarks of a main file that could not be evaluated end at once, with the error, and
/// nothing is measured or reported.
pub proof fn lemma_no_course(
    runs: Seq<BenchRun>,
    reports: Seq<Option<String>>,
    err: String,
    calls: Seq<Result<(), String>>,
)
    requires
        is_course(runs, reports, Err(err), calls),
        reports.len() > 0,
    ensures
        reports.len() == 1,
        runs.last().state == BenchState::Finished(Err(BenchError::Evaluation(err))),
        measured(runs) == Seq::<Seq<char>>::empty(),
        reported(reports) == Seq::<Seq<char>>::empty(),
{
    assert(reports[0] is None);
    if reports.len() > 1 {
        assert(reports[1] == reports[1]);
    }
    reveal_with_fuel(measured, 3);
    reveal_with_fuel(reported, 3);
}

/// A definition gives a goal exactly if it is a function and the first five characters of its name
/// spell `bench`, whatever follows them. The goals come in the order of the definitions, one for
/// each, under the path of the main file, an at sign and the name.
pub proof fn lemma_goals_by_name(main_path: Seq<char>, bindings: Seq<(Seq<char>, bool)>)
    ensures
        ({
            let goals = goals_spec(main_path, bindings);
            &&& forall|k: int| #![trigger bindings[k]]
                0 <= k < bindings.len() ==> {
                    let (name, is_function) = bindings[k];
                    (exists|i: int| 0 <= i < goals.len() && (#[trigger] goals[i]).1 == k) <==> {
                        &&& is_function
                        &&& name.len() >= 5
                        &&& name[0] == 'b' && name[1] == 'e' && name[2] == 'n' && name[3] == 'c'
                        &&& name[4] == 'h'
                    }
                }
            &&& forall|i: int| #![trigger goals[i]]
                0 <= i < goals.len() ==> {
                    &&& 0 <= goals[i].1 < bindings.len()
                    &&& goals[i].0 == main_path + seq!['@'] + bindings[goals[i].1].0
                }
            &&& forall|i: int, j: int| #![trigger goals[i], goals[j]]
                0 <= i < j < goals.len() ==> goals[i].1 < goals[j].1
        }),
{
    lemma_goals(main_path, bindings);
    reveal_strlit("bench");
    reveal_strlit("@");
    assert("@"@ =~= seq!['@']);
    let goals = goals_spec(main_path, bindings);
    assert forall|k: int| #![trigger bindings[k]] 0 <= k < bindings.len() implies {
        let (name, is_function) = bindings[k];
        (exists|i: int| 0 <= i < goals.len() && (#[trigger] goals[i]).1 == k) <==> {
            &&& is_function
            &&& name.len() >= 5
            &&& name[0] == 'b' && name[1] == 'e' && name[2] == 'n' && name[3] == 'c'
            &&& name[4] == 'h'
        }
    } by {
        let (name, is_function) = bindings[k];
        if is_function && name.len() >= 5 && name[0] == 'b' && name[1] == 'e' && name[2] == 'n'
            && name[3] == 'c' && name[4] == 'h' {
            assert("bench"@ =~= name.subrange(0, 5));
            let goal = (benchmark_name(main_path, name), k);
            assert(goals.contains(goal));
            let i = choose|i: int| 0 <= i < goals.len() && goals[i] == goal;
            assert(goals[i].1 == k);
        }
        if exists|i: int| 0 <= i < goals.len() && (#[trigger] goals[i]).1 == k {
            let i = choose|i: int| 0 <= i < goals.len() && (#[trigger] goals[i]).1 == k;
            assert(is_benchmark(bindings[goals[i].1]));
            let start = name.subrange(0, 5);
            assert(start[0] == 'b' && start[1] == 'e' && start[2] == 'n' && start[3] == 'c'
                && start[4] == 'h');
        }
    }
}

/// What every event does to the benchmarks. A function that works when it is called is measured
/// next, and nothing is reported. One that does not is reported by its name and the error, and
/// passed over. After either comes the next goal, and after the last the benchmarks end well.
pub proof fn lemma_events(
    run: BenchRun,
    i: usize,
    err: String,
    next: BenchRun,
    report: Option<String>,
)
    requires
        i < run.goals@.len(),
    ensures
        ({
            let following = if i + 1 < run.goals@.len() {
                BenchState::Calling((i + 1) as usize)
            } else {
                BenchState::Finished(Ok(()))
            };
            &&& run.state == BenchState::Calling(i) ==> {
                &&& run.advances(BenchEvent::Called(Ok(())), next, report) ==> {
                    &&& next.state == BenchState::Measuring(i)
                    &&& next.goals == run.goals
                    &&& report is None
                }
                &&& run.advances(BenchEvent::Called(Err(err)), next, report) ==> {
                    &&& next.state == following
                    &&& next.goals == run.goals
                    &&& report matches Some(message)
                    &&& message@ == "call error in "@ + run.goals@[i as int].name@ + ": "@ + err@
                }
            }
            &&& run.state == BenchState::Measuring(i) ==> (run.advances(
                BenchEvent::Measured,
                next,
                report,
            ) ==> {
                &&& next.state == following
                &&& next.goals == run.goals
                &&& report is None
            })
        }),
{
}

/// A main file that was evaluated gives its goals, and the first of them is called next. Where
/// there are none, the benchmarks end well at once. A main file that could not be evaluated ends
/// them with the error.
pub proof fn lemma_evaluated(
    run: BenchRun,
    bindings: Vec<Binding>,
    err: String,
    next: BenchRun,
    report: Option<String>,
)
    requires
        run.state == BenchState::Evaluating,
    ensures
        run.advances(BenchEvent::Evaluated(Ok(bindings)), next, report) ==> {
            &&& next.main_path == run.main_path
            &&& next.goals@.map_values(|goal: Goal| (goal.name@, goal.binding as int))
                == goals_spec(
                run.main_path@,
                bindings@.map_values(|binding: Binding| (binding.name@, binding.is_function)),
            )
            &&& next.state == if next.goals@.len() > 0 {
                BenchState::Calling(0)
            } else {
                BenchState::Finished(Ok(()))
            }
            &&& report is None
        },
        run.advances(BenchEvent::Evaluated(Err(err)), next, report) ==> {
            &&& next.state == BenchState::Finished(Err(BenchError::Evaluation(err)))
            &&& report is None
        },
{
    assert(goal_views(next.goals@) =~= next.goals@.map_values(
        |goal: Goal| (goal.name@, goal.binding as int),
    ));
    assert(binding_views(bindings@) =~= bindings@.map_values(
        |binding: Binding| (binding.name@, binding.is_function),
    ));
}

/// Definitions say their names and whether they are functions, and goals the names of their
/// benchmarks and their definitions.
pub proof fn lemma_bench_views(bindings: Seq<Binding>, goals: Seq<Goal>)
    ensures
        binding_views(bindings) == bindings.map_values(
            |binding: Binding| (binding.name@, binding.is_function),
        ),
        goal_views(goals) == goals.map_values(|goal: Goal| (goal.name@, goal.binding as int)),
{
    assert(binding_views(bindings) =~= bindings.map_values(
        |binding: Binding| (binding.name@, binding.is_function),
    ));
    assert(goal_views(goals) =~= goals.map_values(
        |goal: Goal| (goal.name@, goal.binding as int),
    ));
}

} // verus!
