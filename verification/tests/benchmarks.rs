use std::path::PathBuf;

use tinymist::bench::{
    bench, collect_goals, first_call, BenchError, BenchEvent, BenchState, Binding, FirstCall, Goal,
};

fn binding(name: &str, is_function: bool) -> Binding {
    Binding { name: name.to_owned(), is_function }
}

#[test]
fn functions_named_bench_are_goals() {
    let bindings = vec![
        binding("bench_a", true),
        binding("helper", true),
        binding("bench_data", false),
        binding("bench", true),
        binding("my-bench", true),
        binding("benchmark", true),
    ];
    let goal = |name: &str, binding: usize| Goal { name: name.to_owned(), binding };
    assert_eq!(
        collect_goals("/main.typ", &bindings),
        vec![
            goal("/main.typ@bench_a", 0),
            goal("/main.typ@bench", 3),
            goal("/main.typ@benchmark", 5),
        ]
    );
    assert_eq!(collect_goals("/main.typ", &vec![]), vec![]);
}

#[test]
fn functions_that_fail_are_passed_over() {
    assert_eq!(first_call("m@bench", Ok(())), FirstCall::Measure);
    assert_eq!(
        first_call("m@bench", Err("[panic]".to_owned())),
        FirstCall::Report("call error in m@bench: [panic]".to_owned())
    );
}

#[test]
fn each_function_is_called_and_measured_in_turn() {
    let mut run = bench(&PathBuf::from("/main.typ"));
    assert_eq!(run.state, BenchState::Evaluating);
    let bindings =
        vec![binding("bench_a", true), binding("x", true), binding("bench_b", true)];
    assert_eq!(run.advance(BenchEvent::Evaluated(Ok(bindings))), None);
    assert_eq!(run.goals[1], Goal { name: "/main.typ@bench_b".to_owned(), binding: 2 });
    assert_eq!(run.state, BenchState::Calling(0));
    assert_eq!(
        run.advance(BenchEvent::Called(Err("[panic]".to_owned()))),
        Some("call error in /main.typ@bench_a: [panic]".to_owned())
    );
    assert_eq!(run.state, BenchState::Calling(1));
    assert_eq!(run.advance(BenchEvent::Called(Ok(()))), None);
    assert_eq!(run.state, BenchState::Measuring(1));
    assert_eq!(run.advance(BenchEvent::Measured), None);
    assert_eq!(run.state, BenchState::Finished(Ok(())));
}

#[test]
fn what_works_is_measured_in_order_and_the_rest_reported() {
    let calls = [Ok(()), Err("a".to_owned()), Ok(()), Err("b".to_owned()), Ok(())];
    let bindings = (0..5).map(|i| binding(&format!("bench{i}"), true)).collect();
    let mut run = bench(&PathBuf::from("m"));
    run.advance(BenchEvent::Evaluated(Ok(bindings)));
    let (mut measured, mut reports, mut events) = (vec![], vec![], 1);
    loop {
        let event = match &run.state {
            BenchState::Calling(i) => BenchEvent::Called(calls[*i].clone()),
            BenchState::Measuring(i) => {
                measured.push(run.goals[*i].name.clone());
                BenchEvent::Measured
            }
            state => {
                assert_eq!(state, &BenchState::Finished(Ok(())));
                break;
            }
        };
        reports.extend(run.advance(event));
        events += 1;
    }
    assert_eq!(measured, ["m@bench0", "m@bench2", "m@bench4"]);
    assert_eq!(reports, ["call error in m@bench1: a", "call error in m@bench3: b"]);
    assert_eq!(events, 9);
}

#[test]
fn the_main_path_is_written_with_slashes() {
    assert_eq!(bench(&PathBuf::from("/a/./b//main.typ")).main_path, "/a/b/main.typ");
    assert_eq!(bench(&PathBuf::from("")).main_path, ".");
}

#[test]
fn nothing_is_measured_without_functions() {
    let mut run = bench(&PathBuf::from("/main.typ"));
    assert_eq!(run.advance(BenchEvent::Evaluated(Ok(vec![]))), None);
    assert_eq!(run.state, BenchState::Finished(Ok(())));

    let mut run = bench(&PathBuf::from("/main.typ"));
    assert_eq!(run.advance(BenchEvent::Evaluated(Err("typo".to_owned()))), None);
    let err = BenchError::Evaluation("typo".to_owned());
    assert_eq!(err.message(), "evaluation error");
    assert_eq!(run.state, BenchState::Finished(Err(err)));
}
