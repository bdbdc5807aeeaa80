use smart_pointers::demo::{
    arc_test, box_test, memory_leak_test, performance_test, runs_again, shared_pointer_test,
    test_mark, test_performance, unique_pointer_test, ReportLine,
};
use std::cell::Cell;

fn text_of(line: &ReportLine) -> String {
    match line {
        ReportLine::Mark(text) => text.clone(),
        ReportLine::Sum(sum) => format!("{sum}"),
    }
}

#[test]
fn workloads_return_the_sum_when_asked_to_print() {
    assert_eq!(unique_pointer_test(true), Some(3));
    assert_eq!(shared_pointer_test(true), Some(3));
    assert_eq!(box_test(true), Some(3));
    assert_eq!(arc_test(true), Some(3));
}

#[test]
fn workloads_return_nothing_otherwise() {
    assert_eq!(unique_pointer_test(false), None);
    assert_eq!(shared_pointer_test(false), None);
    assert_eq!(box_test(false), None);
    assert_eq!(arc_test(false), None);
}

#[test]
fn test_mark_frames_the_name() {
    assert_eq!(text_of(&test_mark("Start box test")), "====== Start box test ======");
    assert_eq!(text_of(&test_mark("")), "======  ======");
}

#[test]
fn memory_leak_test_reports_both_workloads() {
    let mut lines: Vec<String> = Vec::new();
    let mut step = 0;
    while let Some(line) = memory_leak_test(step) {
        lines.push(text_of(&line));
        step += 1;
    }
    assert_eq!(
        lines,
        vec![
            "====== Start box test ======",
            "3",
            "====== End box test ======",
            "====== Start Arc test ======",
            "3",
            "====== End Arc test ======",
        ]
    );
}

#[test]
fn memory_leak_test_steps_are_marks_and_sums() {
    assert!(matches!(memory_leak_test(0), Some(ReportLine::Mark(_))));
    assert!(matches!(memory_leak_test(1), Some(ReportLine::Sum(3))));
    assert!(matches!(memory_leak_test(2), Some(ReportLine::Mark(_))));
    assert!(matches!(memory_leak_test(3), Some(ReportLine::Mark(_))));
    assert!(matches!(memory_leak_test(4), Some(ReportLine::Sum(3))));
    assert!(matches!(memory_leak_test(5), Some(ReportLine::Mark(_))));
}

#[test]
fn memory_leak_test_is_over_after_six_steps() {
    assert!(memory_leak_test(6).is_none());
    assert!(memory_leak_test(7).is_none());
    assert!(memory_leak_test(usize::MAX).is_none());
}

#[test]
fn runs_again_within_the_second() {
    assert!(runs_again(0, 0));
    assert!(runs_again(0, 1));
    assert!(runs_again(0, u64::MAX - 1));
}

#[test]
fn runs_again_stops_when_the_second_is_over() {
    assert!(!runs_again(1, 0));
    assert!(!runs_again(1, 5));
    assert!(!runs_again(2, 5));
    assert!(!runs_again(u64::MAX, 0));
}

#[test]
fn runs_again_stops_when_the_counter_is_full() {
    assert!(!runs_again(0, u64::MAX));
    assert!(!runs_again(1, u64::MAX));
}

#[test]
fn test_performance_counts_the_runs() {
    let runs = Cell::new(0u64);
    let measurement = test_performance(
        |print| {
            assert!(!print);
            runs.set(runs.get() + 1);
            None
        },
        "Counter",
    );
    assert_eq!(measurement.name, "Counter");
    assert_eq!(measurement.iterations, runs.get());
    assert!(measurement.iterations >= 1);
    assert!(measurement.elapsed_secs >= 1);
}

#[test]
fn performance_test_measures_the_four_workloads() {
    let mut names: Vec<String> = Vec::new();
    let mut step = 0;
    while let Some(measurement) = performance_test(step) {
        assert!(measurement.iterations >= 1);
        assert!(measurement.elapsed_secs >= 1);
        names.push(measurement.name);
        step += 1;
    }
    assert_eq!(names, vec!["Unique pointer", "Shared pointer", "Box", "Arc"]);
    assert_eq!(step, 4);
}

#[test]
fn performance_test_is_over_after_four_steps() {
    assert!(performance_test(4).is_none());
    assert!(performance_test(usize::MAX).is_none());
}
