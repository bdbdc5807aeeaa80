//! Small workloads that exercise the handles: once each, to look for leaks
//! from outside, and over and over for a second, to compare their speed with
//! that of `Box` and `Arc`.
//!
//! Nothing is printed here. A workload returns what it would print. The two
//! drivers go step by step and return one line of their report at a time, so
//! that the caller can print each line before the next step runs.
use crate::shared_pointer::{another_handle, SharedPointer};
use crate::unique_pointer::UniquePointer;
use std::sync::{Arc, Mutex, MutexGuard, TryLockError};
use std::time::{Duration, Instant};
use vstd::prelude::*;
use vstd::string::StringExecFns;

verus! {

/// `std::time::Instant`, a reading of the monotonic clock.
#[verifier::external_type_specification]
#[verifier::external_body]
pub struct ExInstant(Instant);

/// `std::sync::Mutex`.
#[verifier::external_type_specification]
#[verifier::external_body]
#[verifier::reject_recursive_types(T)]
pub struct ExMutex<T: ?Sized>(Mutex<T>);

/// `std::sync::MutexGuard`, the held lock.
#[verifier::external_type_specification]
#[verifier::external_body]
#[verifier::reject_recursive_types(T)]
pub struct ExMutexGuard<'a, T: ?Sized + 'a>(MutexGuard<'a, T>);

/// `std::sync::TryLockError`, why `try_lock` did not get the lock.
#[verifier::external_type_specification]
#[verifier::external_body]
#[verifier::reject_recursive_types(T)]
pub struct ExTryLockError<T>(TryLockError<T>);

/// `Instant::now` reads the clock: nothing is known of the result.
pub assume_specification[ Instant::now ]() -> Instant;

/// `Instant::elapsed` reads the clock again: nothing is known of the result.
pub assume_specification[ Instant::elapsed ](start: &Instant) -> Duration;

/// `Duration::as_secs`, the whole seconds in a span. Spans are opaque here, so
/// nothing is said of the number.
pub assume_specification[ Duration::as_secs ](span: &Duration) -> u64;

/// `Mutex::new`. What a mutex guards is not modelled.
pub assume_specification<T>[ Mutex::<T>::new ](value: T) -> Mutex<T>;

/// `Mutex::try_lock` takes the lock if it is free, and returns at once in
/// every state. It fails if the lock is held, or if an earlier holder
/// panicked.
pub assume_specification<'a, T: ?Sized>[ Mutex::<T>::try_lock ](mutex: &'a Mutex<T>) -> Result<
    MutexGuard<'a, T>,
    TryLockError<MutexGuard<'a, T>>,
>;

/// `MutexGuard::deref_mut`, write access to what the mutex guards. What is
/// found there is not modelled.
pub assume_specification<'a, 'b, T: ?Sized>[ <MutexGuard<'a, T> as core::ops::DerefMut>::deref_mut ](
    guard: &'b mut MutexGuard<'a, T>,
) -> &'b mut T;

/// Moves one exclusive pointer, writes through another, and adds up two
/// pointees. Returns the sum if `print` asks for it.
pub fn unique_pointer_test(print: bool) -> (output: Option<i32>)
    ensures
        output == (if print {
            Some(3i32)
        } else {
            None
        }),
{
    let pointer = UniquePointer::new(1i32);
    let pointer2 = UniquePointer::new(2i32);
    let pointer3 = pointer;

    let mut pointer4 = UniquePointer::new(Vec::<i32>::with_capacity(10));
    pointer4.push(1);

    if print {
        Some(*pointer2 + *pointer3)
    } else {
        None
    }
}

/// Clones one shared pointer, writes to a pointee behind a lock of its own,
/// and adds up two pointees. Returns the sum if `print` asks for it.
pub fn shared_pointer_test(print: bool) -> (output: Option<i32>)
    ensures
        output == (if print {
            Some(3i32)
        } else {
            None
        }),
{
    let pointer = SharedPointer::new(1i32);
    let pointer2 = SharedPointer::new(2i32);
    let pointer3 = pointer.clone();

    let pointer4 = SharedPointer::new(Mutex::new(Vec::<i32>::with_capacity(10)));
    if let Ok(mut guard) = pointer4.try_lock() {
        guard.push(1);
    }

    if print {
        Some(*pointer2 + *pointer3)
    } else {
        None
    }
}

/// The workload of [`unique_pointer_test`] on `Box`.
pub fn box_test(print: bool) -> (output: Option<i32>)
    ensures
        output == (if print {
            Some(3i32)
        } else {
            None
        }),
{
    let pointer = Box::new(1i32);
    let pointer2 = Box::new(2i32);
    let pointer3 = pointer;

    let mut pointer4 = Box::new(Vec::<i32>::with_capacity(10));
    pointer4.push(1);

    if print {
        Some(*pointer2 + *pointer3)
    } else {
        None
    }
}

/// The workload of [`shared_pointer_test`] on `Arc`.
pub fn arc_test(print: bool) -> (output: Option<i32>)
    ensures
        output == (if print {
            Some(3i32)
        } else {
            None
        }),
{
    let pointer = Arc::new(1i32);
    let pointer2 = Arc::new(2i32);
    let pointer3 = another_handle(&pointer);

    let pointer4 = Arc::new(Mutex::new(Vec::<i32>::with_capacity(10)));
    if let Ok(mut guard) = pointer4.try_lock() {
        guard.push(1);
    }

    if print {
        Some(*pointer2 + *pointer3)
    } else {
        None
    }
}

/// One line of a report.
pub enum ReportLine {
    /// A line that marks where a workload starts or ends.
    Mark(String),
    /// What a workload printed.
    Sum(i32),
}

impl ReportLine {
    /// The line is the mark of `test_name`.
    pub open spec fn is_mark(self, test_name: Seq<char>) -> bool {
        self matches ReportLine::Mark(text) && text@ == mark_text(test_name)
    }
}

/// The text of the mark of `test_name`.
pub open spec fn mark_text(test_name: Seq<char>) -> Seq<char> {
    "====== "@ + test_name + " ======"@
}

/// The line that marks `test_name` in a report.
pub fn test_mark(test_name: &str) -> (line: ReportLine)
    ensures
        line.is_mark(test_name@),
{
    let mut text = String::from_str("====== ");
    text.append(test_name);
    text.append(" ======");
    ReportLine::Mark(text)
}

/// What the step `step` of [`memory_leak_test`] returns.
pub open spec fn memory_leak_line(step: usize, line: Option<ReportLine>) -> bool {
    if step == 0 {
        line matches Some(mark) && mark.is_mark("Start box test"@)
    } else if step == 1 {
        line == Some(ReportLine::Sum(3))
    } else if step == 2 {
        line matches Some(mark) && mark.is_mark("End box test"@)
    } else if step == 3 {
        line matches Some(mark) && mark.is_mark("Start Arc test"@)
    } else if step == 4 {
        line == Some(ReportLine::Sum(3))
    } else if step == 5 {
        line matches Some(mark) && mark.is_mark("End Arc test"@)
    } else {
        line is None
    }
}

/// The sum that a workload returned, as a line.
fn sum_line(output: Option<i32>) -> (line: Option<ReportLine>)
    ensures
        line == (match output {
            Some(sum) => Some(ReportLine::Sum(sum)),
            None => None,
        }),
{
    match output {
        Some(sum) => Some(ReportLine::Sum(sum)),
        None => None,
    }
}

/// One step of the run for a tool that watches the process for leaks.
///
/// The steps are, from 0: the mark of the exclusive workload's start, the
/// workload itself, the mark of its end, and the same three for the shared
/// workload. A step returns the line to print, and `None` when the run is
/// over. A workload runs in its own step only, so what it allocates lies
/// between its two marks.
pub fn memory_leak_test(step: usize) -> (line: Option<ReportLine>)
    ensures
        memory_leak_line(step, line),
{
    if step == 0 {
        Some(test_mark("Start box test"))
    } else if step == 1 {
        sum_line(unique_pointer_test(true))
    } else if step == 2 {
        Some(test_mark("End box test"))
    } else if step == 3 {
        Some(test_mark("Start Arc test"))
    } else if step == 4 {
        sum_line(shared_pointer_test(true))
    } else if step == 5 {
        Some(test_mark("End Arc test"))
    } else {
        None
    }
}

/// How often a workload ran before its measuring stopped.
pub struct Measurement {
    pub name: String,
    /// The number of runs.
    pub iterations: u64,
    /// The whole seconds that the clock showed when the measuring stopped.
    pub elapsed_secs: u64,
}

impl Measurement {
    /// The measuring stopped because its second was over or its counter
    /// full.
    pub open spec fn stopped(self) -> bool {
        !goes_on(self.elapsed_secs, self.iterations)
    }
}

/// A measuring that has counted `iterations` runs goes on while less than a
/// second has passed and the counter is not full.
pub open spec fn goes_on(elapsed_secs: u64, iterations: u64) -> bool {
    elapsed_secs < 1 && iterations < u64::MAX
}

/// Whether a measuring goes on after `iterations` runs, `elapsed_secs` whole
/// seconds after its start.
pub fn runs_again(elapsed_secs: u64, iterations: u64) -> (again: bool)
    ensures
        again == goes_on(elapsed_secs, iterations),
{
    elapsed_secs < 1 && iterations < u64::MAX
}

/// `outputs` is what that many runs of `function` without printing may have
/// returned, one after the other.
pub open spec fn ran_without_printing<F: Fn(bool) -> Option<i32>>(
    function: F,
    outputs: Seq<Option<i32>>,
) -> bool {
    forall|run: int| 0 <= run < outputs.len() ==> function.ensures((false,), #[trigger] outputs[run])
}

/// Measures `function`: reads the clock, and as long as [`runs_again`] says
/// so, runs `function` without printing, counts the run and reads the clock
/// again. How many runs there are is up to the clock.
pub fn test_performance<F: Fn(bool) -> Option<i32>>(function: F, name: &str) -> (measurement:
    Measurement)
    requires
        function.requires((false,)),
    ensures
        measurement.name@ == name@,
        measurement.stopped(),
        exists|outputs: Seq<Option<i32>>|
            outputs.len() == measurement.iterations && ran_without_printing(function, outputs),
{
    let mut iterations: u64 = 0;
    let ghost mut outputs: Seq<Option<i32>> = Seq::empty();
    let start = Instant::now();
    let mut elapsed_secs: u64 = start.elapsed().as_secs();
    while runs_again(elapsed_secs, iterations)
        invariant
            function.requires((false,)),
            outputs.len() == iterations,
            ran_without_printing(function, outputs),
        decreases u64::MAX - iterations,
    {
        let output = function(false);
        proof {
            outputs = outputs.push(output);
        }
        iterations += 1;
        elapsed_secs = start.elapsed().as_secs();
    }
    Measurement { name: String::from_str(name), iterations, elapsed_secs }
}

/// What the step `step` of [`performance_test`] returns.
pub open spec fn performance_line(step: usize, line: Option<Measurement>) -> bool {
    if step == 0 {
        line matches Some(measurement) && measurement.name@ == "Unique pointer"@
            && measurement.stopped()
    } else if step == 1 {
        line matches Some(measurement) && measurement.name@ == "Shared pointer"@
            && measurement.stopped()
    } else if step == 2 {
        line matches Some(measurement) && measurement.name@ == "Box"@ && measurement.stopped()
    } else if step == 3 {
        line matches Some(measurement) && measurement.name@ == "Arc"@ && measurement.stopped()
    } else {
        line is None
    }
}

/// One step of the comparison of speed: measures one workload. The steps
/// are, from 0: exclusive pointer, shared pointer, `Box`, `Arc`. A step
/// returns its measurement, and `None` when the comparison is over.
pub fn performance_test(step: usize) -> (line: Option<Measurement>)
    ensures
        performance_line(step, line),
{
    if step == 0 {
        Some(test_performance(unique_pointer_test, "Unique pointer"))
    } else if step == 1 {
        Some(test_performance(shared_pointer_test, "Shared pointer"))
    } else if step == 2 {
        Some(test_performance(box_test, "Box"))
    } else if step == 3 {
        Some(test_performance(arc_test, "Arc"))
    } else {
        None
    }
}

} // verus!
