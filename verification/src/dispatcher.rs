//! How many threads a dispatcher runs, what they are called, and what becomes of work that could
//! not be handed over.

use vstd::prelude::*;

verus! {

/// The least number of worker threads.
pub const MIN_THREADS: usize = 2;

/// The scheduling priority that a realtime thread asks for.
pub const REALTIME_PRIORITY: i32 = 65;

/// The number of worker threads on a machine that can run `parallelism` threads at once, where
/// that is known.
pub open spec fn workers(parallelism: Option<usize>) -> usize {
    match parallelism {
        Some(count) => if count > MIN_THREADS {
            count
        } else {
            MIN_THREADS
        },
        None => MIN_THREADS,
    }
}

/// The number of worker threads: one for each thread that the machine can run at once, and two
/// at the least.
pub fn worker_count(parallelism: Option<usize>) -> (count: usize)
    ensures
        count == workers(parallelism),
{
    match parallelism {
        Some(count) => if count > MIN_THREADS {
            count
        } else {
            MIN_THREADS
        },
        None => MIN_THREADS,
    }
}

/// The digit for a number below ten.
pub open spec fn digit(number: nat) -> char
    recommends
        number < 10,
{
    (number + 48) as char
}

/// A number in decimal digits.
pub open spec fn decimal(number: nat) -> Seq<char>
    decreases number,
{
    if number < 10 {
        seq![digit(number)]
    } else {
        decimal(number / 10).push(digit(number % 10))
    }
}

fn digit_text(number: usize) -> (text: &'static str)
    requires
        number < 10,
    ensures
        text@ == seq![digit(number as nat)],
{
    proof {
        reveal_strlit("0");
        reveal_strlit("1");
        reveal_strlit("2");
        reveal_strlit("3");
        reveal_strlit("4");
        reveal_strlit("5");
        reveal_strlit("6");
        reveal_strlit("7");
        reveal_strlit("8");
        reveal_strlit("9");
    }
    match number {
        0 => "0",
        1 => "1",
        2 => "2",
        3 => "3",
        4 => "4",
        5 => "5",
        6 => "6",
        7 => "7",
        8 => "8",
        _ => "9",
    }
}

fn decimal_text(number: usize) -> (text: String)
    ensures
        text@ == decimal(number as nat),
    decreases number,
{
    if number < 10 {
        digit_text(number).to_owned()
    } else {
        let text = decimal_text(number / 10).concat(digit_text(number % 10));
        assert(text@ =~= decimal(number as nat / 10).push(digit(number as nat % 10)));
        text
    }
}

/// The name of the worker thread with the number `index`.
pub open spec fn worker_title(index: nat) -> Seq<char> {
    "Worker-"@ + decimal(index)
}

/// The name of the worker thread with the number `index`.
pub fn worker_name(index: usize) -> (name: String)
    ensures
        name@ == worker_title(index as nat),
{
    "Worker-".to_owned().concat(decimal_text(index).as_str())
}

/// The names of the threads of a dispatcher, in the order in which they start: the workers by
/// number, then the timer.
pub fn thread_names(parallelism: Option<usize>) -> (names: Vec<String>)
    ensures
        names@.len() == workers(parallelism) + 1,
        forall|i: int|
            0 <= i < workers(parallelism) ==> (#[trigger] names@[i])@ == worker_title(i as nat),
        names@.last()@ == "Timer"@,
{
    let count: usize = worker_count(parallelism);
    let mut names: Vec<String> = Vec::new();
    let mut index: usize = 0;
    while index < count
        invariant
            index <= count,
            names@.len() == index,
            forall|i: int| 0 <= i < index ==> (#[trigger] names@[i])@ == worker_title(i as nat),
        decreases count - index,
    {
        names.push(worker_name(index));
        index += 1;
    }
    names.push("Timer".to_owned());
    names
}

/// Where a dispatcher hands work to.
#[derive(Clone, Copy, Debug, PartialEq, Eq, Structural)]
pub enum Route {
    /// The worker threads.
    Background,
    /// The main thread.
    MainThread,
    /// The timer thread.
    Timer,
}

/// What becomes of work that could not be handed over.
#[derive(Clone, Copy, Debug, PartialEq, Eq, Structural)]
pub enum Undelivered {
    /// It cannot happen while the dispatcher lives.
    Panic,
    /// The receiver is gone because the process shuts down. Dropping the work would cancel its
    /// task, perhaps on the wrong thread, so it is leaked.
    Leak,
}

/// What becomes of work that could not be handed over along `route`.
pub fn undelivered(route: Route) -> (fate: Undelivered)
    ensures
        fate == if route == Route::Background {
            Undelivered::Panic
        } else {
            Undelivered::Leak
        },
{
    match route {
        Route::Background => Undelivered::Panic,
        Route::MainThread => Undelivered::Leak,
        Route::Timer => Undelivered::Leak,
    }
}

/// There are as many workers as the machine can run threads at once, but never fewer than two; two
/// if that is not known.
pub proof fn workers_are_enough_and_no_more(parallelism: Option<usize>, count: usize)
    requires
        call_ensures(worker_count, (parallelism,), count),
    ensures
        count >= 2,
        parallelism matches Some(known) ==> count >= known,
        parallelism is None ==> count == 2,
        count > 2 ==> parallelism == Some(count),
{
}

/// The number that decimal digits stand for.
pub open spec fn value_of(digits: Seq<char>) -> int
    decreases digits.len(),
{
    if digits.len() == 0 {
        0
    } else {
        10 * value_of(digits.drop_last()) + (digits.last() as int - '0' as int)
    }
}

/// A number in decimal digits stands for the number, is made of the digits from 0 to 9 alone, and
/// begins with a 0 only if it is 0.
pub proof fn decimals_stand_for_their_number(number: nat)
    ensures
        value_of(decimal(number)) == number,
        decimal(number).len() > 0,
        forall|i: int|
            0 <= i < decimal(number).len() ==> '0' <= #[trigger] decimal(number)[i] <= '9',
        decimal(number)[0] == '0' ==> number == 0,
    decreases number,
{
    reveal_with_fuel(value_of, 2);
    if number >= 10 {
        let rest = decimal(number / 10);
        decimals_stand_for_their_number(number / 10);
        assert(decimal(number).drop_last() =~= rest);
        assert(decimal(number).last() == digit(number % 10));
        assert(decimal(number)[0] == rest[0]);
    } else {
        assert(decimal(number).drop_last() =~= Seq::empty());
    }
}

/// A worker is named after its number, and no two workers have the same name.
pub proof fn workers_are_named_by_number(
    index: usize,
    name: String,
    other: usize,
    other_name: String,
)
    requires
        call_ensures(worker_name, (index,), name),
        call_ensures(worker_name, (other,), other_name),
    ensures
        exists|digits: Seq<char>| #[trigger]
            value_of(digits) == index && name@ == "Worker-"@ + digits && digits.len() > 0 && (
            digits[0] == '0' ==> digits.len() == 1) && forall|i: int|
                0 <= i < digits.len() ==> '0' <= #[trigger] digits[i] <= '9',
        name@ == other_name@ ==> index == other,
{
    let digits = decimal(index as nat);
    let others = decimal(other as nat);
    decimals_stand_for_their_number(index as nat);
    decimals_stand_for_their_number(other as nat);
    assert(value_of(digits) == index && name@ == "Worker-"@ + digits);
    if name@ == other_name@ {
        let at = "Worker-"@.len() as int;
        assert(digits =~= name@.subrange(at, name@.len() as int));
        assert(others =~= other_name@.subrange(at, other_name@.len() as int));
    }
}

/// A dispatcher has one thread more than it has workers; each thread but the last is named as the
/// worker of its number is, and the last one is the timer.
pub proof fn threads_are_the_workers_and_the_timer(
    parallelism: Option<usize>,
    count: usize,
    names: Vec<String>,
    index: usize,
    name: String,
)
    requires
        call_ensures(worker_count, (parallelism,), count),
        call_ensures(thread_names, (parallelism,), names),
        call_ensures(worker_name, (index,), name),
    ensures
        names@.len() == count + 1,
        names@[count as int]@ == "Timer"@,
        index < count ==> names@[index as int]@ == name@,
{
}

/// Work for the workers that could not be handed over is a fault; any other is leaked, so that its
/// task is not cancelled.
pub proof fn only_background_work_must_arrive(route: Route, fate: Undelivered)
    requires
        call_ensures(undelivered, (route,), fate),
    ensures
        fate == Undelivered::Panic <==> route == Route::Background,
        fate == Undelivered::Leak <==> route == Route::MainThread || route == Route::Timer,
{
}

} // verus!
