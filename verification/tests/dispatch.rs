use illumos_events::dispatcher::{
    thread_names, undelivered, worker_count, worker_name, Route, Undelivered, MIN_THREADS,
    REALTIME_PRIORITY,
};

#[test]
fn there_are_at_least_two_workers() {
    assert_eq!(MIN_THREADS, 2);
    assert_eq!(worker_count(None), 2);
    assert_eq!(worker_count(Some(1)), 2);
    assert_eq!(worker_count(Some(2)), 2);
    assert_eq!(worker_count(Some(16)), 16);
}

#[test]
fn workers_are_named_by_number() {
    assert_eq!(worker_name(0), "Worker-0");
    assert_eq!(worker_name(9), "Worker-9");
    assert_eq!(worker_name(10), "Worker-10");
    assert_eq!(worker_name(4207), "Worker-4207");
    assert_eq!(worker_name(usize::MAX), format!("Worker-{}", usize::MAX));
}

#[test]
fn the_timer_thread_starts_last() {
    assert_eq!(thread_names(None), vec!["Worker-0", "Worker-1", "Timer"]);
    let names = thread_names(Some(12));
    assert_eq!(names.len(), 13);
    assert_eq!(names[11], "Worker-11");
    assert_eq!(names[12], "Timer");
}

#[test]
fn only_background_work_must_be_delivered() {
    assert_eq!(undelivered(Route::Background), Undelivered::Panic);
    assert_eq!(undelivered(Route::MainThread), Undelivered::Leak);
    assert_eq!(undelivered(Route::Timer), Undelivered::Leak);
}

#[test]
fn realtime_threads_have_a_fixed_priority() {
    assert_eq!(REALTIME_PRIORITY, 65);
}
