use std::sync::{Arc, Mutex};
use std::time::{Duration, Instant};
use vex2pdf::lib_utils::concurrency::threadpool::{resolve_pool_size, Dispatcher};

fn work_for(duration: Duration) {
    let start = Instant::now();
    while start.elapsed() < duration {
        std::hint::spin_loop();
    }
}

#[test]
fn test_threadpool_creation_modes() {
    let pool_default = Dispatcher::with_parallelism(0, 4);
    assert!(!pool_default.is_single_threaded());
    assert_eq!(
        pool_default.to_string(),
        "Concurrency Enabled: running with 4 jobs"
    );

    let pool_single = Dispatcher::new(1);
    assert!(pool_single.is_single_threaded());

    let pool_multi = Dispatcher::new(4);
    assert!(!pool_multi.is_single_threaded());
    assert_eq!(
        pool_multi.to_string(),
        "Concurrency Enabled: running with 4 jobs"
    );
}

#[test]
fn test_single_threaded_execution() {
    let pool = Dispatcher::new(1);
    let counter = Arc::new(Mutex::new(0));
    let counter_clone = Arc::clone(&counter);

    pool.execute(move || {
        let mut num = counter_clone.lock().unwrap();
        *num += 1;
    })
    .expect("Failed to execute job");

    let value = *counter.lock().unwrap();
    assert_eq!(value, 1);
}

#[test]
fn test_multi_threaded_execution() {
    let pool = Dispatcher::new(2);
    let results = Arc::new(Mutex::new(Vec::new()));

    for i in 0..5 {
        let results_clone = Arc::clone(&results);
        pool.execute(move || {
            work_for(Duration::from_millis(10));
            results_clone.lock().unwrap().push(i);
        })
        .expect("Failed to execute job");
    }

    pool.shutdown();

    let final_results = results.lock().unwrap();
    assert_eq!(final_results.len(), 5);
    for i in 0..5 {
        assert!(final_results.contains(&i));
    }
}

#[test]
fn test_get_num_threads() {
    let pool1 = Dispatcher::new(1);
    assert!(pool1.to_string().starts_with("Concurrency Disabled"));

    let pool4 = Dispatcher::new(4);
    assert_eq!(pool4.to_string(), "Concurrency Enabled: running with 4 jobs");

    let pool_default = Dispatcher::with_parallelism(0, 3);
    assert_eq!(
        pool_default.to_string(),
        "Concurrency Enabled: running with 3 jobs"
    );
}

#[test]
fn test_is_single_threaded() {
    let pool_single = Dispatcher::new(1);
    assert!(pool_single.is_single_threaded());

    let pool_multi = Dispatcher::new(2);
    assert!(!pool_multi.is_single_threaded());

    let pool_default = Dispatcher::with_parallelism(0, 2);
    assert!(!pool_default.is_single_threaded());
}

#[test]
fn test_pool_graceful_shutdown() {
    let pool = Dispatcher::new(3);
    let completed = Arc::new(Mutex::new(0));

    for _ in 0..10 {
        let completed_clone = Arc::clone(&completed);
        pool.execute(move || {
            work_for(Duration::from_millis(20));
            *completed_clone.lock().unwrap() += 1;
        })
        .expect("Failed to execute job");
    }

    pool.shutdown();

    assert_eq!(*completed.lock().unwrap(), 10);
}

#[test]
fn disabled_pool_has_run_each_job_when_execute_returns() {
    let pool = Dispatcher::new(1);
    let counter = Arc::new(Mutex::new(0usize));
    for n in 1..=25usize {
        let counter_clone = Arc::clone(&counter);
        let result = pool.execute(move || {
            work_for(Duration::from_millis(1));
            *counter_clone.lock().unwrap() += 1;
        });
        assert!(result.is_ok());
        assert_eq!(*counter.lock().unwrap(), n);
    }
    pool.shutdown();
    assert_eq!(*counter.lock().unwrap(), 25);
}

#[test]
fn active_pool_has_run_every_job_after_shutdown() {
    for workers in [2u8, 3, 8] {
        let pool = Dispatcher::new(workers);
        let counter = Arc::new(Mutex::new(0usize));
        for _ in 0..200 {
            let counter_clone = Arc::clone(&counter);
            pool.execute(move || {
                *counter_clone.lock().unwrap() += 1;
            })
            .expect("Failed to execute job");
        }
        pool.shutdown();
        assert_eq!(*counter.lock().unwrap(), 200);
    }
}

#[test]
fn shutdown_of_an_idle_pool_returns() {
    Dispatcher::new(1).shutdown();
    Dispatcher::new(5).shutdown();
}

#[test]
fn pool_size_is_resolved_against_the_machine() {
    assert_eq!(resolve_pool_size(0, 8), 8);
    assert_eq!(resolve_pool_size(0, 1), 1);
    assert_eq!(resolve_pool_size(0, 255), 255);
    assert_eq!(resolve_pool_size(0, 256), 255);
    assert_eq!(resolve_pool_size(0, 100_000), 255);
    assert_eq!(resolve_pool_size(0, 0), 0);
    assert_eq!(resolve_pool_size(1, 8), 1);
    assert_eq!(resolve_pool_size(7, 2), 7);
    assert_eq!(resolve_pool_size(255, 1), 255);
}

#[test]
fn a_machine_with_one_thread_gets_a_disabled_pool() {
    let pool = Dispatcher::with_parallelism(0, 1);
    assert!(pool.is_single_threaded());
    assert_eq!(
        pool.to_string(),
        "Concurrency Disabled: running all jobs sequentially in main thread. A user override forced this through an VEX2PDF_MAX_JOBS or the --max-jobs cli argument"
    );
}

#[test]
fn description_counts_the_workers() {
    assert_eq!(
        Dispatcher::new(2).to_string(),
        "Concurrency Enabled: running with 2 jobs"
    );
    assert_eq!(
        Dispatcher::new(12).to_string(),
        "Concurrency Enabled: running with 12 jobs"
    );
}

#[test]
fn pool_for_the_settings_needs_a_thread_to_run_on() {
    match Dispatcher::for_jobs(None, 0) {
        Err(e) => assert_eq!(
            e.to_string(),
            "Concurrency error : Unable to find any threads to run with. Possible system-side restrictions or limitations"
        ),
        Ok(_) => panic!("a machine without threads cannot run a pool"),
    }
    assert!(Dispatcher::for_jobs(Some(0), 0).is_err());

    let pool = Dispatcher::for_jobs(Some(1), 0).unwrap();
    assert!(pool.is_single_threaded());
    let pool = Dispatcher::for_jobs(Some(2), 0).unwrap();
    assert_eq!(pool.to_string(), "Concurrency Enabled: running with 2 jobs");
    let pool = Dispatcher::for_jobs(None, 3).unwrap();
    assert_eq!(pool.to_string(), "Concurrency Enabled: running with 3 jobs");
    let pool = Dispatcher::for_jobs(Some(0), 1).unwrap();
    assert!(pool.is_single_threaded());
}
