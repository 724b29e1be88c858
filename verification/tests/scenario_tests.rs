//! The counter scenario: several workers each increment the protected value
//! a fixed number of times, their critical sections interleaved round-robin;
//! the final count must be exactly workers x increments, with no lost update.

use spin_mutex::Mutex;

fn run_counter_scenario(workers: usize, increments_per_worker: usize) -> u64 {
    let mut m = Mutex::new(0u64);
    let mut remaining = vec![increments_per_worker; workers];
    let mut left = workers * increments_per_worker;
    while left > 0 {
        for w in 0..workers {
            if remaining[w] > 0 {
                m.with_lock(|v| {
                    *v += 1;
                });
                remaining[w] -= 1;
                left -= 1;
            }
        }
    }
    m.with_lock(|v| *v)
}

#[test]
fn ten_workers_ten_increments_each() {
    assert_eq!(run_counter_scenario(10, 10), 100);
}

#[test]
fn one_worker_a_thousand_increments() {
    assert_eq!(run_counter_scenario(1, 1000), 1000);
}

#[test]
fn a_hundred_workers_one_increment_each() {
    assert_eq!(run_counter_scenario(100, 1), 100);
}
