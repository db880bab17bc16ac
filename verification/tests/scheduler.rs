use njupt_wifi::scheduler::Debouncer;

const WINDOW: u64 = 3000;

// Runs the scheduler loop over signal arrival times: a signal is processed
// once the loop is free, an accepted one waits out a full debounce window,
// the attempt takes `attempt_len`, and its end is recorded.
fn run_loop(arrivals: &[u64], attempt_len: u64) -> usize {
    let mut d = Debouncer::new(WINDOW);
    let mut free_at: u64 = 0;
    let mut attempts = 0;
    for &t in arrivals {
        let processed_at = if t > free_at { t } else { free_at };
        if d.accepts(processed_at) {
            let end = processed_at + WINDOW + attempt_len;
            attempts += 1;
            d.record_attempt_end(end);
            free_at = end;
        }
    }
    attempts
}

#[test]
fn a_burst_within_one_window_yields_one_attempt() {
    assert_eq!(run_loop(&[0, 100, 900, 1500, 2900], 50), 1);
}

#[test]
fn a_single_signal_yields_one_attempt() {
    assert_eq!(run_loop(&[0], 0), 1);
}

#[test]
fn a_signal_a_full_window_after_the_attempt_yields_another() {
    // First attempt ends at 3050; the next signal arrives a full window
    // after that and is accepted.
    assert_eq!(run_loop(&[0, 3050 + WINDOW], 50), 2);
}

#[test]
fn a_signal_just_inside_the_window_after_the_attempt_is_discarded() {
    assert_eq!(run_loop(&[0, 3050 + WINDOW - 1], 50), 1);
}
