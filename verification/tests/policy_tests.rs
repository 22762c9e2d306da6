use herald::policy::after_failure;
use herald::policy::queue_for_urgency;
use herald::policy::retry_policy;
use herald::policy::Followup;
use herald::policy::Lane;
use herald::policy::LAST_ATTEMPT;
use herald::policy::QUEUE_HIGH;
use herald::policy::QUEUE_NORMAL;
use herald::tunnel::convert_urgency;
use herald::types::SignalUrgency;
use std::time::Duration;

#[test]
fn test_retry_policy_immediate_first_attempt() {
    assert_eq!(Duration::from_secs(retry_policy(0)), Duration::from_secs(0));
}

#[test]
fn test_retry_policy_one_minute_second_attempt() {
    assert_eq!(Duration::from_secs(retry_policy(1)), Duration::from_secs(60));
}

#[test]
fn test_retry_policy_exponential_backoff() {
    assert_eq!(Duration::from_secs(retry_policy(2)), Duration::from_secs(300)); // 5 min
    assert_eq!(Duration::from_secs(retry_policy(3)), Duration::from_secs(1800)); // 30 min
    assert_eq!(Duration::from_secs(retry_policy(4)), Duration::from_secs(7200)); // 2 hours
}

#[test]
fn test_retry_policy_max_backoff() {
    // Attempt 5 still waits two hours; beyond it the delay caps at 6 hours
    assert_eq!(Duration::from_secs(retry_policy(5)), Duration::from_secs(7200));
    assert_eq!(Duration::from_secs(retry_policy(6)), Duration::from_secs(21600));
    assert_eq!(Duration::from_secs(retry_policy(100)), Duration::from_secs(21600));
}

#[test]
fn test_convert_urgency_all_levels() {
    assert_eq!(convert_urgency(&SignalUrgency::Low), SignalUrgency::Low);
    assert_eq!(convert_urgency(&SignalUrgency::Normal), SignalUrgency::Normal);
    assert_eq!(convert_urgency(&SignalUrgency::High), SignalUrgency::High);
    assert_eq!(convert_urgency(&SignalUrgency::Critical), SignalUrgency::Critical);
}

#[test]
fn test_queue_selection_for_urgent_signals() {
    // High and Critical should go to delivery-high queue
    assert_eq!(queue_for_urgency(&SignalUrgency::High), "delivery-high");
    assert_eq!(queue_for_urgency(&SignalUrgency::Critical), "delivery-high");
}

#[test]
fn test_queue_selection_for_normal_signals() {
    // Low and Normal should go to delivery-normal queue
    assert_eq!(queue_for_urgency(&SignalUrgency::Low), "delivery-normal");
    assert_eq!(queue_for_urgency(&SignalUrgency::Normal), "delivery-normal");
}

#[test]
fn retry_schedule_is_exact() {
    let expected: [u64; 8] = [0, 60, 300, 1800, 7200, 7200, 21600, 21600];
    for (attempt, delay) in expected.iter().enumerate() {
        assert_eq!(retry_policy(attempt as u32), *delay);
    }
    assert_eq!(retry_policy(u32::MAX), 21600);
}

#[test]
fn lanes_have_their_queues() {
    assert_eq!(Lane::High.queue_name(), QUEUE_HIGH);
    assert_eq!(Lane::Normal.queue_name(), QUEUE_NORMAL);
    assert_eq!(QUEUE_HIGH, "delivery-high");
    assert_eq!(QUEUE_NORMAL, "delivery-normal");
    assert_eq!(Lane::for_urgency(SignalUrgency::Low), Lane::Normal);
    assert_eq!(Lane::for_urgency(SignalUrgency::Normal), Lane::Normal);
    assert_eq!(Lane::for_urgency(SignalUrgency::High), Lane::High);
    assert_eq!(Lane::for_urgency(SignalUrgency::Critical), Lane::High);
}

#[test]
fn every_attempt_of_a_signal_stays_on_its_lane() {
    for urgency in [
        SignalUrgency::Low,
        SignalUrgency::Normal,
        SignalUrgency::High,
        SignalUrgency::Critical,
    ] {
        for attempt in 0..LAST_ATTEMPT {
            match after_failure(attempt, urgency) {
                Followup::Requeue { lane, .. } => assert_eq!(lane, Lane::for_urgency(urgency)),
                Followup::DeadLetter => panic!("attempt {} must be retried", attempt),
            }
        }
    }
}

#[test]
fn six_failures_end_in_one_dead_letter() {
    let mut attempt = 0;
    let mut attempts_made = vec![];
    let mut delays = vec![];
    let mut dead_letters = 0;
    loop {
        attempts_made.push(attempt);
        match after_failure(attempt, SignalUrgency::Normal) {
            Followup::Requeue { attempt: next, delay_secs, .. } => {
                delays.push(delay_secs);
                attempt = next;
            }
            Followup::DeadLetter => {
                dead_letters += 1;
                break;
            }
        }
    }
    assert_eq!(attempts_made, vec![0, 1, 2, 3, 4, 5]);
    assert_eq!(delays, vec![60, 300, 1800, 7200, 7200]);
    assert_eq!(dead_letters, 1);
}

#[test]
fn attempts_beyond_the_last_go_to_the_dead_letter_queue() {
    assert!(matches!(after_failure(5, SignalUrgency::High), Followup::DeadLetter));
    assert!(matches!(after_failure(6, SignalUrgency::High), Followup::DeadLetter));
    assert!(matches!(after_failure(i32::MAX, SignalUrgency::Low), Followup::DeadLetter));
}

#[test]
fn negative_attempts_are_requeued_with_the_longest_delay() {
    match after_failure(-1, SignalUrgency::Low) {
        Followup::Requeue { attempt, delay_secs, lane } => {
            assert_eq!(attempt, 0);
            assert_eq!(delay_secs, 0);
            assert_eq!(lane, Lane::Normal);
        }
        Followup::DeadLetter => panic!("expected a requeue"),
    }
    match after_failure(-7, SignalUrgency::Critical) {
        Followup::Requeue { attempt, delay_secs, lane } => {
            assert_eq!(attempt, -6);
            assert_eq!(delay_secs, 21600);
            assert_eq!(lane, Lane::High);
        }
        Followup::DeadLetter => panic!("expected a requeue"),
    }
}
