use snatchr::dispatch::DispatchError;
use snatchr::slots::{Admission, Slots};

#[test]
fn slots_refuse_a_ceiling_of_zero() {
    match Slots::new(0) {
        Err(e) => assert_eq!(e, DispatchError::InvalidConfiguration),
        Ok(_) => panic!("a ceiling of zero was accepted"),
    }
}

#[test]
fn slots_start_jobs_up_to_the_ceiling_and_queue_the_rest() {
    let mut slots = Slots::new(2).unwrap();
    let mut admissions = vec![];
    for job in 1..=4u64 {
        let (next, admission) = slots.acquire(job);
        slots = next;
        admissions.push(admission);
        assert!(slots.running() <= 2);
    }
    assert_eq!(
        admissions,
        vec![Admission::Started, Admission::Started, Admission::Queued, Admission::Queued]
    );
    assert_eq!(slots.running(), 2);
    assert_eq!(slots.waiting(), 2);
}

#[test]
fn slots_hand_a_freed_slot_to_the_job_that_waited_longest() {
    let mut slots = Slots::new(1).unwrap();
    for job in [10u64, 20, 30] {
        slots = slots.acquire(job).0;
    }
    let (slots, next) = slots.release();
    assert_eq!(next, Some(20));
    assert_eq!(slots.running(), 1);
    let (slots, next) = slots.release();
    assert_eq!(next, Some(30));
    assert_eq!(slots.running(), 1);
    let (slots, next) = slots.release();
    assert_eq!(next, None);
    assert_eq!(slots.running(), 0);
    let (slots, next) = slots.release();
    assert_eq!(next, None);
    assert_eq!(slots.running(), 0);
    assert_eq!(slots.waiting(), 0);
}

#[test]
fn slots_let_a_waiting_job_withdraw() {
    let mut slots = Slots::new(1).unwrap();
    for job in [1u64, 2, 3, 2] {
        slots = slots.acquire(job).0;
    }
    assert_eq!(slots.waiting(), 3);
    let (slots, was_waiting) = slots.withdraw(2);
    assert!(was_waiting);
    assert_eq!(slots.waiting(), 2);
    let (slots, was_waiting) = slots.withdraw(7);
    assert!(!was_waiting);
    assert_eq!(slots.waiting(), 2);
    let (slots, next) = slots.release();
    assert_eq!(next, Some(3));
    let (slots, next) = slots.release();
    assert_eq!(next, Some(2));
    let (_, next) = slots.release();
    assert_eq!(next, None);
}
