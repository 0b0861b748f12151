use futures_util::future::Abortable;
use quickask::registry::{RequestAbortState, Slot};

#[test]
fn newer_start_supersedes_older() {
    let mut registry = RequestAbortState::new();
    let (first, first_registration) = registry.start_quick_answer();
    let first_task = Abortable::new(std::future::pending::<()>(), first_registration);
    assert_eq!(first, 1);
    assert!(!first_task.is_aborted());

    let (second, second_registration) = registry.start_quick_answer();
    let second_task = Abortable::new(std::future::pending::<()>(), second_registration);
    assert_eq!(second, 2);
    assert!(first_task.is_aborted());
    assert!(!second_task.is_aborted());

    let (third, third_registration) = registry.start_quick_answer();
    let third_task = Abortable::new(std::future::pending::<()>(), third_registration);
    assert_eq!(third, 3);
    assert!(second_task.is_aborted());
    assert!(!third_task.is_aborted());

    registry.finish_quick_answer(first);
    assert_eq!(registry.current(Slot::QuickAnswer), Some(third));
    registry.finish_quick_answer(second);
    assert_eq!(registry.current(Slot::QuickAnswer), Some(third));
    registry.finish_quick_answer(third);
    assert_eq!(registry.current(Slot::QuickAnswer), None);
    assert!(!third_task.is_aborted());
}

#[test]
fn finish_of_current_generation_clears_without_abort() {
    let mut registry = RequestAbortState::new();
    let (id, registration) = registry.start_translation();
    let task = Abortable::new(std::future::pending::<()>(), registration);
    registry.finish_translation(id);
    assert_eq!(registry.current(Slot::Translation), None);
    assert!(!task.is_aborted());
    registry.finish_translation(id);
    assert_eq!(registry.current(Slot::Translation), None);
}

#[test]
fn cancel_signals_and_clears() {
    let mut registry = RequestAbortState::new();
    let (id, registration) = registry.start_translation();
    let task = Abortable::new(std::future::pending::<()>(), registration);
    assert_eq!(registry.cancel_translation(), Some(id));
    assert!(task.is_aborted());
    assert_eq!(registry.current(Slot::Translation), None);
    assert_eq!(registry.cancel_translation(), None);
}

#[test]
fn cancel_without_request_is_nothing() {
    let mut registry = RequestAbortState::default();
    assert_eq!(registry.cancel_quick_answer(), None);
    assert_eq!(registry.cancel_translation(), None);
    assert_eq!(registry.cancel_request(Slot::QuickAnswer), None);
    assert_eq!(registry.current(Slot::QuickAnswer), None);
    assert_eq!(registry.current(Slot::Translation), None);
    assert!(registry.can_start());
    let (id, _registration) = registry.start_quick_answer();
    assert_eq!(id, 1);
}

#[test]
fn slots_do_not_disturb_each_other() {
    let mut registry = RequestAbortState::new();
    let (answer, answer_registration) = registry.start_request(Slot::QuickAnswer);
    let answer_task = Abortable::new(std::future::pending::<()>(), answer_registration);
    let (translation, translation_registration) = registry.start_request(Slot::Translation);
    let translation_task = Abortable::new(std::future::pending::<()>(), translation_registration);
    assert_eq!((answer, translation), (1, 2));
    assert!(!answer_task.is_aborted());
    assert!(!translation_task.is_aborted());
    registry.finish_request(Slot::Translation, answer);
    assert_eq!(registry.current(Slot::Translation), Some(translation));
    assert_eq!(registry.cancel_request(Slot::QuickAnswer), Some(answer));
    assert!(answer_task.is_aborted());
    assert!(!translation_task.is_aborted());
    assert_eq!(registry.current(Slot::Translation), Some(translation));
}

#[test]
fn conclude_clears_the_slot_and_reports_the_outcome() {
    let mut registry = RequestAbortState::new();
    let (id, _registration) = registry.start_quick_answer();
    assert_eq!(registry.conclude(Slot::QuickAnswer, id, Some(Ok(7))), Ok(7));
    assert_eq!(registry.current(Slot::QuickAnswer), None);

    let (id, _registration) = registry.start_quick_answer();
    assert_eq!(
        registry.conclude::<u8>(Slot::QuickAnswer, id, Some(Err("boom".to_string()))),
        Err("boom".to_string())
    );
    assert_eq!(registry.current(Slot::QuickAnswer), None);
}

#[test]
fn stopped_request_is_reported_as_cancelled() {
    let mut registry = RequestAbortState::new();
    let (old, _old_registration) = registry.start_translation();
    let (new, _new_registration) = registry.start_translation();
    assert_eq!(registry.conclude::<String>(Slot::Translation, old, None), Err("Cancelled".to_string()));
    assert_eq!(registry.current(Slot::Translation), Some(new));
    assert_eq!(registry.conclude::<String>(Slot::Translation, new, None), Err("Cancelled".to_string()));
    assert_eq!(registry.current(Slot::Translation), None);
}
