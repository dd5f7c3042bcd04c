use uuid::Uuid;
use zero2prod::domain::SubscriberEmail;
use zero2prod::issue_delivery_worker::{
    idle_seconds, start, step, Action, Event, ExecutionOutcome, NewsletterIssue, Task, TaskState,
    WorkerError,
};

fn task(email: &str) -> Task {
    Task { issue_id: Uuid::from_u128(0x1234), subscriber_email: email.to_string() }
}

fn issue() -> NewsletterIssue {
    NewsletterIssue {
        title: "Newsletter Title".to_string(),
        text_content: "Newsletter body as plain text".to_string(),
        html_content: "<p>Newsletter body as HTML</p>".to_string(),
    }
}

fn finished(a: &Action) -> Option<Result<ExecutionOutcome, WorkerError>> {
    match a {
        Action::Finish(r) => Some(*r),
        _ => None,
    }
}

#[test]
fn the_first_action_reads_the_queue() {
    let (s, a) = start();
    assert!(matches!(s, TaskState::Dequeuing));
    assert!(matches!(a, Action::Dequeue));
}

#[test]
fn empty_queue_ends_the_execution() {
    let (s, _) = start();
    let (s, a) = step(s, Event::Dequeued(None));
    assert_eq!(finished(&a), Some(Ok(ExecutionOutcome::EmptyQueue)));
    // finished is final
    let (_, a) = step(s, Event::TaskDeleted);
    assert_eq!(finished(&a), Some(Ok(ExecutionOutcome::EmptyQueue)));
}

#[test]
fn a_valid_subscriber_gets_the_issue_then_the_task_is_deleted() {
    let (s, _) = start();
    let (s, a) = step(s, Event::Dequeued(Some(task("ursula_le_guin@gmail.com"))));
    match a {
        Action::FetchIssue { issue_id } => assert_eq!(issue_id, Uuid::from_u128(0x1234)),
        other => panic!("unexpected {:?}", other),
    }
    let (s, a) = step(s, Event::IssueFetched(issue()));
    match a {
        Action::SendEmail { recipient, title, html_content, text_content } => {
            assert_eq!(recipient.as_str(), "ursula_le_guin@gmail.com");
            assert_eq!(title, "Newsletter Title");
            assert_eq!(html_content, "<p>Newsletter body as HTML</p>");
            assert_eq!(text_content, "Newsletter body as plain text");
        }
        other => panic!("unexpected {:?}", other),
    }
    let (s, a) = step(s, Event::EmailSent);
    match a {
        Action::DeleteTask { issue_id, subscriber_email } => {
            assert_eq!(issue_id, Uuid::from_u128(0x1234));
            assert_eq!(subscriber_email, "ursula_le_guin@gmail.com");
        }
        other => panic!("unexpected {:?}", other),
    }
    let (_, a) = step(s, Event::TaskDeleted);
    assert_eq!(finished(&a), Some(Ok(ExecutionOutcome::TaskCompleted)));
}

#[test]
fn an_invalid_address_is_deleted_without_an_email() {
    let (s, _) = start();
    let (s, a) = step(s, Event::Dequeued(Some(task("not-an-email"))));
    match a {
        Action::DeleteTask { subscriber_email, .. } => assert_eq!(subscriber_email, "not-an-email"),
        other => panic!("unexpected {:?}", other),
    }
    let (_, a) = step(s, Event::TaskDeleted);
    assert_eq!(finished(&a), Some(Ok(ExecutionOutcome::TaskCompleted)));
}

#[test]
fn a_failed_delivery_is_skipped() {
    let (s, _) = start();
    let (s, _) = step(s, Event::Dequeued(Some(task("a@example.com"))));
    let (s, _) = step(s, Event::IssueFetched(issue()));
    let (s, a) = step(s, Event::Failed);
    assert!(matches!(a, Action::DeleteTask { .. }));
    let (_, a) = step(s, Event::TaskDeleted);
    assert_eq!(finished(&a), Some(Ok(ExecutionOutcome::TaskCompleted)));
}

#[test]
fn failures_end_with_errors() {
    let (s, _) = start();
    let (_, a) = step(s, Event::Failed);
    assert_eq!(finished(&a), Some(Err(WorkerError::DequeueFailed)));

    let (s, _) = start();
    let (s, _) = step(s, Event::Dequeued(Some(task("a@example.com"))));
    let (_, a) = step(s, Event::Failed);
    assert_eq!(finished(&a), Some(Err(WorkerError::IssueUnavailable)));

    let (s, _) = start();
    let (s, _) = step(s, Event::Dequeued(Some(task("bad"))));
    let (_, a) = step(s, Event::Failed);
    assert_eq!(finished(&a), Some(Err(WorkerError::DeletionFailed)));

    let (s, _) = start();
    let (_, a) = step(s, Event::EmailSent);
    assert_eq!(finished(&a), Some(Err(WorkerError::UnexpectedEvent)));
}

#[test]
fn the_worker_waits_by_outcome() {
    assert_eq!(idle_seconds::<WorkerError>(&Ok(ExecutionOutcome::EmptyQueue)), 10);
    assert_eq!(idle_seconds::<WorkerError>(&Ok(ExecutionOutcome::TaskCompleted)), 0);
    assert_eq!(idle_seconds(&Err(WorkerError::DeletionFailed)), 1);
}

#[test]
fn subscriber_emails_are_validated() {
    let ok = SubscriberEmail::parse("ursula@domain.com".to_string()).unwrap();
    assert_eq!(ok.as_str(), "ursula@domain.com");
    for bad in ["", "ursuladomain.com", "@domain.com"] {
        let err = SubscriberEmail::parse(bad.to_string()).unwrap_err();
        assert_eq!(err.input, bad);
    }
}
