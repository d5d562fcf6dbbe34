use pipeline_relay::event::{InboundEvent, PipelineEvent, PipelineStatus};
use pipeline_relay::handler::{
    outcome_matches, start, step, Action, CallOutcome, HandlerState, UpstreamError,
};
use pipeline_relay::identity::resolve_mention;
use pipeline_relay::jobs::{filter_failed_jobs, JobRecord};
use pipeline_relay::merge_request::MergeRequestDetail;
use pipeline_relay::message::{compose_message, status_label};

fn job(name: &str, status: PipelineStatus, url: &str) -> JobRecord {
    JobRecord {
        name: name.to_string(),
        status,
        web_url: url.to_string(),
    }
}

fn detail(title: &str, url: &str, author: &str, merger: Option<&str>) -> MergeRequestDetail {
    MergeRequestDetail {
        merge_request_id: 7,
        title: title.to_string(),
        web_url: url.to_string(),
        author_username: author.to_string(),
        merger_username: merger.map(|m| m.to_string()),
    }
}

fn pipeline(status: PipelineStatus, merge_request_id: Option<u64>) -> InboundEvent {
    InboundEvent::Pipeline(PipelineEvent {
        pipeline_id: 11,
        project_id: 42,
        status,
        merge_request_id,
    })
}

fn assert_acknowledged(begun: (HandlerState, Action)) {
    assert!(matches!(begun.0, HandlerState::Finished { status: 200 }));
    assert!(matches!(begun.1, Action::Respond { status: 200 }));
}

#[test]
fn malformed_body_acknowledged() {
    assert_acknowledged(start(None));
}

#[test]
fn non_pipeline_event_acknowledged() {
    assert_acknowledged(start(Some(InboundEvent::Other)));
}

#[test]
fn successful_pipeline_acknowledged() {
    assert_acknowledged(start(Some(pipeline(PipelineStatus::Success, Some(7)))));
}

#[test]
fn running_pipeline_acknowledged() {
    assert_acknowledged(start(Some(pipeline(PipelineStatus::Running, Some(7)))));
}

#[test]
fn failed_pipeline_without_merge_request_acknowledged() {
    assert_acknowledged(start(Some(pipeline(PipelineStatus::Failed, None))));
}

#[test]
fn failed_pipeline_with_merge_request_fetches_jobs() {
    let begun = start(Some(pipeline(PipelineStatus::Failed, Some(7))));
    match begun.1 {
        Action::FetchJobs {
            project_id,
            pipeline_id,
        } => {
            assert_eq!(project_id, 42);
            assert_eq!(pipeline_id, 11);
        }
        _ => panic!("expected a job fetch"),
    }
    match begun.0 {
        HandlerState::AwaitingJobs {
            project_id,
            pipeline_id,
            merge_request_id,
        } => {
            assert_eq!(project_id, 42);
            assert_eq!(pipeline_id, 11);
            assert_eq!(merge_request_id, 7);
        }
        _ => panic!("expected to await the job list"),
    }
}

#[test]
fn filter_keeps_exactly_the_non_successful_jobs_in_order() {
    let jobs = vec![
        job("build", PipelineStatus::Failed, "u1"),
        job("test", PipelineStatus::Success, "u2"),
        job("lint", PipelineStatus::Canceled, "u3"),
        job("build", PipelineStatus::Failed, "u1"),
        job("deploy", PipelineStatus::Skipped, "u4"),
    ];
    let failed = filter_failed_jobs(jobs);
    let names: Vec<&str> = failed.iter().map(|j| j.name.as_str()).collect();
    assert_eq!(names, vec!["build", "lint", "build", "deploy"]);
    assert!(failed.iter().all(|j| j.status != PipelineStatus::Success));
}

#[test]
fn filter_of_empty_list_is_empty() {
    let failed = filter_failed_jobs(Vec::new());
    assert!(failed.is_empty());
}

#[test]
fn filter_of_all_successful_jobs_is_empty() {
    let jobs = vec![
        job("build", PipelineStatus::Success, "u1"),
        job("test", PipelineStatus::Success, "u2"),
    ];
    assert!(filter_failed_jobs(jobs).is_empty());
}

#[test]
fn resolution_uses_the_directory_identifier() {
    let mention = resolve_mention(&"alice".to_string(), Some("U123".to_string()));
    assert_eq!(mention, "U123");
}

#[test]
fn resolution_falls_back_to_the_username() {
    let mention = resolve_mention(&"alice".to_string(), None);
    assert_eq!(mention, "alice");
}

#[test]
fn status_labels_are_exact() {
    assert_eq!(status_label(PipelineStatus::Failed), "Failed");
    assert_eq!(status_label(PipelineStatus::Success), "Success");
    assert_eq!(status_label(PipelineStatus::Canceled), "Canceled");
    assert_eq!(
        status_label(PipelineStatus::WaitingForResource),
        "WaitingForResource"
    );
}

#[test]
fn composed_message_without_merger_omits_the_merged_by_line() {
    let d = detail("Fix the build", "https://git/mr/7", "alice", None);
    let jobs = vec![job("build", PipelineStatus::Failed, "https://git/job/1")];
    let text = compose_message(&d, &"alice".to_string(), &None, &jobs);
    assert_eq!(
        text,
        "Failed MR: <https://git/mr/7|Fix the build>\n\
         Author: <@alice>\n\
         Failed jobs\n\
         - <https://git/job/1|build> Failed\n"
    );
    assert!(!text.contains("Merged by"));
}

#[test]
fn composed_message_with_merger_names_the_merger() {
    let d = detail("Fix the build", "https://git/mr/7", "alice", Some("bob"));
    let jobs = vec![
        job("build", PipelineStatus::Failed, "https://git/job/1"),
        job("lint", PipelineStatus::Canceled, "https://git/job/2"),
    ];
    let text = compose_message(
        &d,
        &"U1".to_string(),
        &Some("U2".to_string()),
        &jobs,
    );
    assert_eq!(
        text,
        "Failed MR: <https://git/mr/7|Fix the build>\n\
         Author: <@U1>\n\
         Merged by: <@U2>\n\
         Failed jobs\n\
         - <https://git/job/1|build> Failed\n\
         - <https://git/job/2|lint> Canceled\n"
    );
}

#[test]
fn composition_is_deterministic() {
    let d = detail("T", "u", "alice", Some("bob"));
    let d2 = detail("T", "u", "alice", Some("bob"));
    let jobs = vec![job("build", PipelineStatus::Failed, "u1")];
    let jobs2 = vec![job("build", PipelineStatus::Failed, "u1")];
    let a = compose_message(&d, &"a".to_string(), &Some("m".to_string()), &jobs);
    let b = compose_message(&d2, &"a".to_string(), &Some("m".to_string()), &jobs2);
    assert_eq!(a, b);
}

#[test]
fn failed_jobs_section_has_one_line_for_the_one_failed_job() {
    let begun = start(Some(pipeline(PipelineStatus::Failed, Some(7))));
    let jobs = vec![
        job("build", PipelineStatus::Failed, "url1"),
        job("test", PipelineStatus::Success, "url2"),
    ];
    let outcome = CallOutcome::JobsFetched(Ok(jobs));
    assert!(outcome_matches(&begun.0, &outcome));
    let next = step(begun.0, outcome);
    assert!(matches!(
        next.1,
        Action::FetchMergeRequest {
            project_id: 42,
            merge_request_id: 7
        }
    ));

    let d = detail("T", "mru", "alice", None);
    let outcome = CallOutcome::MergeRequestFetched(Ok(d));
    assert!(outcome_matches(&next.0, &outcome));
    let next = step(next.0, outcome);
    match &next.1 {
        Action::LookupUser { username } => assert_eq!(username, "alice"),
        _ => panic!("expected an author lookup"),
    }

    let outcome = CallOutcome::UserLookedUp(None);
    assert!(outcome_matches(&next.0, &outcome));
    let next = step(next.0, outcome);
    let text = match next.1 {
        Action::PostMessage { text } => text,
        _ => panic!("expected the delivery"),
    };
    let section: Vec<&str> = text
        .split("Failed jobs\n")
        .nth(1)
        .expect("a job section")
        .lines()
        .collect();
    assert_eq!(section, vec!["- <url1|build> Failed"]);

    let outcome = CallOutcome::MessagePosted(Ok(()));
    assert!(outcome_matches(&next.0, &outcome));
    let done = step(next.0, outcome);
    assert!(matches!(done.1, Action::Respond { status: 200 }));
}

#[test]
fn merger_lookup_failure_degrades_to_the_username() {
    let begun = start(Some(pipeline(PipelineStatus::Failed, Some(7))));
    let next = step(begun.0, CallOutcome::JobsFetched(Ok(Vec::new())));
    let d = detail("T", "mru", "alice", Some("bob"));
    let next = step(next.0, CallOutcome::MergeRequestFetched(Ok(d)));
    let next = step(next.0, CallOutcome::UserLookedUp(Some("U1".to_string())));
    match &next.1 {
        Action::LookupUser { username } => assert_eq!(username, "bob"),
        _ => panic!("expected a merger lookup"),
    }
    let next = step(next.0, CallOutcome::UserLookedUp(None));
    let text = match next.1 {
        Action::PostMessage { text } => text,
        _ => panic!("expected the delivery"),
    };
    assert!(text.contains("Author: <@U1>\n"));
    assert!(text.contains("Merged by: <@bob>\n"));
}

#[test]
fn job_fetch_failure_aborts_with_500() {
    let begun = start(Some(pipeline(PipelineStatus::Failed, Some(7))));
    let next = step(
        begun.0,
        CallOutcome::JobsFetched(Err(UpstreamError::Transport)),
    );
    assert!(matches!(next.1, Action::Respond { status: 500 }));
    assert!(matches!(next.0, HandlerState::Finished { status: 500 }));
}

#[test]
fn merge_request_fetch_failure_aborts_with_500() {
    let begun = start(Some(pipeline(PipelineStatus::Failed, Some(7))));
    let next = step(begun.0, CallOutcome::JobsFetched(Ok(Vec::new())));
    let next = step(
        next.0,
        CallOutcome::MergeRequestFetched(Err(UpstreamError::Decode)),
    );
    assert!(matches!(next.1, Action::Respond { status: 500 }));
}

#[test]
fn delivery_failure_aborts_with_500_not_200() {
    let state = HandlerState::AwaitingDelivery {
        message: "text".to_string(),
    };
    let outcome = CallOutcome::MessagePosted(Err(UpstreamError::Transport));
    assert!(outcome_matches(&state, &outcome));
    let done = step(state, outcome);
    match done.1 {
        Action::Respond { status } => assert_eq!(status, 500),
        _ => panic!("expected a reply"),
    }
}

#[test]
fn delivery_success_answers_200() {
    let state = HandlerState::AwaitingDelivery {
        message: "text".to_string(),
    };
    let done = step(state, CallOutcome::MessagePosted(Ok(())));
    assert!(matches!(done.1, Action::Respond { status: 200 }));
}

#[test]
fn finished_request_expects_no_outcome() {
    let state = HandlerState::Finished { status: 200 };
    assert!(!outcome_matches(
        &state,
        &CallOutcome::MessagePosted(Ok(()))
    ));
    assert!(!outcome_matches(
        &state,
        &CallOutcome::JobsFetched(Ok(Vec::new()))
    ));
}

#[test]
fn state_expects_only_the_outcome_of_its_own_call() {
    let begun = start(Some(pipeline(PipelineStatus::Failed, Some(7))));
    assert!(!outcome_matches(
        &begun.0,
        &CallOutcome::MessagePosted(Ok(()))
    ));
    assert!(!outcome_matches(&begun.0, &CallOutcome::UserLookedUp(None)));
}
