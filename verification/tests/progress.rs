use brain_api::progress::{
    progress_location, ChildEvent, JsonText, MultiProgress, MultiStep, PollEvent, ProgressBody,
    SimulationError, SingleProgress, SingleStep, StartReply, MAX_POLL_RETRIES, RETRY_DELAY_SECS,
};
use brain_api::response::SimulationResult;

const URL: &str = "https://api.worldquantbrain.com/simulations/p1";

fn text(s: &str) -> JsonText {
    JsonText::Text(s.to_string())
}

fn body(status: JsonText, alpha: JsonText, regular: JsonText, children: Option<Vec<Option<&str>>>) -> ProgressBody {
    ProgressBody {
        status,
        alpha,
        regular,
        children: children.map(|c| c.into_iter().map(|x| x.map(|s| s.to_string())).collect()),
        rendered: "BODY".to_string(),
    }
}

fn accepted() -> StartReply {
    StartReply::Accepted { location: Some(URL.to_string()) }
}

fn final_body(b: ProgressBody) -> PollEvent {
    PollEvent::Body { retry_pending: false, body: b }
}

fn expect_poll(step: &SingleStep, delay: u64) {
    match step {
        SingleStep::Poll { url, delay_secs } => {
            assert_eq!(url, URL);
            assert_eq!(*delay_secs, delay);
        }
        _ => panic!("expected a poll"),
    }
}

fn expect_multi_poll(step: &MultiStep, delay: u64) {
    match step {
        MultiStep::Poll { url, delay_secs } => {
            assert_eq!(url, URL);
            assert_eq!(*delay_secs, delay);
        }
        _ => panic!("expected a poll"),
    }
}

fn expect_fetch(step: MultiStep, want: &str, read: bool) {
    match step {
        MultiStep::FetchChild { id, read_body } => {
            assert_eq!(id, want);
            assert_eq!(read_body, read);
        }
        _ => panic!("expected a child fetch"),
    }
}

#[test]
fn start_reply_gives_progress_location() {
    match progress_location(accepted()) {
        Ok(u) => assert_eq!(u, URL),
        Err(_) => panic!("expected the location"),
    }
    match progress_location(StartReply::Accepted { location: None }) {
        Err(SimulationError::MissingLocation) => {}
        _ => panic!("expected MissingLocation"),
    }
    match progress_location(StartReply::Rejected { status: 400, text: "bad".to_string() }) {
        Err(SimulationError::Rejected { text, status }) => {
            assert_eq!(text, "bad");
            assert_eq!(status, 400);
        }
        _ => panic!("expected Rejected"),
    }
}

#[test]
fn single_rejected_start_finishes_at_once() {
    let (_, step) = SingleProgress::start(StartReply::Rejected { status: 401, text: "no".to_string() });
    match step {
        SingleStep::Finish { delay_secs: 0, outcome: Err(SimulationError::Rejected { status: 401, text }) } => {
            assert_eq!(text, "no")
        }
        _ => panic!("expected a rejection"),
    }
    let (_, step) = SingleProgress::start(StartReply::Accepted { location: None });
    assert!(matches!(step, SingleStep::Finish { outcome: Err(SimulationError::MissingLocation), .. }));
}

#[test]
fn single_simulation_succeeds_after_retries() {
    let (mut p, step) = SingleProgress::start(accepted());
    expect_poll(&step, 0);
    expect_poll(&p.on_poll(PollEvent::SendFailed), RETRY_DELAY_SECS);
    let retry = PollEvent::Body { retry_pending: true, body: body(JsonText::Absent, JsonText::Absent, JsonText::Absent, None) };
    expect_poll(&p.on_poll(retry), 0);
    let done = p.on_poll(final_body(body(text("COMPLETE"), text("a1b2"), text("rank(x)"), None)));
    match done {
        SingleStep::Finish { delay_secs: 0, outcome: Ok(SimulationResult { alpha_id, regular }) } => {
            assert_eq!(alpha_id, "a1b2");
            assert_eq!(regular, "rank(x)");
        }
        _ => panic!("expected a result"),
    }
}

#[test]
fn single_simulation_alpha_not_text_gives_empty_id() {
    let (mut p, _) = SingleProgress::start(accepted());
    let done = p.on_poll(final_body(body(JsonText::Absent, JsonText::NotText, JsonText::NotText, None)));
    match done {
        SingleStep::Finish { outcome: Ok(r), .. } => {
            assert_eq!(r.alpha_id, "");
            assert_eq!(r.regular, "");
        }
        _ => panic!("expected a result"),
    }
}

#[test]
fn single_simulation_fails_on_third_unsuccessful_poll() {
    assert_eq!(MAX_POLL_RETRIES, 2);
    let (mut p, _) = SingleProgress::start(accepted());
    expect_poll(&p.on_poll(PollEvent::Unsuccessful { status: 500 }), RETRY_DELAY_SECS);
    expect_poll(&p.on_poll(PollEvent::SendFailed), RETRY_DELAY_SECS);
    expect_poll(&p.on_poll(PollEvent::Unsuccessful { status: 502 }), RETRY_DELAY_SECS);
    match p.on_poll(PollEvent::Unsuccessful { status: 503 }) {
        SingleStep::Finish { delay_secs, outcome: Err(SimulationError::PollFailed { url, status }) } => {
            assert_eq!(delay_secs, RETRY_DELAY_SECS);
            assert_eq!(url, URL);
            assert_eq!(status, 503);
        }
        _ => panic!("expected PollFailed"),
    }
}

#[test]
fn single_simulation_error_status_fails() {
    let (mut p, _) = SingleProgress::start(accepted());
    match p.on_poll(final_body(body(text("ERROR"), text("a1"), text("x"), None))) {
        SingleStep::Finish { outcome: Err(SimulationError::Failed { body }), .. } => assert_eq!(body, "BODY"),
        _ => panic!("expected Failed"),
    }
    let (mut p, _) = SingleProgress::start(accepted());
    match p.on_poll(final_body(body(text("COMPLETE"), JsonText::Absent, text("x"), None))) {
        SingleStep::Finish { outcome: Err(SimulationError::Failed { .. }), .. } => {}
        _ => panic!("expected Failed without alpha"),
    }
    let (mut p, _) = SingleProgress::start(accepted());
    match p.on_poll(PollEvent::Unreadable { message: "eof".to_string() }) {
        SingleStep::Finish { outcome: Err(SimulationError::Transport { message }), .. } => assert_eq!(message, "eof"),
        _ => panic!("expected Transport"),
    }
}

#[test]
fn multi_simulation_collects_child_results() {
    let (mut p, step) = MultiProgress::start(accepted());
    expect_multi_poll(&step, 0);
    expect_multi_poll(&p.on_poll(PollEvent::Unsuccessful { status: 500 }), RETRY_DELAY_SECS);
    expect_multi_poll(&p.on_poll(PollEvent::SendFailed), RETRY_DELAY_SECS);
    let last = body(text("COMPLETE"), JsonText::Absent, JsonText::Absent, Some(vec![Some("c1"), None, Some("c2"), Some("c3")]));
    expect_fetch(p.on_poll(final_body(last)), "c1", true);
    match p.on_child(ChildEvent::Body(body(text("COMPLETE"), text("A1"), text("e1"), None))) {
        MultiStep::Deliver { result } => assert_eq!(result.alpha_id, "A1"),
        _ => panic!("expected a delivery"),
    }
    expect_fetch(p.resume(), "c2", true);
    expect_fetch(p.on_child(ChildEvent::Body(body(text("ERROR"), JsonText::Absent, JsonText::Absent, None))), "c3", true);
    match p.on_child(ChildEvent::Body(body(JsonText::Absent, text("A3"), text("e3"), None))) {
        MultiStep::Deliver { result } => {
            assert_eq!(result.alpha_id, "A3");
            assert_eq!(result.regular, "e3");
        }
        _ => panic!("expected a delivery"),
    }
    match p.resume() {
        MultiStep::Finish { outcome: Ok(results) } => {
            let ids: Vec<&str> = results.iter().map(|r| r.alpha_id.as_str()).collect();
            assert_eq!(ids, vec!["A1", "A3"]);
        }
        _ => panic!("expected the results"),
    }
}

#[test]
fn multi_simulation_error_reports_children_then_fails() {
    let (mut p, _) = MultiProgress::start(accepted());
    let last = body(text("ERROR"), JsonText::Absent, JsonText::Absent, Some(vec![Some("c1"), Some("c2")]));
    expect_fetch(p.on_poll(final_body(last)), "c1", false);
    expect_fetch(p.on_child(ChildEvent::Fetched), "c2", false);
    match p.on_child(ChildEvent::Fetched) {
        MultiStep::Finish { outcome: Err(SimulationError::Failed { body }) } => assert_eq!(body, "BODY"),
        _ => panic!("expected Failed"),
    }
    let (mut p, _) = MultiProgress::start(accepted());
    let last = body(text("ERROR"), JsonText::Absent, JsonText::Absent, None);
    assert!(matches!(p.on_poll(final_body(last)), MultiStep::Finish { outcome: Err(SimulationError::Failed { .. }) }));
    let (mut p, _) = MultiProgress::start(accepted());
    let last = body(text("ERROR"), JsonText::Absent, JsonText::Absent, Some(vec![Some("c1")]));
    expect_fetch(p.on_poll(final_body(last)), "c1", false);
    match p.on_child(ChildEvent::SendFailed { message: "down".to_string() }) {
        MultiStep::Finish { outcome: Err(SimulationError::Transport { message }) } => assert_eq!(message, "down"),
        _ => panic!("expected Transport"),
    }
}

#[test]
fn multi_simulation_without_children_fails() {
    let (mut p, _) = MultiProgress::start(accepted());
    let last = body(text("COMPLETE"), JsonText::Absent, JsonText::Absent, None);
    assert!(matches!(p.on_poll(final_body(last)), MultiStep::Finish { outcome: Err(SimulationError::MultiFailed { .. }) }));
    let (mut p, _) = MultiProgress::start(accepted());
    let last = body(text("COMPLETE"), JsonText::Absent, JsonText::Absent, Some(vec![]));
    assert!(matches!(p.on_poll(final_body(last)), MultiStep::Finish { outcome: Err(SimulationError::MultiFailed { .. }) }));
    let (mut p, _) = MultiProgress::start(accepted());
    let last = body(text("COMPLETE"), JsonText::Absent, JsonText::Absent, Some(vec![None, None]));
    match p.on_poll(final_body(last)) {
        MultiStep::Finish { outcome: Ok(results) } => assert!(results.is_empty()),
        _ => panic!("expected no results"),
    }
}

#[test]
fn multi_simulation_unreadable_child_fails() {
    let (mut p, _) = MultiProgress::start(accepted());
    let retry = PollEvent::Body { retry_pending: true, body: body(text("ERROR"), JsonText::Absent, JsonText::Absent, None) };
    expect_multi_poll(&p.on_poll(retry), 0);
    let last = body(JsonText::Absent, JsonText::Absent, JsonText::Absent, Some(vec![Some("c1"), Some("c2")]));
    expect_fetch(p.on_poll(final_body(last)), "c1", true);
    match p.on_child(ChildEvent::Unreadable { message: "bad json".to_string() }) {
        MultiStep::Finish { outcome: Err(SimulationError::Transport { message }) } => assert_eq!(message, "bad json"),
        _ => panic!("expected Transport"),
    }
    let (_, step) = MultiProgress::start(StartReply::Rejected { status: 429, text: "slow".to_string() });
    assert!(matches!(step, MultiStep::Finish { outcome: Err(SimulationError::Rejected { status: 429, .. }) }));
}
