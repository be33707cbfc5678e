use kube_reflector::watcher::{
    initial_state, step_trampolined, ClientError, ErrorResponse, Event, Input,
    MissingResourceVersion, Object, ObjectList, State, WatchEvent, WatcherError, GONE,
};

type Step = Result<(Option<Result<Event<&'static str>, WatcherError>>, State), MissingResourceVersion>;

fn obj(name: &'static str, version: &str) -> Object<&'static str> {
    Object { resource_version: Some(version.to_string()), data: name }
}

fn status(code: u16) -> ErrorResponse {
    ErrorResponse {
        status: "Failure".to_string(),
        message: "failed".to_string(),
        reason: "Reason".to_string(),
        code,
    }
}

fn watching(v: &str) -> State {
    State::Watching { resource_version: v.to_string() }
}

fn poll(state: State, ev: WatchEvent<&'static str>) -> Step {
    step_trampolined(state, Input::Polled(Some(Ok(ev))))
}

#[test]
fn list_success_resets_then_watches() {
    let list = ObjectList { items: vec![obj("A", "v1"), obj("B", "v1")], resource_version: Some("v1".to_string()) };
    let (out, next) = step_trampolined(initial_state(), Input::Listed(Ok(list))).unwrap();
    assert_eq!(out, Some(Ok(Event::Restarted(vec![obj("A", "v1"), obj("B", "v1")]))));
    assert_eq!(next, State::InitListed { resource_version: "v1".to_string() });
    let (out, next) = step_trampolined(next, Input::<&'static str>::WatchStarted(Ok(()))).unwrap();
    assert_eq!(out, None);
    assert_eq!(next, watching("v1"));
}

#[test]
fn fresh_subscription_lists_plainly() {
    assert_eq!(initial_state(), State::Empty { init_resource_version: None });
}

#[test]
fn changes_on_watch_are_applied_and_deleted() {
    let (out, next) = poll(watching("v1"), WatchEvent::Modified(obj("A", "v2"))).unwrap();
    assert_eq!(out, Some(Ok(Event::Applied(obj("A", "v2")))));
    assert_eq!(next, watching("v2"));
    let (out, next) = poll(next, WatchEvent::Deleted(obj("B", "v3"))).unwrap();
    assert_eq!(out, Some(Ok(Event::Deleted(obj("B", "v3")))));
    assert_eq!(next, watching("v3"));
}

#[test]
fn added_is_applied() {
    let (out, next) = poll(watching("v1"), WatchEvent::Added(obj("C", "v4"))).unwrap();
    assert_eq!(out, Some(Ok(Event::Applied(obj("C", "v4")))));
    assert_eq!(next, watching("v4"));
}

#[test]
fn bookmark_moves_position_silently() {
    let (out, next) = poll(watching("v1"), WatchEvent::Bookmark("v9".to_string())).unwrap();
    assert_eq!(out, None);
    assert_eq!(next, watching("v9"));
}

#[test]
fn watch_gone_is_reported_then_relists() {
    let (out, next) = poll(watching("v3"), WatchEvent::Error(status(GONE))).unwrap();
    assert_eq!(out, Some(Err(WatcherError::WatchError(status(410)))));
    assert_eq!(next, State::Empty { init_resource_version: Some("0".to_string()) });
}

#[test]
fn list_gone_is_reported_then_lists_plainly() {
    let state = State::Empty { init_resource_version: Some("v3".to_string()) };
    let err = ClientError::Api(status(410));
    let (out, next) = step_trampolined(state, Input::<&'static str>::Listed(Err(err.clone()))).unwrap();
    assert_eq!(out, Some(Err(WatcherError::InitialListFailed(err))));
    assert_eq!(next, State::Empty { init_resource_version: None });
}

#[test]
fn other_list_error_retries_from_earliest() {
    let err = ClientError::Other("connection refused".to_string());
    let (out, next) = step_trampolined(initial_state(), Input::<&'static str>::Listed(Err(err.clone()))).unwrap();
    assert_eq!(out, Some(Err(WatcherError::InitialListFailed(err))));
    assert_eq!(next, State::Empty { init_resource_version: Some("0".to_string()) });
    let err = ClientError::Api(status(500));
    let (_, next) = step_trampolined(next, Input::<&'static str>::Listed(Err(err))).unwrap();
    assert_eq!(next, State::Empty { init_resource_version: Some("0".to_string()) });
}

#[test]
fn watch_start_failure_keeps_position() {
    let state = State::InitListed { resource_version: "v2".to_string() };
    let err = ClientError::Other("timeout".to_string());
    let (out, next) = step_trampolined(state, Input::<&'static str>::WatchStarted(Err(err.clone()))).unwrap();
    assert_eq!(out, Some(Err(WatcherError::WatchStartFailed(err))));
    assert_eq!(next, State::InitListed { resource_version: "v2".to_string() });
}

#[test]
fn watch_server_error_keeps_watch_and_position() {
    let (out, next) = poll(watching("v2"), WatchEvent::Error(status(500))).unwrap();
    assert_eq!(out, Some(Err(WatcherError::WatchError(status(500)))));
    assert_eq!(next, watching("v2"));
}

#[test]
fn broken_stream_item_keeps_watch_and_position() {
    let err = ClientError::Other("bad json".to_string());
    let (out, next) = step_trampolined(watching("v2"), Input::<&'static str>::Polled(Some(Err(err.clone())))).unwrap();
    assert_eq!(out, Some(Err(WatcherError::WatchFailed(err))));
    assert_eq!(next, watching("v2"));
}

#[test]
fn clean_end_rewatches_at_same_position() {
    let (out, next) = step_trampolined(watching("v5"), Input::<&'static str>::Polled(None)).unwrap();
    assert_eq!(out, None);
    assert_eq!(next, State::InitListed { resource_version: "v5".to_string() });
    let (out, next) = step_trampolined(next, Input::<&'static str>::WatchStarted(Ok(()))).unwrap();
    assert_eq!(out, None);
    assert_eq!(next, watching("v5"));
}

#[test]
fn list_errors_come_before_first_reset() {
    let mut state = initial_state();
    let mut first_ok = None;
    let inputs = vec![
        Input::Listed(Err(ClientError::Other("down".to_string()))),
        Input::Listed(Err(ClientError::Api(status(410)))),
        Input::Listed(Ok(ObjectList { items: vec![obj("A", "v7")], resource_version: Some("v7".to_string()) })),
        Input::WatchStarted(Ok(())),
        Input::Polled(Some(Ok(WatchEvent::Added(obj("B", "v8"))))),
    ];
    for input in inputs {
        let (out, next) = step_trampolined(state, input).unwrap();
        state = next;
        if let Some(Ok(ev)) = out {
            if first_ok.is_none() {
                first_ok = Some(ev);
            }
        }
    }
    assert_eq!(first_ok, Some(Event::Restarted(vec![obj("A", "v7")])));
    assert_eq!(state, watching("v8"));
}

#[test]
fn listing_without_position_is_fatal() {
    let list = ObjectList { items: vec![obj("A", "v1")], resource_version: None };
    let r = step_trampolined(initial_state(), Input::Listed(Ok(list)));
    assert_eq!(r, Err(MissingResourceVersion));
}

#[test]
fn change_without_position_is_fatal() {
    let o = Object { resource_version: None, data: "A" };
    assert_eq!(poll(watching("v1"), WatchEvent::Modified(o.clone())), Err(MissingResourceVersion));
    assert_eq!(poll(watching("v1"), WatchEvent::Deleted(o)), Err(MissingResourceVersion));
}
