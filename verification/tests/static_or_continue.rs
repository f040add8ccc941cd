use conduit_axum::static_or_continue::{
    serve_dist, serve_local_uploads, StaticAction, StaticEvent, StaticState,
};

#[test]
fn get_and_head_are_looked_up_in_local_uploads() {
    for method in ["GET", "HEAD"] {
        let step = serve_local_uploads(StaticState::Received, &StaticEvent::Request { method });
        assert_eq!(
            step,
            Some((StaticState::Serving, StaticAction::Serve { directory: "local_uploads" }))
        );
    }
}

#[test]
fn get_and_head_are_looked_up_in_dist() {
    for method in ["GET", "HEAD"] {
        let step = serve_dist(StaticState::Received, &StaticEvent::Request { method });
        assert_eq!(step, Some((StaticState::Serving, StaticAction::Serve { directory: "dist" })));
    }
}

#[test]
fn other_methods_go_on_at_once() {
    for method in ["POST", "PUT", "DELETE", "PATCH", "OPTIONS", "get", "head", ""] {
        let event = StaticEvent::Request { method };
        assert_eq!(
            serve_local_uploads(StaticState::Received, &event),
            Some((StaticState::Finished, StaticAction::Continue))
        );
        assert_eq!(
            serve_dist(StaticState::Received, &event),
            Some((StaticState::Finished, StaticAction::Continue))
        );
    }
}

#[test]
fn a_found_file_is_sent() {
    for status in [200u16, 206, 304, 403, 405, 500] {
        let event = StaticEvent::Served { status };
        assert_eq!(
            serve_dist(StaticState::Serving, &event),
            Some((StaticState::Finished, StaticAction::Respond))
        );
        assert_eq!(
            serve_local_uploads(StaticState::Serving, &event),
            Some((StaticState::Finished, StaticAction::Respond))
        );
    }
}

#[test]
fn a_missing_file_goes_on() {
    let event = StaticEvent::Served { status: 404 };
    assert_eq!(
        serve_dist(StaticState::Serving, &event),
        Some((StaticState::Finished, StaticAction::Continue))
    );
    assert_eq!(
        serve_local_uploads(StaticState::Serving, &event),
        Some((StaticState::Finished, StaticAction::Continue))
    );
}

#[test]
fn a_failed_file_service_goes_on() {
    assert_eq!(
        serve_dist(StaticState::Serving, &StaticEvent::ServeFailed),
        Some((StaticState::Finished, StaticAction::Continue))
    );
}

#[test]
fn unexpected_events_do_nothing() {
    let request = StaticEvent::Request { method: "GET" };
    let served = StaticEvent::Served { status: 200 };
    assert_eq!(serve_dist(StaticState::Received, &served), None);
    assert_eq!(serve_dist(StaticState::Received, &StaticEvent::ServeFailed), None);
    assert_eq!(serve_dist(StaticState::Serving, &request), None);
    assert_eq!(serve_dist(StaticState::Finished, &request), None);
    assert_eq!(serve_dist(StaticState::Finished, &served), None);
    assert_eq!(serve_local_uploads(StaticState::Finished, &StaticEvent::ServeFailed), None);
}
