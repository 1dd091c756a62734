use hub_gateway::api::{
    ActionIntent, GatewayError, HubCall, HubFault, HubOutcome, Item, Plan, Query, Request,
    Response,
};
use hub_gateway::boundary::{
    describe_error, interpret_config, startup_credentials, status_of, LoadOutcome,
};
use hub_gateway::codec::encode_credentials;
use hub_gateway::coordinator::Coordinator;
use hub_gateway::credentials::Credentials;
use hub_gateway::dispatch::{dispatch, query_call};

/// An instrumented stand-in for the hub: it records every call, asserts that
/// calls never overlap, and answers as configured.
struct FakeHub {
    accept_login: bool,
    break_login: bool,
    fail_message: Option<String>,
    items: Vec<(u64, &'static str)>,
    in_flight: u32,
    max_in_flight: u32,
    login_calls: u32,
    fetch_calls: u32,
    action_calls: u32,
    turn_on_calls: Vec<u64>,
    stop_scene_calls: Vec<u64>,
}

impl FakeHub {
    fn new() -> FakeHub {
        FakeHub {
            accept_login: true,
            break_login: false,
            fail_message: None,
            items: vec![(1, "lamp"), (7, "heater")],
            in_flight: 0,
            max_in_flight: 0,
            login_calls: 0,
            fetch_calls: 0,
            action_calls: 0,
            turn_on_calls: Vec::new(),
            stop_scene_calls: Vec::new(),
        }
    }

    fn total_calls(&self) -> u32 {
        self.login_calls + self.fetch_calls + self.action_calls
    }

    fn perform(&mut self, call: HubCall) -> HubOutcome {
        self.in_flight += 1;
        assert!(self.in_flight <= 1, "hub calls must never overlap");
        if self.in_flight > self.max_in_flight {
            self.max_in_flight = self.in_flight;
        }
        let outcome = match call {
            HubCall::Authenticate(_) => {
                self.login_calls += 1;
                if self.break_login {
                    HubOutcome::Failed(HubFault { message: "hub unreachable".to_string() })
                } else if self.accept_login {
                    HubOutcome::AuthAccepted
                } else {
                    HubOutcome::AuthRejected
                }
            }
            HubCall::FetchDevices | HubCall::FetchRooms | HubCall::FetchScenes => {
                self.fetch_calls += 1;
                match &self.fail_message {
                    Some(m) => HubOutcome::Failed(HubFault { message: m.clone() }),
                    None => HubOutcome::Listing(
                        self.items
                            .iter()
                            .map(|(id, name)| Item { id: *id, name: name.to_string() })
                            .collect(),
                    ),
                }
            }
            HubCall::TurnOn(id) => {
                self.action_calls += 1;
                self.turn_on_calls.push(id);
                HubOutcome::ActionDone
            }
            HubCall::TurnOff(_) | HubCall::Dim(_, _) | HubCall::StartScene(_) => {
                self.action_calls += 1;
                HubOutcome::ActionDone
            }
            HubCall::StopScene(id) => {
                self.action_calls += 1;
                self.stop_scene_calls.push(id);
                HubOutcome::ActionDone
            }
        };
        self.in_flight -= 1;
        outcome
    }
}

/// One request handled end to end, the way the transport layer drives the
/// coordinator: plan under the exclusive region, perform the planned call if
/// any, complete.
fn handle(co: &mut Coordinator, hub: &mut FakeHub, req: Request) -> (Response, Option<Credentials>) {
    assert!(!co.is_busy(), "a new request must not find a call in flight");
    let plan = co.plan(req);
    match plan {
        Plan::Reject(resp) => {
            assert!(!co.is_busy());
            (resp, None)
        }
        Plan::CallHub(call) => {
            assert!(co.is_busy());
            let outcome = hub.perform(call);
            let result = co.complete(outcome);
            assert!(!co.is_busy());
            result
        }
    }
}

fn login_request(identifier: &str, secret: &str) -> Request {
    Request::Login(Credentials::new(identifier.to_string(), secret.to_string()))
}

#[test]
fn login_success_authenticates_and_persists_once() {
    let mut co = Coordinator::new();
    let mut hub = FakeHub::new();
    assert!(!co.is_authenticated());
    let (resp, saved) = handle(&mut co, &mut hub, login_request("a@b.com", "x"));
    assert!(matches!(resp, Response::LoginOk));
    assert_eq!(status_of(&resp), 200);
    assert!(co.is_authenticated());
    assert_eq!(hub.login_calls, 1);
    let saved = saved.expect("an accepted login persists its credentials");
    assert_eq!(saved.identifier, "a@b.com");
    assert_eq!(saved.secret, "x");
    // the one persisted write belongs to the login alone
    let (_, saved_again) = handle(&mut co, &mut hub, Request::List(Query::Devices));
    assert!(saved_again.is_none());
}

#[test]
fn login_rejection_is_not_an_error() {
    let mut co = Coordinator::new();
    let mut hub = FakeHub::new();
    hub.accept_login = false;
    let (resp, saved) = handle(&mut co, &mut hub, login_request("a@b.com", "bad"));
    assert!(matches!(resp, Response::LoginRejected));
    assert_eq!(status_of(&resp), 403);
    assert!(saved.is_none());
    assert!(!co.is_authenticated());
}

#[test]
fn rejected_relogin_reverts_an_authenticated_session() {
    let mut co = Coordinator::new();
    let mut hub = FakeHub::new();
    handle(&mut co, &mut hub, login_request("a@b.com", "x"));
    assert!(co.is_authenticated());
    hub.accept_login = false;
    let (resp, saved) = handle(&mut co, &mut hub, login_request("a@b.com", "stale"));
    assert!(matches!(resp, Response::LoginRejected));
    assert!(saved.is_none());
    assert!(!co.is_authenticated());
}

#[test]
fn unauthenticated_requests_reach_no_hub() {
    let mut co = Coordinator::new();
    let mut hub = FakeHub::new();
    let (resp, _) = handle(&mut co, &mut hub, Request::List(Query::Rooms));
    match &resp {
        Response::Failed(GatewayError::NotAuthenticated) => {}
        _ => panic!("a listing without a session must fail with the session-absence error"),
    }
    assert_eq!(status_of(&resp), 500);
    let (resp2, _) = handle(&mut co, &mut hub, Request::Act(ActionIntent::DeviceOn(1)));
    assert!(matches!(resp2, Response::Failed(GatewayError::NotAuthenticated)));
    assert_eq!(hub.total_calls(), 0, "zero hub calls may happen without a session");
}

#[test]
fn full_session_scenario() {
    let mut co = Coordinator::new();
    let mut hub = FakeHub::new();

    let (resp, _) = handle(&mut co, &mut hub, login_request("a@b.com", "x"));
    assert_eq!(status_of(&resp), 200);

    let (listing, _) = handle(&mut co, &mut hub, Request::List(Query::Devices));
    assert_eq!(status_of(&listing), 200);
    match listing {
        Response::Listing(items) => {
            let got: Vec<(u64, String)> = items.into_iter().map(|i| (i.id, i.name)).collect();
            assert_eq!(got, vec![(1, "lamp".to_string()), (7, "heater".to_string())]);
        }
        _ => panic!("a listing request with a session must return the hub's list"),
    }

    let (on, _) = handle(&mut co, &mut hub, Request::Act(ActionIntent::DeviceOn(7)));
    assert_eq!(status_of(&on), 200);
    assert!(matches!(on, Response::ActionOk));
    assert_eq!(hub.turn_on_calls, vec![7], "the hub receives exactly one turn-on call");

    let (stop, _) = handle(&mut co, &mut hub, Request::Act(ActionIntent::SceneStop(3)));
    assert_eq!(status_of(&stop), 200);
    assert_eq!(hub.stop_scene_calls, vec![3], "the hub receives exactly one stop-scene call");
}

#[test]
fn restart_with_persisted_record_recovers_the_session() {
    // first process lifetime: a login persists its record
    let record;
    {
        let mut co = Coordinator::new();
        let mut hub = FakeHub::new();
        let (_, saved) = handle(&mut co, &mut hub, login_request("a@b.com", "x"));
        record = encode_credentials(&saved.unwrap()).unwrap();
    }
    // second process lifetime: the record alone restores the session
    let mut co = Coordinator::new();
    let mut hub = FakeHub::new();
    let loaded = interpret_config(Some(&record));
    assert!(matches!(loaded, LoadOutcome::Loaded(_)));
    let auto = startup_credentials(loaded).unwrap();
    handle(&mut co, &mut hub, Request::Login(auto));
    assert!(co.is_authenticated(), "recovery happens before any client request");
    assert_eq!(hub.login_calls, 1);
    // the first client request is served without a fresh login
    let (resp, _) = handle(&mut co, &mut hub, Request::List(Query::Devices));
    assert!(matches!(resp, Response::Listing(_)));
}

#[test]
fn hub_calls_never_overlap() {
    let mut co = Coordinator::new();
    let mut hub = FakeHub::new();
    let requests = vec![
        Request::List(Query::Devices),
        login_request("a@b.com", "x"),
        Request::List(Query::Devices),
        Request::List(Query::Rooms),
        Request::Act(ActionIntent::DeviceDim(2, 50)),
        login_request("a@b.com", "x"),
        Request::List(Query::Scenes),
        Request::Act(ActionIntent::ScenePlay(4)),
    ];
    for req in requests {
        handle(&mut co, &mut hub, req);
    }
    assert_eq!(hub.max_in_flight, 1, "at most one hub operation is ever in flight");
}

#[test]
fn hub_trouble_is_distinct_from_session_absence() {
    let mut co = Coordinator::new();
    let mut hub = FakeHub::new();
    handle(&mut co, &mut hub, login_request("a@b.com", "x"));
    hub.fail_message = Some("connection reset".to_string());
    let (resp, _) = handle(&mut co, &mut hub, Request::List(Query::Scenes));
    assert_eq!(status_of(&resp), 500);
    match resp {
        Response::Failed(e) => {
            assert!(matches!(&e, GatewayError::Hub(_)));
            assert_eq!(describe_error(&e), "connection reset");
        }
        _ => panic!("hub trouble must surface as a failure"),
    }
    assert!(co.is_authenticated(), "a failed listing does not drop the session");
    assert_eq!(
        describe_error(&GatewayError::NotAuthenticated),
        "Not logged in"
    );
}

#[test]
fn failed_login_is_an_error_and_drops_the_session() {
    let mut co = Coordinator::new();
    let mut hub = FakeHub::new();
    handle(&mut co, &mut hub, login_request("a@b.com", "x"));
    assert!(co.is_authenticated());
    hub.break_login = true;
    let (resp, saved) = handle(&mut co, &mut hub, login_request("a@b.com", "x"));
    assert_eq!(status_of(&resp), 500);
    match resp {
        Response::Failed(e) => {
            assert!(matches!(&e, GatewayError::Hub(_)));
            assert_eq!(describe_error(&e), "hub unreachable");
        }
        _ => panic!("hub trouble during login must surface as a failure, not a rejection"),
    }
    assert!(saved.is_none());
    assert!(!co.is_authenticated(), "the prior handle was discarded when the login began");
}

#[test]
fn dispatch_maps_each_intent_to_its_operation() {
    assert!(matches!(dispatch(ActionIntent::DeviceOn(7)), HubCall::TurnOn(7)));
    assert!(matches!(dispatch(ActionIntent::DeviceOff(8)), HubCall::TurnOff(8)));
    assert!(matches!(dispatch(ActionIntent::DeviceDim(9, 40)), HubCall::Dim(9, 40)));
    assert!(matches!(dispatch(ActionIntent::ScenePlay(3)), HubCall::StartScene(3)));
    assert!(matches!(dispatch(ActionIntent::SceneStop(3)), HubCall::StopScene(3)));
    assert!(matches!(query_call(Query::Devices), HubCall::FetchDevices));
    assert!(matches!(query_call(Query::Rooms), HubCall::FetchRooms));
    assert!(matches!(query_call(Query::Scenes), HubCall::FetchScenes));
}
