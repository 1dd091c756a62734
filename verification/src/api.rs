//! Typed requests, hub calls, hub outcomes and gateway responses.
//!
//! The transport layer decodes an HTTP request into a [`Request`], hands it
//! to the coordinator, performs the one [`HubCall`] the coordinator plans (if
//! any), reports what came back as a [`HubOutcome`], and encodes the
//! resulting [`Response`].

use vstd::prelude::*;
use crate::credentials::{Credentials, CredentialsView};

verus! {

/// A listing the client may ask for: the hub's devices, rooms or scenes.
#[derive(Clone, Copy, PartialEq, Eq, Structural, Debug)]
pub enum Query {
    Devices,
    Rooms,
    Scenes,
}

/// One requested state change, decoded from a client request.
#[derive(Clone, Copy, PartialEq, Eq, Structural, Debug)]
pub enum ActionIntent {
    DeviceOn(u64),
    DeviceOff(u64),
    DeviceDim(u64, u64),
    ScenePlay(u64),
    SceneStop(u64),
}

/// A decoded client request.
pub enum Request {
    Login(Credentials),
    List(Query),
    Act(ActionIntent),
}

/// Mathematical value of a [`Request`].
#[verifier::ext_equal]
pub ghost enum RequestView {
    Login(CredentialsView),
    List(Query),
    Act(ActionIntent),
}

impl View for Request {
    type V = RequestView;

    open spec fn view(&self) -> RequestView {
        match self {
            Request::Login(c) => RequestView::Login(c@),
            Request::List(q) => RequestView::List(*q),
            Request::Act(a) => RequestView::Act(*a),
        }
    }
}

/// One operation of the hub's own operation set.
pub enum HubCall {
    Authenticate(Credentials),
    FetchDevices,
    FetchRooms,
    FetchScenes,
    TurnOn(u64),
    TurnOff(u64),
    Dim(u64, u64),
    StartScene(u64),
    StopScene(u64),
}

/// Mathematical value of a [`HubCall`].
#[verifier::ext_equal]
pub ghost enum CallView {
    Authenticate(CredentialsView),
    FetchDevices,
    FetchRooms,
    FetchScenes,
    TurnOn(u64),
    TurnOff(u64),
    Dim(u64, u64),
    StartScene(u64),
    StopScene(u64),
}

impl View for HubCall {
    type V = CallView;

    open spec fn view(&self) -> CallView {
        match self {
            HubCall::Authenticate(c) => CallView::Authenticate(c@),
            HubCall::FetchDevices => CallView::FetchDevices,
            HubCall::FetchRooms => CallView::FetchRooms,
            HubCall::FetchScenes => CallView::FetchScenes,
            HubCall::TurnOn(id) => CallView::TurnOn(*id),
            HubCall::TurnOff(id) => CallView::TurnOff(*id),
            HubCall::Dim(id, level) => CallView::Dim(*id, *level),
            HubCall::StartScene(id) => CallView::StartScene(*id),
            HubCall::StopScene(id) => CallView::StopScene(*id),
        }
    }
}

/// A row of a hub listing: the projection of one device, room or scene.
pub struct Item {
    pub id: u64,
    pub name: String,
}

/// Mathematical value of an [`Item`].
#[verifier::ext_equal]
pub ghost struct ItemView {
    pub id: u64,
    pub name: Seq<char>,
}

impl View for Item {
    type V = ItemView;

    open spec fn view(&self) -> ItemView {
        ItemView { id: self.id, name: self.name@ }
    }
}

/// The views of the rows of a listing, in order.
pub open spec fn items_view(items: Seq<Item>) -> Seq<ItemView> {
    items.map_values(|it: Item| it@)
}

/// A hub-side failure: network or protocol trouble, not a rejection of
/// credentials.
pub struct HubFault {
    pub message: String,
}

impl View for HubFault {
    type V = Seq<char>;

    open spec fn view(&self) -> Seq<char> {
        self.message@
    }
}

/// What came back from one hub call.
pub enum HubOutcome {
    AuthAccepted,
    AuthRejected,
    Listing(Vec<Item>),
    ActionDone,
    Failed(HubFault),
}

/// Mathematical value of a [`HubOutcome`].
#[verifier::ext_equal]
pub ghost enum OutcomeView {
    AuthAccepted,
    AuthRejected,
    Listing(Seq<ItemView>),
    ActionDone,
    Failed(Seq<char>),
}

impl View for HubOutcome {
    type V = OutcomeView;

    open spec fn view(&self) -> OutcomeView {
        match self {
            HubOutcome::AuthAccepted => OutcomeView::AuthAccepted,
            HubOutcome::AuthRejected => OutcomeView::AuthRejected,
            HubOutcome::Listing(items) => OutcomeView::Listing(items_view(items@)),
            HubOutcome::ActionDone => OutcomeView::ActionDone,
            HubOutcome::Failed(f) => OutcomeView::Failed(f@),
        }
    }
}

/// A failure the gateway reports to a client, with session absence kept
/// distinct from hub trouble.
pub enum GatewayError {
    NotAuthenticated,
    Hub(HubFault),
}

/// Mathematical value of a [`GatewayError`].
#[verifier::ext_equal]
pub ghost enum ErrorView {
    NotAuthenticated,
    Hub(Seq<char>),
}

impl View for GatewayError {
    type V = ErrorView;

    open spec fn view(&self) -> ErrorView {
        match self {
            GatewayError::NotAuthenticated => ErrorView::NotAuthenticated,
            GatewayError::Hub(f) => ErrorView::Hub(f@),
        }
    }
}

/// The typed result of one request.
pub enum Response {
    LoginOk,
    LoginRejected,
    Listing(Vec<Item>),
    ActionOk,
    Failed(GatewayError),
}

/// Mathematical value of a [`Response`].
#[verifier::ext_equal]
pub ghost enum ResponseView {
    LoginOk,
    LoginRejected,
    Listing(Seq<ItemView>),
    ActionOk,
    Failed(ErrorView),
}

impl View for Response {
    type V = ResponseView;

    open spec fn view(&self) -> ResponseView {
        match self {
            Response::LoginOk => ResponseView::LoginOk,
            Response::LoginRejected => ResponseView::LoginRejected,
            Response::Listing(items) => ResponseView::Listing(items_view(items@)),
            Response::ActionOk => ResponseView::ActionOk,
            Response::Failed(e) => ResponseView::Failed(e@),
        }
    }
}

/// What the coordinator decides for one request: either the one hub call to
/// run under its exclusive region, or an immediate response without any hub
/// call.
pub enum Plan {
    CallHub(HubCall),
    Reject(Response),
}

/// Mathematical value of a [`Plan`].
#[verifier::ext_equal]
pub ghost enum PlanView {
    CallHub(CallView),
    Reject(ResponseView),
}

impl View for Plan {
    type V = PlanView;

    open spec fn view(&self) -> PlanView {
        match self {
            Plan::CallHub(c) => PlanView::CallHub(c@),
            Plan::Reject(r) => PlanView::Reject(r@),
        }
    }
}

} // verus!
