//! The command dispatcher: the pure mapping from a client intent to the one
//! corresponding hub operation.  Arguments pass through unchanged; level
//! bounds for dimming are the hub's concern.

use vstd::prelude::*;
use crate::api::{ActionIntent, CallView, HubCall, Query};

verus! {

/// The hub operation that carries out one action intent.
pub open spec fn spec_dispatch(a: ActionIntent) -> CallView {
    match a {
        ActionIntent::DeviceOn(id) => CallView::TurnOn(id),
        ActionIntent::DeviceOff(id) => CallView::TurnOff(id),
        ActionIntent::DeviceDim(id, level) => CallView::Dim(id, level),
        ActionIntent::ScenePlay(id) => CallView::StartScene(id),
        ActionIntent::SceneStop(id) => CallView::StopScene(id),
    }
}

/// Maps an action intent to the one hub operation that carries it out,
/// passing the arguments through unchanged.
pub fn dispatch(a: ActionIntent) -> (c: HubCall)
    ensures
        c@ == spec_dispatch(a),
{
    match a {
        ActionIntent::DeviceOn(id) => HubCall::TurnOn(id),
        ActionIntent::DeviceOff(id) => HubCall::TurnOff(id),
        ActionIntent::DeviceDim(id, level) => HubCall::Dim(id, level),
        ActionIntent::ScenePlay(id) => HubCall::StartScene(id),
        ActionIntent::SceneStop(id) => HubCall::StopScene(id),
    }
}

/// The hub operation that serves one listing query.
pub open spec fn spec_query_call(q: Query) -> CallView {
    match q {
        Query::Devices => CallView::FetchDevices,
        Query::Rooms => CallView::FetchRooms,
        Query::Scenes => CallView::FetchScenes,
    }
}

/// Maps a listing query to the hub operation that fetches it.
pub fn query_call(q: Query) -> (c: HubCall)
    ensures
        c@ == spec_query_call(q),
{
    match q {
        Query::Devices => HubCall::FetchDevices,
        Query::Rooms => HubCall::FetchRooms,
        Query::Scenes => HubCall::FetchScenes,
    }
}

} // verus!
