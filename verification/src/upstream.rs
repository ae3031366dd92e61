//! What one call to the upstream directory (or to the persistence backend)
//! came to, and the parsing of upstream JSON bodies into the space model.
//!
//! The callers outside this library perform the network transfer and hand in
//! an `UpstreamResponse`; everything decided from it is verified here.
use vstd::prelude::*;

use crate::spaces::{children_view, Capacity, ChildView, ContainedSpace, GenericSpace, SpaceView};

verus! {

/// The outcome of one HTTP exchange, as the unverified transport layer
/// reports it: a response whose body was read, a response whose body could
/// not be read, or no response at all.
#[derive(Debug, PartialEq, Eq)]
pub enum UpstreamResponse {
    Body { status: u16, body: String },
    ReadFailed { status: u16, error: String },
    Transport(String),
}

/// Mathematical image of an `UpstreamResponse`.
pub ghost enum RespView {
    Body { status: u16, body: Seq<char> },
    ReadFailed { status: u16, error: Seq<char> },
    Transport(Seq<char>),
}

impl View for UpstreamResponse {
    type V = RespView;

    open spec fn view(&self) -> RespView {
        match self {
            UpstreamResponse::Body { status, body } => RespView::Body {
                status: *status,
                body: body@,
            },
            UpstreamResponse::ReadFailed { status, error } => RespView::ReadFailed {
                status: *status,
                error: error@,
            },
            UpstreamResponse::Transport(m) => RespView::Transport(m@),
        }
    }
}

/// What parsing an upstream node body comes to: `None` when the text is not
/// a JSON object of the shape {name, containedSpaces, capacity?}, otherwise
/// the node it denotes. The result depends on the text alone.
pub uninterp spec fn space_of_json(s: Seq<char>) -> Option<SpaceView>;

/// What parsing a top-level listing body comes to: `None` when the text is
/// not a JSON array of {id, name} objects, otherwise the child references it
/// denotes. The result depends on the text alone.
pub uninterp spec fn child_list_of_json(s: Seq<char>) -> Option<Seq<ChildView>>;

/// Relies on serde_json::from_str and the serde_json::Value accessors:
/// parsing is a pure function of the text, and the shape read here is
/// {name: string, containedSpaces: [{id: string, name: string}, ...],
/// capacity: {normal: u64}} with the capacity member optional.
#[verifier::external_body]
pub(crate) fn parse_space(body: &str) -> (r: Option<GenericSpace>)
    ensures
        r is Some <==> space_of_json(body@) is Some,
        r matches Some(g) ==> space_of_json(body@) == Some(g@),
{
    let v: serde_json::Value = serde_json::from_str(body).ok()?;
    let name = v.get("name")?.as_str()?.to_string();
    let mut contained_spaces: Vec<ContainedSpace> = Vec::new();
    for c in v.get("containedSpaces")?.as_array()? {
        let id = c.get("id")?.as_str()?.to_string();
        let name = c.get("name")?.as_str()?.to_string();
        contained_spaces.push(ContainedSpace { id, name });
    }
    let capacity = match v.get("capacity") {
        Some(c) => Some(Capacity { normal: c.get("normal")?.as_u64()? }),
        None => None,
    };
    Some(GenericSpace { name, contained_spaces, capacity })
}

/// Relies on serde_json::from_str and the serde_json::Value accessors:
/// parsing is a pure function of the text, and the shape read here is a
/// JSON array [{id: string, name: string}, ...].
#[verifier::external_body]
pub(crate) fn parse_child_list(body: &str) -> (r: Option<Vec<ContainedSpace>>)
    ensures
        r is Some <==> child_list_of_json(body@) is Some,
        r matches Some(cs) ==> child_list_of_json(body@) == Some(children_view(cs@)),
{
    let v: serde_json::Value = serde_json::from_str(body).ok()?;
    let mut spaces: Vec<ContainedSpace> = Vec::new();
    for c in v.as_array()? {
        let id = c.get("id")?.as_str()?.to_string();
        let name = c.get("name")?.as_str()?.to_string();
        spaces.push(ContainedSpace { id, name });
    }
    Some(spaces)
}

/// The room test on the image of a response: a response that arrived and
/// was read makes a verdict (a room exactly when the status was a success
/// and the body denotes a node without children — an unreadable shape is
/// "not a room", never an error); a response that could not be read or never
/// arrived is a failure with its message.
pub open spec fn is_room_spec(r: RespView) -> Result<bool, Seq<char>> {
    match r {
        RespView::Body { status, body } => Ok(
            status == 200 && (space_of_json(body) matches Some(g) && g.contained_spaces.len()
                == 0),
        ),
        RespView::ReadFailed { status: _, error } => Err(error),
        RespView::Transport(m) => Err(m),
    }
}

/// Decide whether a fetched id denotes an actual leaf room. The decision
/// fails closed: a malformed body is "not a room", not an error.
pub fn is_room(response: &UpstreamResponse) -> (r: Result<bool, String>)
    ensures
        match r {
            Ok(b) => is_room_spec(response@) == Ok::<bool, Seq<char>>(b),
            Err(e) => is_room_spec(response@) == Err::<bool, Seq<char>>(e@),
        },
{
    match response {
        UpstreamResponse::Body { status, body } => {
            let leaf = match parse_space(body.as_str()) {
                Some(g) => g.contained_spaces.len() == 0,
                None => false,
            };
            Ok(*status == 200 && leaf)
        },
        UpstreamResponse::ReadFailed { status: _, error } => Err(clone_string(error)),
        UpstreamResponse::Transport(m) => Err(clone_string(m)),
    }
}

/// A copy of a string, equal to what it copies.
pub(crate) fn clone_string(s: &String) -> (r: String)
    ensures
        r@ == s@,
{
    s.clone()
}

} // verus!
