//! The decisions behind each HTTP endpoint: which status code and which body
//! a request gets, for every outcome of the upstream and persistence calls.
//!
//! The unverified edge reads the inbound request and performs the network
//! transfers; everything decided from their outcomes — validation, status
//! codes, bodies, and what to send on — is decided here.
use vstd::prelude::*;
use vstd::string::StringExecFns;

use crate::resolve::{upstream_error_text, ResolutionResult, ResolutionView};
use crate::spaces::{shape_response, shape_spec, ShapedResponse, ShapedView};
use crate::upstream::{child_list_of_json, clone_string, parse_child_list, space_of_json, RespView, UpstreamResponse};

verus! {

/// The reply decided for a request: a status code and a body that is either
/// finished text or a shaped node still to be serialized at the edge.
#[derive(Debug, PartialEq, Eq)]
pub struct HttpReply {
    pub status: u16,
    pub body: ReplyBody,
}

/// The body of a reply: finished text (error messages and persistence
/// passthrough), or a shaped node whose serialization is left to the edge.
#[derive(Debug, PartialEq, Eq)]
pub enum ReplyBody {
    Text(String),
    Shaped(ShapedResponse),
}

/// Mathematical image of a `ReplyBody`.
pub ghost enum BodyView {
    Text(Seq<char>),
    Shaped(ShapedView),
}

/// Mathematical image of an `HttpReply`.
pub ghost struct ReplyView {
    pub status: u16,
    pub body: BodyView,
}

impl View for ReplyBody {
    type V = BodyView;

    open spec fn view(&self) -> BodyView {
        match self {
            ReplyBody::Text(t) => BodyView::Text(t@),
            ReplyBody::Shaped(s) => BodyView::Shaped(s@),
        }
    }
}

impl View for HttpReply {
    type V = ReplyView;

    open spec fn view(&self) -> ReplyView {
        ReplyView { status: self.status, body: self.body@ }
    }
}

/// The error body wrapping a message: {"error": "message"}.
pub open spec fn json_error_text(msg: Seq<char>) -> Seq<char> {
    "{\"error\": \""@ + msg + "\"}"@
}

/// The message surfaced when a success body did not denote the expected
/// shape.
pub open spec fn malformed_text() -> Seq<char> {
    "malformed upstream data"@
}

/// The whole body surfaced when the persistence backend failed.
pub open spec fn db_error_body() -> Seq<char> {
    "{\"error\": \"There is an error in the database\"}"@
}

fn concat3(a: &str, b: &str, c: &str) -> (r: String)
    ensures
        r@ == a@ + b@ + c@,
{
    let mut out = a.to_owned();
    out.append(b);
    out.append(c);
    out
}

fn concat5(a: &str, b: &str, c: &str, d: &str, e: &str) -> (r: String)
    ensures
        r@ == a@ + b@ + c@ + d@ + e@,
{
    let mut out = a.to_owned();
    out.append(b);
    out.append(c);
    out.append(d);
    out.append(e);
    out
}

fn json_error(msg: &str) -> (r: String)
    ensures
        r@ == json_error_text(msg@),
{
    concat3("{\"error\": \"", msg, "\"}")
}

/// The reply decided for a finished path resolution: the shaped node on
/// success, 404 naming the unmatched segment, 503 with the upstream message,
/// and 500 for a body that denoted no node.
pub open spec fn path_reply_spec(r: ResolutionView) -> ReplyView {
    match r {
        ResolutionView::Found(g) => ReplyView { status: 200, body: BodyView::Shaped(shape_spec(g)) },
        ResolutionView::NotFound(n) => ReplyView {
            status: 404,
            body: BodyView::Text(json_error_text(n + " was not found"@)),
        },
        ResolutionView::UpstreamError(m) => ReplyView {
            status: 503,
            body: BodyView::Text(json_error_text(m)),
        },
        ResolutionView::MalformedData => ReplyView {
            status: 500,
            body: BodyView::Text(json_error_text(malformed_text())),
        },
    }
}

/// Map a finished path resolution to its reply.
pub fn path_handler(result: ResolutionResult) -> (r: HttpReply)
    ensures
        r@ == path_reply_spec(result@),
{
    match result {
        ResolutionResult::Found(g) => HttpReply {
            status: 200,
            body: ReplyBody::Shaped(shape_response(g)),
        },
        ResolutionResult::NotFound(n) => {
            let mut msg = n;
            msg.append(" was not found");
            HttpReply { status: 404, body: ReplyBody::Text(json_error(msg.as_str())) }
        },
        ResolutionResult::UpstreamError(m) => HttpReply {
            status: 503,
            body: ReplyBody::Text(json_error(m.as_str())),
        },
        ResolutionResult::MalformedData => HttpReply {
            status: 500,
            body: ReplyBody::Text(json_error("malformed upstream data")),
        },
    }
}

/// The reply for a non-success status when dereferencing an id: 404 echoes
/// the id, anything else is the generic upstream failure.
pub open spec fn id_error_reply(id: Seq<char>, status: u16) -> ReplyView {
    if status == 404 {
        ReplyView {
            status: 404,
            body: BodyView::Text(json_error_text("The id: "@ + id + " was not found"@)),
        }
    } else {
        ReplyView { status: 503, body: BodyView::Text(json_error_text(upstream_error_text())) }
    }
}

/// The reply decided for a fetch of one id: a success body is parsed and
/// shaped; a non-success status is echoed as 404 or the generic upstream
/// failure; an unread or missing response is a 500 with its message.
pub open spec fn id_reply_spec(id: Seq<char>, r: RespView) -> ReplyView {
    match r {
        RespView::Body { status, body } => if status == 200 {
            match space_of_json(body) {
                Some(g) => ReplyView { status: 200, body: BodyView::Shaped(shape_spec(g)) },
                None => ReplyView {
                    status: 500,
                    body: BodyView::Text(json_error_text(malformed_text())),
                },
            }
        } else {
            id_error_reply(id, status)
        },
        RespView::ReadFailed { status, error } => if status == 200 {
            ReplyView { status: 500, body: BodyView::Text(json_error_text(error)) }
        } else {
            id_error_reply(id, status)
        },
        RespView::Transport(m) => ReplyView {
            status: 500,
            body: BodyView::Text(json_error_text(m)),
        },
    }
}

fn id_error(id: &str, status: u16) -> (r: HttpReply)
    requires
        status != 200,
    ensures
        r@ == id_error_reply(id@, status),
{
    if status == 404 {
        let msg = concat3("The id: ", id, " was not found");
        HttpReply { status: 404, body: ReplyBody::Text(json_error(msg.as_str())) }
    } else {
        HttpReply { status: 503, body: ReplyBody::Text(json_error("Fenix had an error")) }
    }
}

/// Decide the reply for a request that dereferences one id, from what the
/// fetch of that id came to.
pub fn id_handler(id: &str, response: &UpstreamResponse) -> (r: HttpReply)
    ensures
        r@ == id_reply_spec(id@, response@),
{
    match response {
        UpstreamResponse::Body { status, body } => {
            if *status == 200 {
                match crate::upstream::parse_space(body.as_str()) {
                    Some(g) => HttpReply { status: 200, body: ReplyBody::Shaped(shape_response(g)) },
                    None => HttpReply {
                        status: 500,
                        body: ReplyBody::Text(json_error("malformed upstream data")),
                    },
                }
            } else {
                id_error(id, *status)
            }
        },
        UpstreamResponse::ReadFailed { status, error } => {
            if *status == 200 {
                HttpReply { status: 500, body: ReplyBody::Text(json_error(error.as_str())) }
            } else {
                id_error(id, *status)
            }
        },
        UpstreamResponse::Transport(m) => HttpReply {
            status: 500,
            body: ReplyBody::Text(json_error(m.as_str())),
        },
    }
}

/// The reply decided for the top-level listing: a success body is parsed as
/// a children list and passed on unshaped; failures are classified as for an
/// id fetch, with nothing to echo.
pub open spec fn spaces_reply_spec(r: RespView) -> ReplyView {
    match r {
        RespView::Body { status, body } => if status == 200 {
            match child_list_of_json(body) {
                Some(cs) => ReplyView { status: 200, body: BodyView::Shaped(ShapedView::Children(cs)) },
                None => ReplyView {
                    status: 500,
                    body: BodyView::Text(json_error_text(malformed_text())),
                },
            }
        } else {
            id_error_reply(Seq::empty(), status)
        },
        RespView::ReadFailed { status, error } => if status == 200 {
            ReplyView { status: 500, body: BodyView::Text(json_error_text(error)) }
        } else {
            id_error_reply(Seq::empty(), status)
        },
        RespView::Transport(m) => ReplyView {
            status: 500,
            body: BodyView::Text(json_error_text(m)),
        },
    }
}

/// Decide the reply for the top-level listing request, from what the fetch
/// of the root came to.
pub fn spaces_handler(response: &UpstreamResponse) -> (r: HttpReply)
    ensures
        r@ == spaces_reply_spec(response@),
{
    proof {
        reveal_strlit("");
        assert(""@ =~= Seq::<char>::empty());
    }
    match response {
        UpstreamResponse::Body { status, body } => {
            if *status == 200 {
                match parse_child_list(body.as_str()) {
                    Some(cs) => HttpReply {
                        status: 200,
                        body: ReplyBody::Shaped(ShapedResponse::Children(cs)),
                    },
                    None => HttpReply {
                        status: 500,
                        body: ReplyBody::Text(json_error("malformed upstream data")),
                    },
                }
            } else {
                id_error("", *status)
            }
        },
        UpstreamResponse::ReadFailed { status, error } => {
            if *status == 200 {
                HttpReply { status: 500, body: ReplyBody::Text(json_error(error.as_str())) }
            } else {
                id_error("", *status)
            }
        },
        UpstreamResponse::Transport(m) => HttpReply {
            status: 500,
            body: ReplyBody::Text(json_error(m.as_str())),
        },
    }
}

/// The reply decided for the room listing proxied from the persistence
/// backend: a success body passes through; anything else is the backend
/// failure or the transfer's own message.
pub open spec fn rooms_reply_spec(r: RespView) -> ReplyView {
    match r {
        RespView::Body { status, body } => if status == 200 {
            ReplyView { status: 200, body: BodyView::Text(body) }
        } else {
            ReplyView { status: 503, body: BodyView::Text(db_error_body()) }
        },
        RespView::ReadFailed { status, error } => if status == 200 {
            ReplyView { status: 500, body: BodyView::Text(json_error_text(error)) }
        } else {
            ReplyView { status: 503, body: BodyView::Text(db_error_body()) }
        },
        RespView::Transport(m) => ReplyView {
            status: 500,
            body: BodyView::Text(json_error_text(m)),
        },
    }
}

/// Decide the reply for the room listing request, from what the backend
/// answered.
pub fn rooms_handler(response: &UpstreamResponse) -> (r: HttpReply)
    ensures
        r@ == rooms_reply_spec(response@),
{
    match response {
        UpstreamResponse::Body { status, body } => {
            if *status == 200 {
                HttpReply { status: 200, body: ReplyBody::Text(clone_string(body)) }
            } else {
                HttpReply {
                    status: 503,
                    body: ReplyBody::Text(
                        "{\"error\": \"There is an error in the database\"}".to_owned(),
                    ),
                }
            }
        },
        UpstreamResponse::ReadFailed { status, error } => {
            if *status == 200 {
                HttpReply { status: 500, body: ReplyBody::Text(json_error(error.as_str())) }
            } else {
                HttpReply {
                    status: 503,
                    body: ReplyBody::Text(
                        "{\"error\": \"There is an error in the database\"}".to_owned(),
                    ),
                }
            }
        },
        UpstreamResponse::Transport(m) => HttpReply {
            status: 500,
            body: ReplyBody::Text(json_error(m.as_str())),
        },
    }
}

/// The reply decided for a record created in the persistence backend: the
/// backend's own body passes through under the statuses the flow expects
/// (created, validation failure, unknown reference, bad request); any other
/// status is the backend failure.
pub open spec fn create_entity_spec(r: RespView) -> ReplyView {
    match r {
        RespView::Body { status, body } => if status == 200 || status == 201 {
            ReplyView { status: 200, body: BodyView::Text(body) }
        } else if status == 422 || status == 404 || status == 400 {
            ReplyView { status: status, body: BodyView::Text(body) }
        } else {
            ReplyView { status: 503, body: BodyView::Text(db_error_body()) }
        },
        RespView::ReadFailed { status, error } => if status == 200 || status == 201 || status
            == 422 || status == 404 || status == 400 {
            ReplyView { status: 500, body: BodyView::Text(json_error_text(error)) }
        } else {
            ReplyView { status: 503, body: BodyView::Text(db_error_body()) }
        },
        RespView::Transport(m) => ReplyView {
            status: 500,
            body: BodyView::Text(json_error_text(m)),
        },
    }
}

/// Decide the reply for a create request, from what the backend answered.
pub fn create_entity(response: &UpstreamResponse) -> (r: HttpReply)
    ensures
        r@ == create_entity_spec(response@),
{
    match response {
        UpstreamResponse::Body { status, body } => {
            if *status == 200 || *status == 201 {
                HttpReply { status: 200, body: ReplyBody::Text(clone_string(body)) }
            } else if *status == 422 || *status == 404 || *status == 400 {
                HttpReply { status: *status, body: ReplyBody::Text(clone_string(body)) }
            } else {
                HttpReply {
                    status: 503,
                    body: ReplyBody::Text(
                        "{\"error\": \"There is an error in the database\"}".to_owned(),
                    ),
                }
            }
        },
        UpstreamResponse::ReadFailed { status, error } => {
            if *status == 200 || *status == 201 || *status == 422 || *status == 404 || *status
                == 400 {
                HttpReply { status: 500, body: ReplyBody::Text(json_error(error.as_str())) }
            } else {
                HttpReply {
                    status: 503,
                    body: ReplyBody::Text(
                        "{\"error\": \"There is an error in the database\"}".to_owned(),
                    ),
                }
            }
        },
        UpstreamResponse::Transport(m) => HttpReply {
            status: 500,
            body: ReplyBody::Text(json_error(m.as_str())),
        },
    }
}

/// The reply decided for a removed check-in: removal answers with an empty
/// body; a record that was not there is the backend's 404 body; any other
/// status is the backend failure.
pub open spec fn check_out_reply_spec(r: RespView) -> ReplyView {
    match r {
        RespView::Body { status, body } => if status == 200 || status == 204 {
            ReplyView { status: 200, body: BodyView::Text(Seq::empty()) }
        } else if status == 404 {
            ReplyView { status: 404, body: BodyView::Text(body) }
        } else {
            ReplyView { status: 503, body: BodyView::Text(db_error_body()) }
        },
        RespView::ReadFailed { status, error } => if status == 200 || status == 204 {
            ReplyView { status: 200, body: BodyView::Text(Seq::empty()) }
        } else if status == 404 {
            ReplyView { status: 500, body: BodyView::Text(json_error_text(error)) }
        } else {
            ReplyView { status: 503, body: BodyView::Text(db_error_body()) }
        },
        RespView::Transport(m) => ReplyView {
            status: 500,
            body: BodyView::Text(json_error_text(m)),
        },
    }
}

/// Decide the reply for a check-out request, from what the backend answered
/// to the removal.
pub fn check_out_reply(response: &UpstreamResponse) -> (r: HttpReply)
    ensures
        r@ == check_out_reply_spec(response@),
{
    match response {
        UpstreamResponse::Body { status, body } => {
            if *status == 200 || *status == 204 {
                HttpReply { status: 200, body: ReplyBody::Text(String::new()) }
            } else if *status == 404 {
                HttpReply { status: 404, body: ReplyBody::Text(clone_string(body)) }
            } else {
                HttpReply {
                    status: 503,
                    body: ReplyBody::Text(
                        "{\"error\": \"There is an error in the database\"}".to_owned(),
                    ),
                }
            }
        },
        UpstreamResponse::ReadFailed { status, error } => {
            if *status == 200 || *status == 204 {
                HttpReply { status: 200, body: ReplyBody::Text(String::new()) }
            } else if *status == 404 {
                HttpReply { status: 500, body: ReplyBody::Text(json_error(error.as_str())) }
            } else {
                HttpReply {
                    status: 503,
                    body: ReplyBody::Text(
                        "{\"error\": \"There is an error in the database\"}".to_owned(),
                    ),
                }
            }
        },
        UpstreamResponse::Transport(m) => HttpReply {
            status: 500,
            body: ReplyBody::Text(json_error(m.as_str())),
        },
    }
}

/// One member of the inbound request's JSON object, as the edge read it:
/// the text of a JSON string, or a value of any other type.
#[derive(Debug, PartialEq, Eq)]
pub enum FieldValue {
    NotAString,
    Text(String),
}

/// Mathematical image of a `FieldValue`.
pub ghost enum FieldView {
    NotAString,
    Text(Seq<char>),
}

impl View for FieldValue {
    type V = FieldView;

    open spec fn view(&self) -> FieldView {
        match self {
            FieldValue::NotAString => FieldView::NotAString,
            FieldValue::Text(t) => FieldView::Text(t@),
        }
    }
}

/// The inbound request's body, as the edge read it: text that was not JSON,
/// JSON that was not an object, or the object's members in order.
#[derive(Debug, PartialEq, Eq)]
pub enum RequestBody {
    Unparseable,
    NotAnObject,
    Object(Vec<(String, FieldValue)>),
}

/// Mathematical image of a `RequestBody`.
pub ghost enum RequestView {
    Unparseable,
    NotAnObject,
    Object(Seq<(Seq<char>, FieldView)>),
}

/// The images of an object's members, in order.
pub open spec fn fields_view(fields: Seq<(String, FieldValue)>) -> Seq<(Seq<char>, FieldView)> {
    fields.map_values(|p: (String, FieldValue)| (p.0@, p.1@))
}

impl View for RequestBody {
    type V = RequestView;

    open spec fn view(&self) -> RequestView {
        match self {
            RequestBody::Unparseable => RequestView::Unparseable,
            RequestBody::NotAnObject => RequestView::NotAnObject,
            RequestBody::Object(fields) => RequestView::Object(fields_view(fields@)),
        }
    }
}

/// The first member under a key, or nothing when the key is absent.
pub open spec fn lookup_spec(fields: Seq<(Seq<char>, FieldView)>, key: Seq<char>) -> Option<
    FieldView,
>
    decreases fields.len(),
{
    if fields.len() == 0 {
        None
    } else if fields[0].0 == key {
        Some(fields[0].1)
    } else {
        lookup_spec(fields.drop_first(), key)
    }
}

fn lookup_field<'a>(fields: &'a Vec<(String, FieldValue)>, key: &str) -> (r: Option<
    &'a FieldValue,
>)
    ensures
        match r {
            Some(f) => lookup_spec(fields_view(fields@), key@) == Some(f@),
            None => lookup_spec(fields_view(fields@), key@) is None,
        },
{
    let ghost fv = fields_view(fields@);
    proof {
        assert(fv.skip(0) =~= fv);
    }
    let wanted = key.to_owned();
    let n: usize = fields.len();
    let mut i: usize = 0;
    while i < n
        invariant
            i <= n,
            n == fields.len(),
            fv == fields_view(fields@),
            wanted@ == key@,
            lookup_spec(fv, key@) == lookup_spec(fv.skip(i as int), key@),
        decreases n - i,
    {
        proof {
            assert(fv.skip(i as int)[0] == (fields@[i as int].0@, fields@[i as int].1@));
        }
        if fields[i].0 == wanted {
            return Some(&fields[i].1);
        }
        proof {
            assert(fv.skip(i as int).drop_first() =~= fv.skip(i + 1));
        }
        i = i + 1;
    }
    proof {
        assert(fv.skip(n as int) =~= Seq::<(Seq<char>, FieldView)>::empty());
    }
    None
}

/// The text a member contributes: a string's own text, any other value
/// nothing — a missing value and a wrongly typed one are then told apart
/// from the text's emptiness alone, as the flow does.
pub open spec fn field_text_spec(f: FieldView) -> Seq<char> {
    match f {
        FieldView::Text(t) => t,
        FieldView::NotAString => Seq::empty(),
    }
}

fn field_text(f: &FieldValue) -> (r: String)
    ensures
        r@ == field_text_spec(f@),
{
    match f {
        FieldValue::Text(t) => clone_string(t),
        FieldValue::NotAString => String::new(),
    }
}

/// What a validated request leads to: an immediate reply, or a body to send
/// on to the persistence backend.
#[derive(Debug, PartialEq, Eq)]
pub enum HandlerAction {
    Reply(HttpReply),
    Send(String),
}

/// Mathematical image of a `HandlerAction`.
pub ghost enum HandlerActionView {
    Reply(ReplyView),
    Send(Seq<char>),
}

impl View for HandlerAction {
    type V = HandlerActionView;

    open spec fn view(&self) -> HandlerActionView {
        match self {
            HandlerAction::Reply(rep) => HandlerActionView::Reply(rep@),
            HandlerAction::Send(b) => HandlerActionView::Send(b@),
        }
    }
}

/// What every persistence request is held to before its own fields are
/// read: the content type must say JSON, the body must parse, and the parse
/// must be an object. The reply that ends the request here, or nothing when
/// the fields may be read.
pub open spec fn request_preamble_spec(content_type_json: bool, b: RequestView) -> Option<ReplyView> {
    if !content_type_json {
        Some(
            ReplyView {
                status: 415,
                body: BodyView::Text(json_error_text("Wrong content-type used"@)),
            },
        )
    } else {
        match b {
            RequestView::Unparseable => Some(
                ReplyView {
                    status: 500,
                    body: BodyView::Text(json_error_text("Failed to parse JSON"@)),
                },
            ),
            RequestView::NotAnObject => Some(
                ReplyView {
                    status: 400,
                    body: BodyView::Text(json_error_text("JSON isn't an object"@)),
                },
            ),
            RequestView::Object(_) => None,
        }
    }
}

fn request_preamble(content_type_json: bool, body: &RequestBody) -> (r: Option<HttpReply>)
    ensures
        match r {
            Some(rep) => request_preamble_spec(content_type_json, body@) == Some(rep@),
            None => request_preamble_spec(content_type_json, body@) is None && body@ is Object,
        },
{
    if !content_type_json {
        Some(
            HttpReply { status: 415, body: ReplyBody::Text(json_error("Wrong content-type used")) },
        )
    } else {
        match body {
            RequestBody::Unparseable => Some(
                HttpReply { status: 500, body: ReplyBody::Text(json_error("Failed to parse JSON")) },
            ),
            RequestBody::NotAnObject => Some(
                HttpReply { status: 400, body: ReplyBody::Text(json_error("JSON isn't an object")) },
            ),
            RequestBody::Object(_) => None,
        }
    }
}

/// The body posted to register a user.
pub open spec fn user_body_text(username: Seq<char>) -> Seq<char> {
    "{\"username\": \""@ + username + "\"}"@
}

/// What a user-creation request leads to, once the preamble holds: the
/// object must carry a `username` member, and it must be a string; then its text is
/// posted on.
pub open spec fn create_user_spec(content_type_json: bool, b: RequestView) -> HandlerActionView {
    match request_preamble_spec(content_type_json, b) {
        Some(rep) => HandlerActionView::Reply(rep),
        None => match b {
            RequestView::Object(fields) => match lookup_spec(fields, "username"@) {
                None => HandlerActionView::Reply(
                    ReplyView {
                        status: 400,
                        body: BodyView::Text(json_error_text("username wasn't provided"@)),
                    },
                ),
                Some(FieldView::NotAString) => HandlerActionView::Reply(
                    ReplyView {
                        status: 400,
                        body: BodyView::Text(
                            json_error_text("username doesn't have correct type"@),
                        ),
                    },
                ),
                Some(FieldView::Text(username)) => HandlerActionView::Send(
                    user_body_text(username),
                ),
            },
            _ => HandlerActionView::Reply(
                ReplyView { status: 500, body: BodyView::Text(Seq::empty()) },
            ),
        },
    }
}

/// Decide a user-creation request, from the request's content type and body
/// as the edge read them.
pub fn create_user_handler(content_type_json: bool, body: &RequestBody) -> (r: HandlerAction)
    ensures
        r@ == create_user_spec(content_type_json, body@),
{
    if let Some(rep) = request_preamble(content_type_json, body) {
        return HandlerAction::Reply(rep);
    }
    match body {
        RequestBody::Object(fields) => match lookup_field(fields, "username") {
            None => HandlerAction::Reply(
                HttpReply {
                    status: 400,
                    body: ReplyBody::Text(json_error("username wasn't provided")),
                },
            ),
            Some(FieldValue::NotAString) => HandlerAction::Reply(
                HttpReply {
                    status: 400,
                    body: ReplyBody::Text(json_error("username doesn't have correct type")),
                },
            ),
            Some(FieldValue::Text(username)) => HandlerAction::Send(
                concat3("{\"username\": \"", username.as_str(), "\"}"),
            ),
        },
        _ => HandlerAction::Reply(
            HttpReply { status: 500, body: ReplyBody::Text(String::new()) },
        ),
    }
}

/// The body sent to record or remove a check-in.
pub open spec fn checkin_body_text(user_id: Seq<char>, room_id: Seq<char>) -> Seq<char> {
    "{\"user_id\": \""@ + user_id + "\", \"room_id\": \""@ + room_id + "\"}"@
}

/// What a check-in or check-out request leads to, once the preamble
/// holds: the object must carry `user_id` and `room_id` members, both strings and non-empty;
/// then the pair is sent on.
pub open spec fn check_pair_spec(content_type_json: bool, b: RequestView) -> HandlerActionView {
    match request_preamble_spec(content_type_json, b) {
        Some(rep) => HandlerActionView::Reply(rep),
        None => match b {
            RequestView::Object(fields) => match (
                lookup_spec(fields, "user_id"@),
                lookup_spec(fields, "room_id"@),
            ) {
                (Some(uf), Some(rf)) => {
                    let user_id = field_text_spec(uf);
                    let room_id = field_text_spec(rf);
                    if user_id.len() == 0 || room_id.len() == 0 {
                        HandlerActionView::Reply(
                            ReplyView {
                                status: 400,
                                body: BodyView::Text(
                                    json_error_text("parameters don't have correct type"@),
                                ),
                            },
                        )
                    } else {
                        HandlerActionView::Send(checkin_body_text(user_id, room_id))
                    }
                },
                _ => HandlerActionView::Reply(
                    ReplyView {
                        status: 400,
                        body: BodyView::Text(
                            json_error_text("One of the necessary arguments wasn't provided"@),
                        ),
                    },
                ),
            },
            _ => HandlerActionView::Reply(
                ReplyView { status: 500, body: BodyView::Text(Seq::empty()) },
            ),
        },
    }
}

fn check_pair(content_type_json: bool, body: &RequestBody) -> (r: HandlerAction)
    ensures
        r@ == check_pair_spec(content_type_json, body@),
{
    if let Some(rep) = request_preamble(content_type_json, body) {
        return HandlerAction::Reply(rep);
    }
    match body {
        RequestBody::Object(fields) => {
            let user_field = lookup_field(fields, "user_id");
            let room_field = lookup_field(fields, "room_id");
            match (user_field, room_field) {
                (Some(uf), Some(rf)) => {
                    let user_id = field_text(uf);
                    let room_id = field_text(rf);
                    if user_id.as_str().is_empty() || room_id.as_str().is_empty() {
                        HandlerAction::Reply(
                            HttpReply {
                                status: 400,
                                body: ReplyBody::Text(
                                    json_error("parameters don't have correct type"),
                                ),
                            },
                        )
                    } else {
                        HandlerAction::Send(
                            concat5(
                                "{\"user_id\": \"",
                                user_id.as_str(),
                                "\", \"room_id\": \"",
                                room_id.as_str(),
                                "\"}",
                            ),
                        )
                    }
                },
                _ => HandlerAction::Reply(
                    HttpReply {
                        status: 400,
                        body: ReplyBody::Text(
                            json_error("One of the necessary arguments wasn't provided"),
                        ),
                    },
                ),
            }
        },
        _ => HandlerAction::Reply(HttpReply { status: 500, body: ReplyBody::Text(String::new()) }),
    }
}

/// Decide a check-in request; what it sends on is posted as a new check-in.
pub fn check_in_handler(content_type_json: bool, body: &RequestBody) -> (r: HandlerAction)
    ensures
        r@ == check_pair_spec(content_type_json, body@),
{
    check_pair(content_type_json, body)
}

/// Decide a check-out request; what it sends on removes the check-in, and
/// the removal's outcome is replied through `check_out_reply`.
pub fn check_out_handler(content_type_json: bool, body: &RequestBody) -> (r: HandlerAction)
    ensures
        r@ == check_pair_spec(content_type_json, body@),
{
    check_pair(content_type_json, body)
}

/// What a room-creation request leads to: an immediate reply, or a room
/// record to write once the referenced id is confirmed to be a leaf room.
#[derive(Debug, PartialEq, Eq)]
pub enum CreateRoomAction {
    Reply(HttpReply),
    CheckRoom { fenix_id: String, body: String },
}

/// Mathematical image of a `CreateRoomAction`.
pub ghost enum CreateRoomActionView {
    Reply(ReplyView),
    CheckRoom { fenix_id: Seq<char>, body: Seq<char> },
}

impl View for CreateRoomAction {
    type V = CreateRoomActionView;

    open spec fn view(&self) -> CreateRoomActionView {
        match self {
            CreateRoomAction::Reply(rep) => CreateRoomActionView::Reply(rep@),
            CreateRoomAction::CheckRoom { fenix_id, body } => CreateRoomActionView::CheckRoom {
                fenix_id: fenix_id@,
                body: body@,
            },
        }
    }
}

/// The body posted to write a room record.
pub open spec fn room_body_text(location: Seq<char>, capacity: Seq<char>, fenix_id: Seq<char>) -> Seq<
    char,
> {
    "{\"location\": \""@ + location + "\", \"capacity\": \""@ + capacity + "\", \"fenix_id\": \""@
        + fenix_id + "\"}"@
}

/// The reply refused to anyone but the administrator.
pub open spec fn unauthorized_body() -> Seq<char> {
    "{ \"error\": \"Unauthorized access to database\"}"@
}

/// The reply when the referenced id is no leaf room.
pub open spec fn no_room_body() -> Seq<char> {
    "{ \"error\" : \"The provided fenix_id does not match a space or room in FenixEDU\"}"@
}

/// What a room-creation request leads to, once the preamble holds:
/// the object must carry `location`, `fenix_id`, `capacity` and `user_id` members, all
/// strings and non-empty; only the administrator (`user_id` of `0`) may
/// write rooms; then the referenced id still has to be confirmed to be a
/// leaf room before the record is posted.
pub open spec fn create_room_spec(content_type_json: bool, b: RequestView) -> CreateRoomActionView {
    match request_preamble_spec(content_type_json, b) {
        Some(rep) => CreateRoomActionView::Reply(rep),
        None => match b {
            RequestView::Object(fields) => match (
                lookup_spec(fields, "location"@),
                lookup_spec(fields, "fenix_id"@),
                lookup_spec(fields, "capacity"@),
                lookup_spec(fields, "user_id"@),
            ) {
                (Some(lf), Some(ff), Some(cf), Some(uf)) => {
                    let location = field_text_spec(lf);
                    let fenix_id = field_text_spec(ff);
                    let capacity = field_text_spec(cf);
                    let user_id = field_text_spec(uf);
                    if user_id.len() == 0 || fenix_id.len() == 0 || location.len() == 0
                        || capacity.len() == 0 {
                        CreateRoomActionView::Reply(
                            ReplyView {
                                status: 400,
                                body: BodyView::Text(
                                    json_error_text("parameters don't have correct type"@),
                                ),
                            },
                        )
                    } else if user_id != "0"@ {
                        CreateRoomActionView::Reply(
                            ReplyView { status: 401, body: BodyView::Text(unauthorized_body()) },
                        )
                    } else {
                        CreateRoomActionView::CheckRoom {
                            fenix_id: fenix_id,
                            body: room_body_text(location, capacity, fenix_id),
                        }
                    }
                },
                _ => CreateRoomActionView::Reply(
                    ReplyView {
                        status: 400,
                        body: BodyView::Text(
                            json_error_text("One of the necessary arguments wasn't provided"@),
                        ),
                    },
                ),
            },
            _ => CreateRoomActionView::Reply(
                ReplyView { status: 500, body: BodyView::Text(Seq::empty()) },
            ),
        },
    }
}

/// Decide a room-creation request, from the request's content type and body
/// as the edge read them.
pub fn create_room_handler(content_type_json: bool, body: &RequestBody) -> (r: CreateRoomAction)
    ensures
        r@ == create_room_spec(content_type_json, body@),
{
    if let Some(rep) = request_preamble(content_type_json, body) {
        return CreateRoomAction::Reply(rep);
    }
    match body {
        RequestBody::Object(fields) => {
            let location_field = lookup_field(fields, "location");
            let fenix_field = lookup_field(fields, "fenix_id");
            let capacity_field = lookup_field(fields, "capacity");
            let user_field = lookup_field(fields, "user_id");
            match (location_field, fenix_field, capacity_field, user_field) {
                (Some(lf), Some(ff), Some(cf), Some(uf)) => {
                    let location = field_text(lf);
                    let fenix_id = field_text(ff);
                    let capacity = field_text(cf);
                    let user_id = field_text(uf);
                    if user_id.as_str().is_empty() || fenix_id.as_str().is_empty()
                        || location.as_str().is_empty() || capacity.as_str().is_empty() {
                        CreateRoomAction::Reply(
                            HttpReply {
                                status: 400,
                                body: ReplyBody::Text(
                                    json_error("parameters don't have correct type"),
                                ),
                            },
                        )
                    } else if !(user_id == "0".to_owned()) {
                        CreateRoomAction::Reply(
                            HttpReply {
                                status: 401,
                                body: ReplyBody::Text(
                                    "{ \"error\": \"Unauthorized access to database\"}".to_owned(),
                                ),
                            },
                        )
                    } else {
                        let record = concat5(
                            "{\"location\": \"",
                            location.as_str(),
                            "\", \"capacity\": \"",
                            capacity.as_str(),
                            "\", \"fenix_id\": \"",
                        );
                        let record = concat3(record.as_str(), fenix_id.as_str(), "\"}");
                        CreateRoomAction::CheckRoom { fenix_id, body: record }
                    }
                },
                _ => CreateRoomAction::Reply(
                    HttpReply {
                        status: 400,
                        body: ReplyBody::Text(
                            json_error("One of the necessary arguments wasn't provided"),
                        ),
                    },
                ),
            }
        },
        _ => CreateRoomAction::Reply(
            HttpReply { status: 500, body: ReplyBody::Text(String::new()) },
        ),
    }
}

/// The image of a room-existence verdict.
pub open spec fn check_verdict_view(check: Result<bool, String>) -> Result<bool, Seq<char>> {
    match check {
        Ok(b) => Ok(b),
        Err(e) => Err(e@),
    }
}

/// What the room-creation flow does once the referenced id was checked: a
/// failed check is surfaced; an id that is no leaf room refuses the record;
/// a confirmed room sends the record on.
pub open spec fn create_room_continue_spec(
    check: Result<bool, Seq<char>>,
    record: Seq<char>,
) -> HandlerActionView {
    match check {
        Err(e) => HandlerActionView::Reply(
            ReplyView { status: 500, body: BodyView::Text(json_error_text(e)) },
        ),
        Ok(false) => HandlerActionView::Reply(
            ReplyView { status: 404, body: BodyView::Text(no_room_body()) },
        ),
        Ok(true) => HandlerActionView::Send(record),
    }
}

/// Continue a room-creation request with the room-existence verdict for its
/// `fenix_id`.
pub fn create_room_continue(check: Result<bool, String>, record: String) -> (r: HandlerAction)
    ensures
        r@ == create_room_continue_spec(check_verdict_view(check), record@),
{
    match check {
        Err(e) => HandlerAction::Reply(
            HttpReply { status: 500, body: ReplyBody::Text(json_error(e.as_str())) },
        ),
        Ok(false) => HandlerAction::Reply(
            HttpReply {
                status: 404,
                body: ReplyBody::Text(
                    "{ \"error\" : \"The provided fenix_id does not match a space or room in FenixEDU\"}".to_owned(),
                ),
            },
        ),
        Ok(true) => HandlerAction::Send(record),
    }
}

/// Whether the request declared its body as JSON: exactly the content type
/// `application/json`.
pub fn is_content_type_json(content_type: Option<&String>) -> (r: bool)
    ensures
        r == (content_type matches Some(s) && s@ == "application/json"@),
{
    match content_type {
        Some(s) => {
            let expected = "application/json".to_owned();
            *s == expected
        },
        None => false,
    }
}

} // verus!

