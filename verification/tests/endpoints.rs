//! Tests of the per-endpoint decisions: statuses, bodies, and what is sent
//! on to the persistence backend.
use fenix_rooms::handlers::{
    check_in_handler, check_out_handler, check_out_reply, create_entity, create_room_continue,
    create_room_handler, create_user_handler, id_handler, is_content_type_json, path_handler,
    rooms_handler, spaces_handler, CreateRoomAction, FieldValue, HandlerAction, HttpReply,
    ReplyBody, RequestBody,
};
use fenix_rooms::resolve::{PathResolver, ResolutionResult, ResolveAction};
use fenix_rooms::spaces::{Capacity, ContainedSpace, GenericSpace, ShapedResponse};
use fenix_rooms::upstream::UpstreamResponse;

fn child(id: &str, name: &str) -> ContainedSpace {
    ContainedSpace { id: id.to_string(), name: name.to_string() }
}

fn body(status: u16, text: &str) -> UpstreamResponse {
    UpstreamResponse::Body { status, body: text.to_string() }
}

fn text_reply(status: u16, text: &str) -> HttpReply {
    HttpReply { status, body: ReplyBody::Text(text.to_string()) }
}

fn object(fields: Vec<(&str, FieldValue)>) -> RequestBody {
    RequestBody::Object(fields.into_iter().map(|(k, v)| (k.to_string(), v)).collect())
}

fn text_field(v: &str) -> FieldValue {
    FieldValue::Text(v.to_string())
}

#[test]
fn end_to_end_alameda_walk_is_shaped_to_the_children() {
    let root = vec![child("A", "Alameda")];
    let mut resolver = PathResolver::start(vec!["alameda".to_string()], root);
    match resolver.next_action() {
        ResolveAction::Fetch(id) => {
            assert_eq!(id, "A");
            resolver.record_fetch(&body(
                200,
                "{\"name\": \"Alameda\", \"containedSpaces\": [{\"id\": \"B\", \"name\": \"Pavilh\u{e3}o Central\"}]}",
            ));
        }
        other => panic!("expected a fetch, got {:?}", other),
    }
    let result = match resolver.next_action() {
        ResolveAction::Done(r) => r,
        other => panic!("expected a done walk, got {:?}", other),
    };
    match &result {
        ResolutionResult::Found(node) => {
            assert_eq!(node.contained_spaces, vec![child("B", "Pavilh\u{e3}o Central")]);
        }
        other => panic!("expected a found node, got {:?}", other),
    }
    let reply = path_handler(result);
    assert_eq!(reply.status, 200);
    assert_eq!(
        reply.body,
        ReplyBody::Shaped(ShapedResponse::Children(vec![child("B", "Pavilh\u{e3}o Central")]))
    );
}

#[test]
fn path_replies_map_each_outcome() {
    let room = GenericSpace {
        name: "Sala".to_string(),
        contained_spaces: Vec::new(),
        capacity: Some(Capacity { normal: 8 }),
    };
    let reply = path_handler(ResolutionResult::Found(room));
    assert_eq!(reply.status, 200);
    match reply.body {
        ReplyBody::Shaped(ShapedResponse::Full(node)) => assert_eq!(node.name, "Sala"),
        other => panic!("expected the full room, got {:?}", other),
    }

    assert_eq!(
        path_handler(ResolutionResult::NotFound("leste".to_string())),
        text_reply(404, "{\"error\": \"leste was not found\"}")
    );
    assert_eq!(
        path_handler(ResolutionResult::UpstreamError("Fenix had an error".to_string())),
        text_reply(503, "{\"error\": \"Fenix had an error\"}")
    );
    assert_eq!(
        path_handler(ResolutionResult::MalformedData),
        text_reply(500, "{\"error\": \"malformed upstream data\"}")
    );
}

#[test]
fn id_replies_parse_shape_and_classify() {
    let leaf = "{\"name\": \"Sala\", \"containedSpaces\": [], \"capacity\": {\"normal\": 30}}";
    let reply = id_handler("2448", &body(200, leaf));
    assert_eq!(reply.status, 200);
    match reply.body {
        ReplyBody::Shaped(ShapedResponse::Full(node)) => {
            assert_eq!(node.name, "Sala");
            assert_eq!(node.capacity, Some(Capacity { normal: 30 }));
        }
        other => panic!("expected the full room, got {:?}", other),
    }

    assert_eq!(
        id_handler("2448", &body(404, "")),
        text_reply(404, "{\"error\": \"The id: 2448 was not found\"}")
    );
    assert_eq!(
        id_handler("2448", &body(500, "")),
        text_reply(503, "{\"error\": \"Fenix had an error\"}")
    );
    assert_eq!(
        id_handler("2448", &body(200, "[1, 2]")),
        text_reply(500, "{\"error\": \"malformed upstream data\"}")
    );
    assert_eq!(
        id_handler(
            "2448",
            &UpstreamResponse::ReadFailed { status: 200, error: "cut off".to_string() }
        ),
        text_reply(500, "{\"error\": \"cut off\"}")
    );
    assert_eq!(
        id_handler("2448", &UpstreamResponse::Transport("no route".to_string())),
        text_reply(500, "{\"error\": \"no route\"}")
    );
}

#[test]
fn shaping_ignores_the_upstream_type_tag() {
    // Room-ness is derived from the children alone: a node tagged as a room
    // upstream but carrying children is still shaped as a container, and
    // vice versa.
    let tagged_container = "{\"type\": \"ROOM\", \"name\": \"Sala\", \"containedSpaces\": [{\"id\": \"1\", \"name\": \"Norte\"}]}";
    let reply = id_handler("9", &body(200, tagged_container));
    assert_eq!(
        reply.body,
        ReplyBody::Shaped(ShapedResponse::Children(vec![child("1", "Norte")]))
    );

    let tagged_leaf = "{\"type\": \"CAMPUS\", \"name\": \"Sala\", \"containedSpaces\": []}";
    let reply = id_handler("9", &body(200, tagged_leaf));
    match reply.body {
        ReplyBody::Shaped(ShapedResponse::Full(node)) => {
            assert_eq!(node.name, "Sala");
            assert_eq!(node.capacity, None);
        }
        other => panic!("expected the full node, got {:?}", other),
    }
}

#[test]
fn node_without_children_member_is_malformed() {
    let reply = id_handler("9", &body(200, "{\"name\": \"Sala\"}"));
    assert_eq!(reply, text_reply(500, "{\"error\": \"malformed upstream data\"}"));
    let reply = id_handler("9", &body(200, "{\"containedSpaces\": []}"));
    assert_eq!(reply, text_reply(500, "{\"error\": \"malformed upstream data\"}"));
}

#[test]
fn spaces_reply_passes_the_listing_through_unshaped() {
    let listing = "[{\"id\": \"A\", \"name\": \"Alameda\"}, {\"id\": \"T\", \"name\": \"Taguspark\"}]";
    let reply = spaces_handler(&body(200, listing));
    assert_eq!(reply.status, 200);
    assert_eq!(
        reply.body,
        ReplyBody::Shaped(ShapedResponse::Children(vec![
            child("A", "Alameda"),
            child("T", "Taguspark"),
        ]))
    );

    assert_eq!(
        spaces_handler(&body(200, "{\"name\": 3}")),
        text_reply(500, "{\"error\": \"malformed upstream data\"}")
    );
    assert_eq!(
        spaces_handler(&body(404, "")),
        text_reply(404, "{\"error\": \"The id:  was not found\"}")
    );
}

#[test]
fn rooms_reply_passes_success_through_and_hides_backend_failures() {
    assert_eq!(
        rooms_handler(&body(200, "[{\"location\": \"sala-1\"}]")),
        text_reply(200, "[{\"location\": \"sala-1\"}]")
    );
    assert_eq!(
        rooms_handler(&body(500, "oops")),
        text_reply(503, "{\"error\": \"There is an error in the database\"}")
    );
    assert_eq!(
        rooms_handler(&UpstreamResponse::Transport("refused".to_string())),
        text_reply(500, "{\"error\": \"refused\"}")
    );
}

#[test]
fn create_entity_reply_follows_the_backend_status() {
    assert_eq!(create_entity(&body(200, "made")), text_reply(200, "made"));
    assert_eq!(create_entity(&body(201, "made")), text_reply(200, "made"));
    assert_eq!(create_entity(&body(422, "taken")), text_reply(422, "taken"));
    assert_eq!(create_entity(&body(404, "who")), text_reply(404, "who"));
    assert_eq!(create_entity(&body(400, "bad")), text_reply(400, "bad"));
    assert_eq!(
        create_entity(&body(418, "tea")),
        text_reply(503, "{\"error\": \"There is an error in the database\"}")
    );
    assert_eq!(
        create_entity(&UpstreamResponse::ReadFailed { status: 200, error: "gone".to_string() }),
        text_reply(500, "{\"error\": \"gone\"}")
    );
    assert_eq!(
        create_entity(&UpstreamResponse::Transport("refused".to_string())),
        text_reply(500, "{\"error\": \"refused\"}")
    );
}

#[test]
fn check_out_reply_is_idempotent_friendly() {
    assert_eq!(check_out_reply(&body(204, "")), text_reply(200, ""));
    assert_eq!(check_out_reply(&body(200, "bye")), text_reply(200, ""));
    assert_eq!(check_out_reply(&body(404, "no such")), text_reply(404, "no such"));
    assert_eq!(
        check_out_reply(&body(500, "")),
        text_reply(503, "{\"error\": \"There is an error in the database\"}")
    );
    assert_eq!(
        check_out_reply(&UpstreamResponse::Transport("refused".to_string())),
        text_reply(500, "{\"error\": \"refused\"}")
    );
}

#[test]
fn create_user_validates_and_posts_the_username() {
    let good = object(vec![("username", text_field("bob"))]);
    assert_eq!(
        create_user_handler(true, &good),
        HandlerAction::Send("{\"username\": \"bob\"}".to_string())
    );

    assert_eq!(
        create_user_handler(false, &good),
        HandlerAction::Reply(text_reply(415, "{\"error\": \"Wrong content-type used\"}"))
    );
    assert_eq!(
        create_user_handler(true, &RequestBody::Unparseable),
        HandlerAction::Reply(text_reply(500, "{\"error\": \"Failed to parse JSON\"}"))
    );
    assert_eq!(
        create_user_handler(true, &RequestBody::NotAnObject),
        HandlerAction::Reply(text_reply(400, "{\"error\": \"JSON isn't an object\"}"))
    );
    assert_eq!(
        create_user_handler(true, &object(vec![("name", text_field("bob"))])),
        HandlerAction::Reply(text_reply(400, "{\"error\": \"username wasn't provided\"}"))
    );
    assert_eq!(
        create_user_handler(true, &object(vec![("username", FieldValue::NotAString)])),
        HandlerAction::Reply(
            text_reply(400, "{\"error\": \"username doesn't have correct type\"}")
        )
    );
}

#[test]
fn check_in_validates_and_posts_the_pair() {
    let good = object(vec![("user_id", text_field("7")), ("room_id", text_field("3"))]);
    assert_eq!(
        check_in_handler(true, &good),
        HandlerAction::Send("{\"user_id\": \"7\", \"room_id\": \"3\"}".to_string())
    );

    assert_eq!(
        check_in_handler(true, &object(vec![("user_id", text_field("7"))])),
        HandlerAction::Reply(
            text_reply(400, "{\"error\": \"One of the necessary arguments wasn't provided\"}")
        )
    );
    assert_eq!(
        check_in_handler(
            true,
            &object(vec![("user_id", FieldValue::NotAString), ("room_id", text_field("3"))])
        ),
        HandlerAction::Reply(text_reply(400, "{\"error\": \"parameters don't have correct type\"}"))
    );
}

#[test]
fn check_out_validates_like_check_in() {
    let good = object(vec![("user_id", text_field("7")), ("room_id", text_field("3"))]);
    assert_eq!(
        check_out_handler(true, &good),
        HandlerAction::Send("{\"user_id\": \"7\", \"room_id\": \"3\"}".to_string())
    );
    assert_eq!(
        check_out_handler(
            true,
            &object(vec![("user_id", text_field("")), ("room_id", text_field("3"))])
        ),
        HandlerAction::Reply(text_reply(400, "{\"error\": \"parameters don't have correct type\"}"))
    );
    assert_eq!(
        check_out_handler(false, &good),
        HandlerAction::Reply(text_reply(415, "{\"error\": \"Wrong content-type used\"}"))
    );
}

fn full_room_request(user_id: &str) -> RequestBody {
    object(vec![
        ("location", text_field("north tower")),
        ("fenix_id", text_field("2448")),
        ("capacity", text_field("30")),
        ("user_id", text_field(user_id)),
    ])
}

#[test]
fn create_room_gates_on_admin_and_asks_for_the_room_check() {
    match create_room_handler(true, &full_room_request("0")) {
        CreateRoomAction::CheckRoom { fenix_id, body } => {
            assert_eq!(fenix_id, "2448");
            assert_eq!(
                body,
                "{\"location\": \"north tower\", \"capacity\": \"30\", \"fenix_id\": \"2448\"}"
            );
        }
        other => panic!("expected a room check, got {:?}", other),
    }

    assert_eq!(
        create_room_handler(true, &full_room_request("7")),
        CreateRoomAction::Reply(
            text_reply(401, "{ \"error\": \"Unauthorized access to database\"}")
        )
    );
    assert_eq!(
        create_room_handler(
            true,
            &object(vec![("location", text_field("x")), ("fenix_id", text_field("y"))])
        ),
        CreateRoomAction::Reply(
            text_reply(400, "{\"error\": \"One of the necessary arguments wasn't provided\"}")
        )
    );
    assert_eq!(
        create_room_handler(true, &{
            let mut fields = full_room_request("0");
            if let RequestBody::Object(ref mut v) = fields {
                v[0].1 = FieldValue::NotAString;
            }
            fields
        }),
        CreateRoomAction::Reply(text_reply(400, "{\"error\": \"parameters don't have correct type\"}"))
    );
}

#[test]
fn create_room_continues_with_the_room_verdict() {
    let record = "{\"location\": \"x\", \"capacity\": \"1\", \"fenix_id\": \"9\"}".to_string();
    assert_eq!(
        create_room_continue(Ok(true), record.clone()),
        HandlerAction::Send(record.clone())
    );
    assert_eq!(
        create_room_continue(Ok(false), record.clone()),
        HandlerAction::Reply(text_reply(
            404,
            "{ \"error\" : \"The provided fenix_id does not match a space or room in FenixEDU\"}"
        ))
    );
    assert_eq!(
        create_room_continue(Err("down".to_string()), record),
        HandlerAction::Reply(text_reply(500, "{\"error\": \"down\"}"))
    );
}

#[test]
fn content_type_must_say_json() {
    assert!(is_content_type_json(Some(&"application/json".to_string())));
    assert!(!is_content_type_json(Some(&"text/html".to_string())));
    assert!(!is_content_type_json(None));
}
