use circles::aggregate::circle::Circle;
use circles::aggregate::value_object::circle_id::CircleId;
use circles::aggregate::value_object::version::Version;
use circles::api::handler::{
    create_circle_status, fetch_all, fetch_one, update_circle_status, CreateCircleRequestBody,
    FetcheCircleResponseBody, UpdateCircleRequestBody, BAD_REQUEST, CONFLICT,
    INTERNAL_SERVER_ERROR, OK,
};
use circles::command::find_circle;
use circles::command::{create_circle, update_circle};
use circles::infrastructure::cdc::{cache_update, CircleSnapshot, DebeziumPayload};
use circles::infrastructure::circle_duplicate_checker;
use circles::infrastructure::circle_duplicate_checker::check_circle_duplicate;
use circles::infrastructure::circle_reader;
use circles::infrastructure::circle_repository::Error;
use circles::infrastructure::maria_db_schema;
use circles::infrastructure::maria_db_schema::circle_protection_data::CircleProtectionData;
use circles::infrastructure::event_publisher::{
    rebuild_circle_from_events, save_circle_to_redis, CacheCommand,
};
use circles::infrastructure::maria_db_schema::circle_snapshot_data::restore_from_snapshot;
use circles::infrastructure::redis_circle_reader;
use circles::infrastructure::redis_circle_reader::{
    cache_key, circle_key, circles_list_key, list_circles, listed_circle_ids,
};
use circles::query::{get_circle, list_circles as list_query};

const ID_A: &str = "aaaaaaaaaaaaaaaaaaaaaaaaaaaaaaaaaaaa";
const ID_B: &str = "bbbbbbbbbbbbbbbbbbbbbbbbbbbbbbbbbbbb";

fn circle(id: &str, name: &str, capacity: i16, version: u32) -> Circle {
    restore_from_snapshot(id.parse().unwrap(), name.to_string(), capacity, Version::from(version))
}

#[test]
fn keys_of_the_read_cache() {
    let id: CircleId = ID_A.parse().unwrap();
    assert_eq!(circle_key(&id), format!("circle:{}", ID_A));
    assert_eq!(cache_key("x"), "circle:x");
    assert_eq!(cache_key(""), "circle:");
    assert_eq!(circles_list_key(), "circles:list");
    assert_ne!(circle_key(&id), circle_key(&ID_B.parse().unwrap()));
}

#[test]
fn projection_sets_the_state_then_lists_the_circle() {
    let commands = save_circle_to_redis(&circle(ID_A, "Music club", 10, 3), "{json}".to_string());
    assert_eq!(
        commands,
        vec![
            CacheCommand::Put { key: format!("circle:{}", ID_A), value: "{json}".to_string() },
            CacheCommand::AddToSet { key: "circles:list".to_string(), member: ID_A.to_string() },
        ]
    );
}

#[test]
fn projection_finds_nothing_without_events() {
    assert_eq!(rebuild_circle_from_events(vec![]).unwrap_err(), Error::NotFound);
}

#[test]
fn change_event_with_an_after_image_updates_the_cache() {
    let payload = DebeziumPayload {
        before: None,
        after: Some(CircleSnapshot {
            circle_id: ID_A.to_string(),
            state: "{\"id\":\"a\"}".to_string(),
        }),
        op: "c".to_string(),
    };
    assert_eq!(
        cache_update(payload),
        Some(CacheCommand::Put {
            key: format!("circle:{}", ID_A),
            value: "{\"id\":\"a\"}".to_string(),
        })
    );
}

#[test]
fn change_event_without_an_after_image_is_ignored() {
    let payload = DebeziumPayload {
        before: Some(CircleSnapshot { circle_id: ID_A.to_string(), state: "{}".to_string() }),
        after: None,
        op: "d".to_string(),
    };
    assert_eq!(cache_update(payload), None);
}

#[test]
fn listing_fails_on_a_member_that_is_no_identifier() {
    let members = vec![ID_A.to_string(), "oops".to_string(), ID_B.to_string()];
    assert_eq!(
        listed_circle_ids(&members).unwrap_err(),
        redis_circle_reader::Error::InvalidCircleId
    );
    let members = vec![ID_B.to_string(), ID_A.to_string()];
    let ids = listed_circle_ids(&members).unwrap();
    assert_eq!(ids.len(), 2);
    assert_eq!(ids[0].to_string(), ID_B);
    assert_eq!(ids[1].to_string(), ID_A);
    assert!(listed_circle_ids(&vec![]).unwrap().is_empty());
}

#[test]
fn listing_leaves_out_what_the_cache_does_not_hold() {
    let a = circle(ID_A, "A", 3, 1);
    let b = circle(ID_B, "B", 4, 2);
    let found = list_circles(vec![None, Some(a.clone()), None, Some(b.clone()), None]);
    assert_eq!(found, vec![a, b]);
    assert!(list_circles(vec![None, None]).is_empty());
    assert!(list_circles(vec![]).is_empty());
}

#[test]
fn duplicate_check_ignores_the_circle_itself() {
    let own = circle(ID_A, "Music club", 10, 1);
    assert_eq!(check_circle_duplicate(&own, &vec![]), Ok(()));
    assert_eq!(check_circle_duplicate(&own, &vec![ID_A.to_string()]), Ok(()));
    assert_eq!(
        check_circle_duplicate(&own, &vec![ID_B.to_string()]),
        Err(circle_duplicate_checker::Error::Duplicate)
    );
    assert_eq!(
        check_circle_duplicate(&own, &vec![ID_A.to_string(), ID_B.to_string()]),
        Err(circle_duplicate_checker::Error::Duplicate)
    );
}

#[test]
fn query_for_one_circle_wants_an_identifier() {
    let id = get_circle::handle(get_circle::Input { circle_id: ID_A.to_string() }).unwrap();
    assert_eq!(id.to_string(), ID_A);
    assert_eq!(
        get_circle::handle(get_circle::Input { circle_id: "0".to_string() }).unwrap_err(),
        get_circle::Error::InvalidCircleId
    );
}

#[test]
fn fetch_of_one_circle_is_a_list_of_one() {
    let bodies = fetch_one(get_circle::Output(Some(circle(ID_A, "Music club", 10, 4))));
    assert_eq!(bodies.len(), 1);
    assert_eq!(bodies[0].circle_id, ID_A);
    assert_eq!(bodies[0].circle_name, "Music club");
    assert_eq!(bodies[0].capacity, 10);
}

#[test]
fn fetch_of_a_missing_circle_is_an_empty_body() {
    let bodies = fetch_one(get_circle::Output(None));
    assert_eq!(bodies.len(), 1);
    assert_eq!(bodies[0].circle_id, "");
    assert_eq!(bodies[0].circle_name, "");
    assert_eq!(bodies[0].capacity, 0);
    let body = FetcheCircleResponseBody::from(get_circle::Output(None));
    assert_eq!(body.capacity, 0);
}

#[test]
fn fetch_of_all_circles_keeps_the_order() {
    let bodies = fetch_all(list_query::Output(vec![
        circle(ID_B, "B", 4, 2),
        circle(ID_A, "A", 3, 1),
    ]));
    assert_eq!(bodies.len(), 2);
    assert_eq!((bodies[0].circle_id.as_str(), bodies[0].capacity), (ID_B, 4));
    assert_eq!((bodies[1].circle_id.as_str(), bodies[1].capacity), (ID_A, 3));
    assert!(fetch_all(list_query::Output(vec![])).is_empty());
}

#[test]
fn statuses_of_a_creation() {
    assert_eq!((OK, BAD_REQUEST, CONFLICT, INTERNAL_SERVER_ERROR), (200, 400, 409, 500));
    let ok = Ok(create_circle::Output { circle_id: ID_A.to_string() });
    assert_eq!(create_circle_status(&ok), 200);
    assert_eq!(create_circle_status(&Err(create_circle::Error::InvalidInput)), 400);
    assert_eq!(create_circle_status(&Err(create_circle::Error::Duplicate)), 409);
    assert_eq!(create_circle_status(&Err(create_circle::Error::Circle)), 500);
}

#[test]
fn statuses_of_an_update() {
    let ok = Ok(update_circle::Output { circle_id: ID_A.to_string() });
    assert_eq!(update_circle_status(&ok), 200);
    assert_eq!(update_circle_status(&Err(update_circle::Error::InvalidInput)), 400);
    assert_eq!(update_circle_status(&Err(update_circle::Error::Duplicate)), 400);
    assert_eq!(update_circle_status(&Err(update_circle::Error::VersionMismatch)), 409);
    assert_eq!(update_circle_status(&Err(update_circle::Error::Circle)), 500);
}

#[test]
fn request_bodies_become_inputs() {
    let input: create_circle::Input =
        CreateCircleRequestBody { circle_name: "Music club".to_string(), capacity: 10 }.into();
    assert_eq!(input.circle_name, "Music club");
    assert_eq!(input.capacity, 10);
    let input = UpdateCircleRequestBody {
        circle_name: Some("Football club".to_string()),
        capacity: Some(20),
        version: 1,
    }
    .into_to_input(ID_A.to_string());
    assert_eq!(input.circle_id, ID_A);
    assert_eq!(input.circle_name.as_deref(), Some("Football club"));
    assert_eq!(input.capacity, Some(20));
    assert_eq!(input.version, 1);
}

#[test]
fn lookup_failure_has_a_message() {
    assert_eq!(String::from(find_circle::Error::CircleNotFound), "circle not found");
}

#[test]
fn projection_rows_are_read_in_order_or_not_at_all() {
    let row = |id: &str, version: i32| CircleProtectionData {
        circle_id: id.to_string(),
        name: format!("n{}", version),
        capacity: 5,
        version,
    };
    let circles = circle_reader::list_circles(vec![row(ID_B, 2), row(ID_A, 1)]).unwrap();
    assert_eq!(circles, vec![circle(ID_B, "n2", 5, 2), circle(ID_A, "n1", 5, 1)]);
    assert!(circle_reader::list_circles(vec![]).unwrap().is_empty());
    assert_eq!(
        circle_reader::list_circles(vec![row(ID_B, 2), row("bad", 1), row(ID_A, -1)]).unwrap_err(),
        maria_db_schema::Error::MalformedId
    );
    assert_eq!(
        circle_reader::list_circles(vec![row(ID_A, -1), row("bad", 1)]).unwrap_err(),
        maria_db_schema::Error::VersionOutOfRange
    );
    assert_eq!(circle_reader::get_circle(row(ID_A, 7)).unwrap(), circle(ID_A, "n7", 5, 7));
    assert_eq!(
        circle_reader::get_circle(row("", 7)).unwrap_err(),
        maria_db_schema::Error::MalformedId
    );
}
