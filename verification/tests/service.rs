use items_service::handlers::{
    create_item, delete_item, delete_reply, find_reply, get_item, get_items, health, list_reply,
    reread_reply, root, update_item, FindOutcome,
};
use items_service::item::{ApiResponse, CreateItemRequest, Item, UpdateItemRequest};
use items_service::object_id::parse_object_id;
use items_service::store::Store;
use items_service::time::format_rfc3339;

fn widget_payload() -> CreateItemRequest {
    CreateItemRequest {
        name: "Widget".to_string(),
        description: Some("a widget".to_string()),
        price_bits: Some(9.99f64.to_bits()),
    }
}

#[test]
fn test_get_item_invalid_id() {
    let fake_id = "invalid-id".to_string();
    assert!(mongodb::bson::oid::ObjectId::parse_str(&fake_id).is_err());
    assert!(parse_object_id(&fake_id).is_none());
    let store = Store::new();
    assert!(matches!(get_item(&store, &fake_id), Err(400)));
}

#[test]
fn parse_accepts_what_the_driver_accepts() {
    let s = "507f191e810c19729de860ea";
    let id = parse_object_id(s).unwrap();
    assert_eq!(id.to_hex(), s);
    let oid = mongodb::bson::oid::ObjectId::parse_str(s).unwrap();
    assert_eq!(oid.to_hex(), s);

    let upper = "507F191E810C19729DE860EA";
    assert_eq!(parse_object_id(upper).unwrap().to_hex(), s);
    assert_eq!(mongodb::bson::oid::ObjectId::parse_str(upper).unwrap().to_hex(), s);

    for bad in ["", "507f191e810c19729de860e", "507f191e810c19729de860eaa", "507f191e810c19729de860eg"] {
        assert!(parse_object_id(bad).is_none(), "{bad}");
        assert!(mongodb::bson::oid::ObjectId::parse_str(bad).is_err(), "{bad}");
    }
}

#[test]
fn rfc3339_rendering_matches_the_calendar() {
    assert_eq!(format_rfc3339(0), "1970-01-01T00:00:00+00:00");
    assert_eq!(format_rfc3339(1_500), "1970-01-01T00:00:01.500+00:00");
    assert_eq!(format_rfc3339(1_000_000_000_000), "2001-09-09T01:46:40+00:00");
}

#[test]
fn create_then_fetch_returns_the_same_fields() {
    let mut store = Store::new();
    let env = create_item(&mut store, widget_payload(), 1_000).unwrap();
    assert_eq!(env.code, 200);
    assert_eq!(env.message, "success");
    let created = env.data.unwrap();
    assert_eq!(created.id.len(), 24);
    assert!(created.id.chars().all(|c| c.is_ascii_hexdigit()));
    assert_eq!(created.created_at, created.updated_at);

    let fetched = get_item(&store, &created.id).unwrap().data.unwrap();
    assert_eq!(fetched.name, "Widget");
    assert_eq!(fetched.description, Some("a widget".to_string()));
    assert_eq!(fetched.price_bits, Some(9.99f64.to_bits()));
    assert_eq!(fetched.created_at, fetched.updated_at);
    assert_eq!(fetched.id, created.id);
}

#[test]
fn malformed_identifiers_are_rejected_without_touching_storage() {
    let mut store = Store::new();
    create_item(&mut store, widget_payload(), 1_000).unwrap();
    for bad in ["invalid-id", "", "zzzzzzzzzzzzzzzzzzzzzzzz", "123"] {
        assert!(matches!(get_item(&store, bad), Err(400)), "{bad}");
        let up = UpdateItemRequest { name: None, description: None, price_bits: None };
        assert!(matches!(update_item(&mut store, bad, up, 2_000), Err(400)), "{bad}");
        assert!(matches!(delete_item(&mut store, bad), Err(400)), "{bad}");
    }
    let listed = get_items(&store).unwrap().data.unwrap();
    assert_eq!(listed.len(), 1);
    assert_eq!(listed[0].updated_at, format_rfc3339(1_000));
}

#[test]
fn well_formed_unknown_identifiers_answer_not_found() {
    let mut store = Store::new();
    for missing in ["00000000000000000000ffff", "ffffffffffffffffffffffff"] {
        assert!(matches!(get_item(&store, missing), Err(404)), "{missing}");
        let up = UpdateItemRequest { name: None, description: None, price_bits: None };
        assert!(matches!(update_item(&mut store, missing, up, 2_000), Err(404)), "{missing}");
        assert!(matches!(delete_item(&mut store, missing), Err(404)), "{missing}");
    }
}

#[test]
fn update_with_only_a_price_keeps_the_rest() {
    let mut store = Store::new();
    let created = create_item(&mut store, widget_payload(), 1_000).unwrap().data.unwrap();
    let up = UpdateItemRequest {
        name: None,
        description: None,
        price_bits: Some(19.99f64.to_bits()),
    };
    let updated = update_item(&mut store, &created.id, up, 2_000).unwrap().data.unwrap();
    assert_eq!(updated.name, "Widget");
    assert_eq!(updated.description, Some("a widget".to_string()));
    assert_eq!(updated.price_bits, Some(19.99f64.to_bits()));
    assert_eq!(updated.created_at, created.created_at);
    assert_eq!(updated.updated_at, format_rfc3339(2_000));
    assert_ne!(updated.updated_at, created.updated_at);
}

#[test]
fn deleting_twice_finds_nothing_the_second_time() {
    let mut store = Store::new();
    let created = create_item(&mut store, widget_payload(), 1_000).unwrap().data.unwrap();
    let first = delete_item(&mut store, &created.id).unwrap();
    assert_eq!(first.code, 200);
    assert_eq!(first.data, Some(()));
    assert!(matches!(delete_item(&mut store, &created.id), Err(404)));
}

#[test]
fn listing_an_empty_collection_is_a_success_with_an_empty_array() {
    let store = Store::new();
    let env = get_items(&store).unwrap();
    assert_eq!(env.code, 200);
    assert_eq!(env.message, "success");
    assert_eq!(env.data.unwrap().len(), 0);
}

#[test]
fn test_items_crud_flow() {
    let mut store = Store::new();

    let payload = CreateItemRequest {
        name: "Widget".to_string(),
        description: None,
        price_bits: Some(9.99f64.to_bits()),
    };
    let created = create_item(&mut store, payload, 1_000).unwrap();
    assert_eq!(created.code, 200);
    let created = created.data.unwrap();
    assert_eq!(created.id.len(), 24);
    assert!(created.id.chars().all(|c| c.is_ascii_hexdigit()));
    assert_eq!(created.name, "Widget");
    assert_eq!(created.price_bits, Some(9.99f64.to_bits()));
    assert_eq!(created.created_at, created.updated_at);

    let up = UpdateItemRequest {
        name: None,
        description: None,
        price_bits: Some(19.99f64.to_bits()),
    };
    let updated = update_item(&mut store, &created.id, up, 2_000).unwrap().data.unwrap();
    assert_eq!(updated.name, "Widget");
    assert_eq!(updated.price_bits, Some(19.99f64.to_bits()));
    assert!(updated.updated_at > created.updated_at);

    let deleted = delete_item(&mut store, &created.id).unwrap();
    assert_eq!(deleted.code, 200);
    assert_eq!(deleted.data, Some(()));

    assert!(matches!(get_item(&store, &created.id), Err(404)));
}

#[test]
fn an_item_without_identifier_or_timestamps_projects_to_empty_strings() {
    let item = Item {
        id: None,
        name: "bare".to_string(),
        description: None,
        price_bits: None,
        created_at: None,
        updated_at: None,
    };
    let resp = match find_reply(FindOutcome::Found(item)) {
        Ok(env) => env.data.unwrap(),
        Err(code) => panic!("unexpected status {code}"),
    };
    assert_eq!(resp.id, "");
    assert_eq!(resp.name, "bare");
    assert_eq!(resp.description, None);
    assert_eq!(resp.price_bits, None);
    assert_eq!(resp.created_at, "");
    assert_eq!(resp.updated_at, "");
}

#[test]
fn outcome_mappings_answer_the_documented_statuses() {
    assert!(matches!(find_reply(FindOutcome::Missing), Err(404)));
    assert!(matches!(find_reply(FindOutcome::Failed), Err(500)));
    assert!(matches!(reread_reply(FindOutcome::Missing), Err(500)));
    assert!(matches!(reread_reply(FindOutcome::Failed), Err(500)));
    assert!(matches!(delete_reply(0), Err(404)));
    assert!(delete_reply(1).unwrap().data == Some(()));
    assert!(matches!(
        list_reply(None),
        Err(500)
    ));
    let item = Item {
        id: None,
        name: "one".to_string(),
        description: None,
        price_bits: None,
        created_at: Some(0),
        updated_at: Some(0),
    };
    let listed = list_reply(Some(vec![item])).unwrap().data.unwrap();
    assert_eq!(listed.len(), 1);
    assert_eq!(listed[0].name, "one");
    assert_eq!(listed[0].created_at, "1970-01-01T00:00:00+00:00");
}

#[test]
fn static_envelopes() {
    let r = root();
    assert_eq!(r.code, 200);
    assert_eq!(r.message, "Financial Kanban - Rust Service");
    assert_eq!(r.data, Some("0.1.0".to_string()));

    let h = health();
    assert_eq!(h.code, 200);
    assert_eq!(h.message, "healthy");
    assert_eq!(h.data, Some("ok".to_string()));
}

#[test]
fn envelope_constructors() {
    let ok = ApiResponse::success(7u32);
    assert_eq!(ok.code, 200);
    assert_eq!(ok.message, "success");
    assert_eq!(ok.data, Some(7));

    let err: ApiResponse<u32> = ApiResponse::error("storage failure".to_string(), 500);
    assert_eq!(err.code, 500);
    assert_eq!(err.message, "storage failure");
    assert_eq!(err.data, None);
}
