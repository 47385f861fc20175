use hearthglow::configuration::{Configuration, DatabaseConfig, Family};
use hearthglow::entity::{ParentChildLink, Person, StoreError};
use hearthglow::helpers::{add_parent_child, children_of, create_star_chart, parents_of};
use hearthglow::store::SQLConnector;
use hearthglow::types::{
    CreateCalendarEventRequest, CreatePersonRequest, CreateStarChartRequest, UpdateStarChartRequest,
};

fn person(first: &str, last: &str) -> CreatePersonRequest {
    CreatePersonRequest { first_name: first.into(), last_name: last.into() }
}

fn chart(name: &str, description: &str, person_id: i32, star_count: i32, star_total: i32) -> CreateStarChartRequest {
    CreateStarChartRequest {
        name: name.into(),
        description: description.into(),
        person_id,
        star_count,
        star_total,
    }
}

fn member(first: &str, last: &str, children: &[&str]) -> Family {
    Family {
        first_name: first.into(),
        last_name: last.into(),
        age: 30,
        children: children.iter().map(|c| c.to_string()).collect(),
    }
}

fn config(family: Vec<Family>) -> Configuration {
    Configuration { database: DatabaseConfig { path: "data".into() }, family }
}

#[test]
fn test_person_crud_dbconnector() {
    let mut conn = SQLConnector::new("data");

    let req = CreatePersonRequest { first_name: "Jane".into(), last_name: "Doe".into() };
    let resp = conn.create_person(&req).unwrap();
    assert!(resp.id > 0);

    let p = conn.get_person("Jane");
    assert!(p.is_some());
    let p = p.unwrap();
    assert_eq!(p.first_name, "Jane");
    assert_eq!(p.last_name, "Doe");

    let list = conn.get_people();
    assert!(list.iter().any(|s| s.contains("Jane Doe")));
}

#[test]
fn test_star_chart_crud_dbconnector() {
    let mut conn = SQLConnector::new("data");

    let person_req = CreatePersonRequest { first_name: "StarOwner".into(), last_name: "One".into() };
    let person_resp = conn.create_person(&person_req).unwrap();

    let create_req = CreateStarChartRequest {
        name: "natal".into(),
        description: "initial".into(),
        person_id: person_resp.id,
        star_count: 3,
        star_total: 10,
    };
    let created = conn.create_star_chart(&create_req).unwrap();
    assert!(created.id > 0);

    let charts = conn.get_star_charts();
    assert!(charts.iter().any(|c| c.id == created.id));

    let single = conn.get_star_chart(created.id);
    assert!(single.is_some());
    let single = single.unwrap();
    assert_eq!(single.id, created.id);
    assert_eq!(single.name, "natal");

    let update_req = UpdateStarChartRequest {
        name: "natal_updated".into(),
        description: "updated-description".into(),
        star_count: None,
        star_total: None,
    };
    let updated = conn.update_star_chart(created.id, &update_req).unwrap();
    assert_eq!(updated.id, created.id);

    let single2 = conn.get_star_chart(created.id).unwrap();
    assert_eq!(single2.name, "natal_updated");
    assert_eq!(single2.description, "updated-description");
}

#[test]
fn test_parent_child_dbconnector() {
    let mut conn = SQLConnector::new("data");

    let parent_req = CreatePersonRequest { first_name: "Parent".into(), last_name: "One".into() };
    let parent_resp = conn.create_person(&parent_req).unwrap();
    let child_req = CreatePersonRequest { first_name: "Child".into(), last_name: "Two".into() };
    let child_resp = conn.create_person(&child_req).unwrap();

    add_parent_child(&mut conn, parent_resp.id, child_resp.id).expect("add parent-child link");

    let links = conn.links();
    assert!(links.iter().any(|l| l.parent_id == parent_resp.id && l.child_id == child_resp.id));

    let kids_direct = children_of(&conn, parent_resp.id);
    assert!(kids_direct.iter().any(|k| k.id == child_resp.id));
    assert!(!kids_direct.is_empty(), "direct children query returned empty");

    let parent = conn.get_person("Parent").unwrap();
    assert!(
        parent.children.iter().any(|c| c.first_name == "Child" && c.last_name == "Two"),
        "children: {:?}",
        parent.children
    );
}

#[test]
fn test_star_chart_tracking_dbconnector() {
    let mut conn = SQLConnector::new("data");

    let person_req = CreatePersonRequest { first_name: "Bob".into(), last_name: "Builder".into() };
    let person_resp = conn.create_person(&person_req).unwrap();

    let create_req = CreateStarChartRequest {
        name: "cleaning".into(),
        description: "weekly chores".into(),
        person_id: person_resp.id,
        star_count: 3,
        star_total: 10,
    };
    let created = conn.create_star_chart(&create_req).unwrap();
    assert!(created.id > 0);

    let update_req = UpdateStarChartRequest {
        name: "cleaning".into(),
        description: "weekly chores".into(),
        star_count: Some(5),
        star_total: None,
    };
    let updated = conn.update_star_chart(created.id, &update_req).expect("update chart");

    let c = conn.get_star_chart(updated.id);
    assert!(c.is_some());
    let c = c.unwrap();
    assert_eq!(c.name, "cleaning");
    assert_eq!(c.star_count, 5);
    assert_eq!(c.star_total, 10);
    assert_eq!(c.person_first_name, "Bob");
}

#[test]
fn create_then_get_person_has_no_children_or_charts() {
    let mut conn = SQLConnector::new("data");
    conn.create_person(&person("Ann", "Lee")).unwrap();
    let p = conn.get_person("Ann").unwrap();
    assert_eq!(p.first_name, "Ann");
    assert_eq!(p.last_name, "Lee");
    assert!(p.children.is_empty());
    assert!(p.star_charts.is_empty());
}

#[test]
fn ids_start_at_one_and_increase() {
    let mut conn = SQLConnector::new("data");
    assert_eq!(conn.create_person(&person("A", "X")).unwrap().id, 1);
    assert_eq!(conn.create_person(&person("B", "Y")).unwrap().id, 2);
    assert_eq!(conn.create_star_chart(&chart("c", "d", 1, 0, 5)).unwrap().id, 1);
    assert_eq!(conn.create_star_chart(&chart("c", "d", 2, 0, 5)).unwrap().id, 2);
}

#[test]
fn get_person_missing_is_none() {
    let mut conn = SQLConnector::new("data");
    assert!(conn.get_person("Nobody").is_none());
    conn.create_person(&person("Ann", "Lee")).unwrap();
    assert!(conn.get_person("Nobody").is_none());
}

#[test]
fn get_person_with_shared_first_name_finds_the_first() {
    let mut conn = SQLConnector::new("data");
    conn.create_person(&person("Sam", "First")).unwrap();
    conn.create_person(&person("Sam", "Second")).unwrap();
    assert_eq!(conn.get_person("Sam").unwrap().last_name, "First");
}

#[test]
fn get_person_lists_children_one_level_and_own_charts() {
    let mut conn = SQLConnector::new("data");
    let a = conn.create_person(&person("Alice", "A")).unwrap().id;
    let b = conn.create_person(&person("Bob", "A")).unwrap().id;
    let c = conn.create_person(&person("Cid", "A")).unwrap().id;
    add_parent_child(&mut conn, a, b).unwrap();
    add_parent_child(&mut conn, b, c).unwrap();
    conn.create_star_chart(&chart("reading", "books", a, 1, 4)).unwrap();
    conn.create_star_chart(&chart("chores", "dishes", b, 2, 9)).unwrap();
    let p = conn.get_person("Alice").unwrap();
    assert_eq!(p.children.len(), 1);
    assert_eq!(p.children[0].first_name, "Bob");
    assert!(p.children[0].children.is_empty());
    assert!(p.children[0].star_charts.is_empty());
    assert_eq!(p.star_charts.len(), 1);
    assert_eq!(p.star_charts[0].name, "reading");
    assert_eq!(p.star_charts[0].person_first_name, "Alice");
    assert_eq!(p.star_charts[0].person_last_name, "A");
}

#[test]
fn get_people_formats_first_last() {
    let mut conn = SQLConnector::new("data");
    conn.create_person(&person("Jane", "Doe")).unwrap();
    conn.create_person(&person("John", "Roe")).unwrap();
    assert_eq!(conn.get_people(), vec!["Jane Doe".to_string(), "John Roe".to_string()]);
}

#[test]
fn get_all_people_is_structured() {
    let mut conn = SQLConnector::new("data");
    conn.create_person(&person("Jane", "Doe")).unwrap();
    let all = conn.get_all_people();
    assert_eq!(all.len(), 1);
    assert_eq!(all[0].id, 1);
    assert_eq!(all[0].first_name, "Jane");
    assert_eq!(all[0].last_name, "Doe");
}

#[test]
fn self_link_is_invalid_relation() {
    let mut conn = SQLConnector::new("data");
    let p = conn.create_person(&person("Ann", "Lee")).unwrap().id;
    assert_eq!(add_parent_child(&mut conn, p, p), Err(StoreError::InvalidRelation));
    assert_eq!(add_parent_child(&mut conn, 42, 42), Err(StoreError::InvalidRelation));
    assert!(children_of(&conn, p).is_empty());
}

#[test]
fn link_shows_both_ways_and_repeat_is_duplicate() {
    let mut conn = SQLConnector::new("data");
    let p = conn.create_person(&person("Pat", "P")).unwrap().id;
    let c = conn.create_person(&person("Kim", "P")).unwrap().id;
    assert_eq!(add_parent_child(&mut conn, p, c), Ok(()));
    assert!(children_of(&conn, p).iter().any(|k| k.id == c && k.first_name == "Kim"));
    assert!(parents_of(&conn, c).iter().any(|k| k.id == p && k.first_name == "Pat"));
    assert_eq!(add_parent_child(&mut conn, p, c), Err(StoreError::DuplicateKey));
    assert_eq!(children_of(&conn, p).len(), 1);
    assert!(children_of(&conn, c).is_empty());
    assert!(parents_of(&conn, p).is_empty());
}

#[test]
fn link_to_unknown_person_lists_nobody() {
    let mut conn = SQLConnector::new("data");
    let p = conn.create_person(&person("Pat", "P")).unwrap().id;
    assert_eq!(add_parent_child(&mut conn, p, 99), Ok(()));
    assert!(children_of(&conn, p).is_empty());
}

#[test]
fn create_star_chart_for_missing_person_is_not_found() {
    let mut conn = SQLConnector::new("data");
    assert_eq!(conn.create_star_chart(&chart("x", "y", 7, 0, 1)), Err(StoreError::NotFound));
    assert!(conn.get_star_charts().is_empty());
}

#[test]
fn created_chart_reads_back_count_and_total() {
    let mut conn = SQLConnector::new("data");
    let p = conn.create_person(&person("Ann", "Lee")).unwrap().id;
    let id = conn.create_star_chart(&chart("reading", "books", p, 4, 12)).unwrap().id;
    let c = conn.get_star_chart(id).unwrap();
    assert_eq!(c.star_count, 4);
    assert_eq!(c.star_total, 12);
    assert_eq!(c.description, "books");
    assert_eq!(c.person_first_name, "Ann");
    assert_eq!(c.person_last_name, "Lee");
}

#[test]
fn create_star_chart_at_stamps_time() {
    let mut conn = SQLConnector::new("data");
    let p = conn.create_person(&person("Ann", "Lee")).unwrap().id;
    let id = conn.create_star_chart_at(&chart("r", "b", p, 0, 3), 1234).unwrap().id;
    assert_eq!(conn.get_star_chart(id).unwrap().star_total, 3);
}

#[test]
fn get_star_chart_missing_is_none() {
    let conn = SQLConnector::new("data");
    assert!(conn.get_star_chart(1).is_none());
}

#[test]
fn increment_then_decrement_restores_count() {
    let mut conn = SQLConnector::new("data");
    let p = conn.create_person(&person("Ann", "Lee")).unwrap().id;
    let id = conn.create_star_chart(&chart("r", "b", p, 3, 10)).unwrap().id;
    conn.increment_star_chart(id, 4).unwrap();
    assert_eq!(conn.get_star_chart(id).unwrap().star_count, 7);
    conn.increment_star_chart(id, -4).unwrap();
    assert_eq!(conn.get_star_chart(id).unwrap().star_count, 3);
}

#[test]
fn increment_is_not_clamped() {
    let mut conn = SQLConnector::new("data");
    let p = conn.create_person(&person("Ann", "Lee")).unwrap().id;
    let id = conn.create_star_chart(&chart("r", "b", p, 3, 10)).unwrap().id;
    conn.increment_star_chart(id, 20).unwrap();
    assert_eq!(conn.get_star_chart(id).unwrap().star_count, 23);
    conn.increment_star_chart_internal(id, -30).unwrap();
    assert_eq!(conn.get_star_chart(id).unwrap().star_count, -7);
    assert_eq!(conn.get_star_chart(id).unwrap().star_total, 10);
}

#[test]
fn increment_missing_chart_is_not_found() {
    let mut conn = SQLConnector::new("data");
    assert_eq!(conn.increment_star_chart(5, 1), Err(StoreError::NotFound));
}

#[test]
fn increment_past_i32_is_out_of_range() {
    let mut conn = SQLConnector::new("data");
    let p = conn.create_person(&person("Ann", "Lee")).unwrap().id;
    let id = conn.create_star_chart(&chart("r", "b", p, i32::MAX - 1, 10)).unwrap().id;
    assert_eq!(conn.increment_star_chart_at(id, 2, 0), Err(StoreError::CountOutOfRange));
    assert_eq!(conn.get_star_chart(id).unwrap().star_count, i32::MAX - 1);
    assert!(conn.increment_star_chart_at(id, 1, 0).is_ok());
    assert_eq!(conn.get_star_chart(id).unwrap().star_count, i32::MAX);
}

#[test]
fn update_without_counts_keeps_them() {
    let mut conn = SQLConnector::new("data");
    let p = conn.create_person(&person("Ann", "Lee")).unwrap().id;
    let id = conn.create_star_chart(&chart("r", "b", p, 3, 10)).unwrap().id;
    let req = UpdateStarChartRequest {
        name: "renamed".into(),
        description: "new".into(),
        star_count: None,
        star_total: None,
    };
    conn.update_star_chart_at(id, &req, 99).unwrap();
    let c = conn.get_star_chart(id).unwrap();
    assert_eq!(c.name, "renamed");
    assert_eq!(c.description, "new");
    assert_eq!(c.star_count, 3);
    assert_eq!(c.star_total, 10);
}

#[test]
fn update_with_counts_replaces_them() {
    let mut conn = SQLConnector::new("data");
    let p = conn.create_person(&person("Ann", "Lee")).unwrap().id;
    let id = conn.create_star_chart(&chart("r", "b", p, 3, 10)).unwrap().id;
    let req = UpdateStarChartRequest {
        name: "r".into(),
        description: "b".into(),
        star_count: Some(8),
        star_total: Some(20),
    };
    conn.update_star_chart(id, &req).unwrap();
    let c = conn.get_star_chart(id).unwrap();
    assert_eq!(c.star_count, 8);
    assert_eq!(c.star_total, 20);
}

#[test]
fn update_missing_chart_is_not_found() {
    let mut conn = SQLConnector::new("data");
    let req = UpdateStarChartRequest {
        name: "r".into(),
        description: "b".into(),
        star_count: None,
        star_total: None,
    };
    assert_eq!(conn.update_star_chart(3, &req), Err(StoreError::NotFound));
}

#[test]
fn delete_star_chart_twice_is_fine() {
    let mut conn = SQLConnector::new("data");
    let p = conn.create_person(&person("Ann", "Lee")).unwrap().id;
    let id = conn.create_star_chart(&chart("r", "b", p, 3, 10)).unwrap().id;
    let other = conn.create_star_chart(&chart("s", "c", p, 1, 2)).unwrap().id;
    conn.delete_star_chart(id);
    assert!(conn.get_star_chart(id).is_none());
    conn.delete_star_chart(id);
    assert!(conn.get_star_chart(id).is_none());
    assert!(conn.get_star_chart(other).is_some());
    conn.delete_star_chart(12345);
    assert_eq!(conn.get_star_charts().len(), 1);
}

#[test]
fn chart_of_deleted_owner_shows_empty_names() {
    let mut conn = SQLConnector::new("data");
    let p = conn.create_person(&person("Ann", "Lee")).unwrap().id;
    create_star_chart(&mut conn, 77).unwrap();
    let blank = conn.get_star_charts();
    assert_eq!(blank.len(), 1);
    assert_eq!(blank[0].name, "");
    assert_eq!(blank[0].star_count, 0);
    assert_eq!(blank[0].person_first_name, "");
    assert_eq!(blank[0].person_last_name, "");
    assert!(conn.get_person("Ann").unwrap().star_charts.is_empty());
    create_star_chart(&mut conn, p).unwrap();
    assert_eq!(conn.get_person("Ann").unwrap().star_charts.len(), 1);
}

#[test]
fn delete_person_cascades() {
    let mut conn = SQLConnector::new("data");
    let a = conn.create_person(&person("Alice", "A")).unwrap().id;
    let b = conn.create_person(&person("Bob", "A")).unwrap().id;
    let c = conn.create_person(&person("Cid", "A")).unwrap().id;
    add_parent_child(&mut conn, a, b).unwrap();
    add_parent_child(&mut conn, b, c).unwrap();
    add_parent_child(&mut conn, a, c).unwrap();
    let kept = conn.create_star_chart(&chart("r", "b", a, 1, 2)).unwrap().id;
    let gone = conn.create_star_chart(&chart("s", "c", b, 1, 2)).unwrap().id;
    conn.delete_person(b);
    assert!(conn.get_person("Bob").is_none());
    assert!(conn.get_star_chart(gone).is_none());
    assert!(conn.get_star_chart(kept).is_some());
    let kids: Vec<i32> = children_of(&conn, a).iter().map(|p| p.id).collect();
    assert_eq!(kids, vec![c]);
    assert!(parents_of(&conn, c).iter().all(|p| p.id == a));
    assert_eq!(conn.get_people(), vec!["Alice A".to_string(), "Cid A".to_string()]);
    // The link b -> c is gone, so re-adding it is no duplicate.
    assert_eq!(add_parent_child(&mut conn, b, c), Ok(()));
    conn.delete_person(999);
    assert_eq!(conn.get_all_people().len(), 2);
}

#[test]
fn is_initialized_after_first_person() {
    let mut conn = SQLConnector::new("data");
    assert!(!conn.is_initialized());
    conn.create_person(&person("Ann", "Lee")).unwrap();
    assert!(conn.is_initialized());
}

#[test]
fn initialize_links_alice_to_bob() {
    let mut conn = SQLConnector::new("data");
    let cfg = config(vec![member("Alice", "Smith", &["Bob"]), member("Bob", "Smith", &[])]);
    conn.initialize(&cfg).unwrap();
    assert!(conn.is_initialized());
    let alice = conn.get_person("Alice").unwrap();
    assert_eq!(alice.children.len(), 1);
    assert_eq!(alice.children[0].first_name, "Bob");
}

#[test]
fn initialize_skips_unknown_names_and_existing_links() {
    let mut conn = SQLConnector::new("data");
    let cfg = config(vec![
        member("Alice", "Smith", &["Bob", "Zed", "Bob"]),
        member("Bob", "Smith", &["Cat"]),
        member("Cat", "Smith", &[]),
    ]);
    assert_eq!(conn.initialize(&cfg), Ok(()));
    assert_eq!(conn.get_all_people().len(), 3);
    assert_eq!(conn.get_person("Alice").unwrap().children.len(), 1);
    assert_eq!(conn.get_person("Bob").unwrap().children[0].first_name, "Cat");
    assert!(conn.get_person("Cat").unwrap().children.is_empty());
}

#[test]
fn initialize_member_naming_self_is_invalid_relation() {
    let mut conn = SQLConnector::new("data");
    let cfg = config(vec![member("Ann", "Lee", &["Ann"])]);
    assert_eq!(conn.initialize(&cfg), Err(StoreError::InvalidRelation));
    assert!(conn.get_person("Ann").is_some());
}

#[test]
fn increment_scenario_three_plus_two() {
    let mut conn = SQLConnector::new("data");
    let p = conn.create_person(&person("Ann", "Lee")).unwrap().id;
    assert_eq!(p, 1);
    let id = conn.create_star_chart(&chart("chores", "", 1, 3, 10)).unwrap().id;
    conn.increment_star_chart(id, 2).unwrap();
    assert_eq!(conn.get_star_chart(id).unwrap().star_count, 5);
}

#[test]
fn calendar_events_round_trip() {
    let mut conn = SQLConnector::new("data");
    let req = CreateCalendarEventRequest {
        title: "Dentist".into(),
        person_id: 3,
        start: "2024-05-01T10:00".into(),
        end: "2024-05-01T11:00".into(),
    };
    assert_eq!(conn.create_calendar_event(&req).unwrap().id, 1);
    let events = conn.list_calendar_events();
    assert_eq!(events.len(), 1);
    assert_eq!(events[0].title, "Dentist");
    assert_eq!(events[0].start, "2024-05-01T10:00");
    assert_eq!(events[0].end, "2024-05-01T11:00");
    assert_eq!(events[0].resource_id, 3);
}

#[test]
fn calendar_people_colored_by_id() {
    let mut conn = SQLConnector::new("data");
    for i in 0..7 {
        conn.create_person(&person(&format!("P{}", i), "Q")).unwrap();
    }
    let people = conn.list_calendar_people();
    assert_eq!(people.len(), 7);
    assert_eq!(people[0].title, "P0 Q");
    assert_eq!(people[0].event_background_color.as_deref(), Some("#64b5f6"));
    assert_eq!(people[5].event_background_color.as_deref(), Some("#e57373"));
    assert_eq!(people[6].event_background_color, people[0].event_background_color);
    assert_eq!(people[0].event_text_color.as_deref(), Some("#ffffff"));
}

#[test]
fn store_keeps_its_path() {
    let conn = SQLConnector::new("some/where");
    assert_eq!(conn.path(), "some/where");
}

#[test]
fn error_messages_describe_the_error() {
    assert_eq!(StoreError::NotFound.message(), "not found");
    assert_eq!(StoreError::DuplicateKey.message(), "the parent-child link already exists");
    assert_eq!(StoreError::CountOutOfRange.message(), "the star count would leave the range of i32");
}

#[test]
fn charts_are_stamped_with_the_current_time() {
    let mut conn = SQLConnector::new("data");
    let p = conn.create_person(&person("Ann", "Lee")).unwrap().id;
    conn.create_star_chart(&chart("r", "b", p, 0, 1)).unwrap();
    create_star_chart(&mut conn, p).unwrap();
    // 2020-09-13, well before any machine that runs this.
    let earliest: i64 = 1_600_000_000_000;
    for c in conn.charts() {
        assert!(c.created_at > earliest);
        assert_eq!(c.created_at, c.updated_at);
    }
}

#[test]
fn increment_refreshes_updated_at() {
    let mut conn = SQLConnector::new("data");
    let p = conn.create_person(&person("Ann", "Lee")).unwrap().id;
    let id = conn.create_star_chart_at(&chart("r", "b", p, 0, 1), 100).unwrap().id;
    conn.increment_star_chart_at(id, 1, 250).unwrap();
    assert_eq!(conn.charts()[0].created_at, 100);
    assert_eq!(conn.charts()[0].updated_at, 250);
    let req = UpdateStarChartRequest { name: "r".into(), description: "b".into(), star_count: None, star_total: None };
    conn.update_star_chart_at(id, &req, 300).unwrap();
    assert_eq!(conn.charts()[0].updated_at, 300);
}

#[test]
fn from_tables_restores_and_resumes_ids() {
    let mut conn = SQLConnector::new("db");
    let a = conn.create_person(&person("Alice", "A")).unwrap().id;
    let b = conn.create_person(&person("Bob", "A")).unwrap().id;
    add_parent_child(&mut conn, a, b).unwrap();
    conn.create_star_chart_at(&chart("r", "b", a, 2, 5), 7).unwrap();
    let mut copy = SQLConnector::from_tables(
        "db",
        conn.people().clone(),
        conn.links().clone(),
        conn.charts().clone(),
        conn.events().clone(),
    )
    .unwrap();
    assert_eq!(copy.get_people(), conn.get_people());
    assert_eq!(copy.get_person("Alice").unwrap().children[0].first_name, "Bob");
    assert_eq!(copy.create_person(&person("Cid", "A")).unwrap().id, 3);
    assert_eq!(copy.create_star_chart(&chart("s", "c", a, 0, 1)).unwrap().id, 2);
}

#[test]
fn from_tables_refuses_broken_rows() {
    let p = |id: i32| Person { id, first_name: "X".into(), last_name: "Y".into() };
    assert!(SQLConnector::from_tables("db", vec![p(2), p(1)], vec![], vec![], vec![]).is_none());
    assert!(SQLConnector::from_tables("db", vec![p(0)], vec![], vec![], vec![]).is_none());
    assert!(SQLConnector::from_tables("db", vec![p(i32::MAX)], vec![], vec![], vec![]).is_none());
    let self_link = vec![ParentChildLink { parent_id: 1, child_id: 1 }];
    assert!(SQLConnector::from_tables("db", vec![p(1)], self_link, vec![], vec![]).is_none());
    let twice = vec![
        ParentChildLink { parent_id: 1, child_id: 2 },
        ParentChildLink { parent_id: 1, child_id: 2 },
    ];
    assert!(SQLConnector::from_tables("db", vec![p(1), p(2)], twice, vec![], vec![]).is_none());
    assert!(SQLConnector::from_tables("db", vec![p(1), p(5)], vec![], vec![], vec![]).is_some());
}
