use potluck::json::{Json, JsonList, JsonMembers};
use potluck::pco::household::parse_complete_response as parse_household_response;
use potluck::pco::person::{parse_complete_response, parse_person_resource, people_page, PCOMeResponse};
use potluck::pco::{process_included, Meta, PCOPersonResponse, PCOResource, Parent};

fn s(v: &str) -> Json {
    Json::Str(v.to_string())
}

fn obj(members: Vec<(&str, Json)>) -> Json {
    let mut out = JsonMembers::Empty;
    for (k, v) in members.into_iter().rev() {
        out = JsonMembers::Member(k.to_string(), Box::new(v), Box::new(out));
    }
    Json::Object(out)
}

fn arr(items: Vec<Json>) -> Json {
    let mut out = JsonList::Empty;
    for v in items.into_iter().rev() {
        out = JsonList::Item(Box::new(v), Box::new(out));
    }
    Json::Array(out)
}

fn link(kind: &str, id: &str) -> Json {
    obj(vec![("id", s(id)), ("type", s(kind))])
}

fn res(kind: &str, id: &str, attributes: Json, relationships: Option<Json>) -> PCOResource {
    PCOResource {
        resource_type: kind.to_string(),
        id: id.to_string(),
        attributes,
        relationships,
    }
}

fn person_resource(id: &str, emails: Vec<&str>) -> PCOResource {
    let rels = obj(vec![
        ("emails", obj(vec![("data", arr(emails.iter().map(|e| link("Email", e)).collect()))])),
        ("addresses", obj(vec![("data", arr(vec![link("Address", "a1")]))])),
        ("phone_numbers", obj(vec![("data", arr(vec![link("PhoneNumber", "101")]))])),
        ("households", obj(vec![("data", arr(vec![link("Household", "h1")]))])),
        ("organization", obj(vec![("data", link("Organization", "o1"))])),
    ]);
    res(
        "Person",
        id,
        obj(vec![("name", s("Ada Lovelace")), ("avatar", s("ada.png")), ("child", Json::Bool(true))]),
        Some(rels),
    )
}

fn included() -> Vec<PCOResource> {
    vec![
        res("Email", "e1", obj(vec![("address", s("first@example.com"))]), None),
        res("Email", "e2", obj(vec![("address", s("second@example.com"))]), None),
        res("Address", "a1", obj(vec![("city", s("Springfield"))]), None),
        res("PhoneNumber", "101", obj(vec![("number", s("555-0100"))]), None),
        res("Organization", "o1", obj(vec![("name", s("First Church")), ("avatar_url", s("org.png"))]), None),
        res("Household", "h1", obj(vec![("name", s("Lovelace Household"))]), None),
        res("Workflow", "w1", obj(vec![]), None),
    ]
}

fn meta(parent: &str, total: Option<usize>, count: Option<usize>) -> Meta {
    Meta {
        can_include: vec![],
        parent: Parent { id: parent.to_string(), resource_type: "Household".to_string() },
        total_count: total,
        count,
    }
}

#[test]
fn first_linked_email_wins() {
    let idx = process_included(&included());
    let d = parse_person_resource(&person_resource("100", vec!["e1", "e2"]), &idx).unwrap();
    assert_eq!(d.email, Some("first@example.com".to_string()));
    let d = parse_person_resource(&person_resource("100", vec!["e2", "e1"]), &idx).unwrap();
    assert_eq!(d.email, Some("second@example.com".to_string()));
}

#[test]
fn person_fields_resolve_through_included() {
    let idx = process_included(&included());
    let d = parse_person_resource(&person_resource("100", vec!["e1"]), &idx).unwrap();
    assert_eq!(d.id, "100");
    assert_eq!(d.name, "Ada Lovelace");
    assert_eq!(d.avatar, Some("ada.png".to_string()));
    assert!(d.is_child);
    assert_eq!(d.phone, Some("555-0100".to_string()));
    assert_eq!(d.address.unwrap().str_field("city"), Some("Springfield".to_string()));
    let org = d.organization.unwrap();
    assert_eq!(org.id, "o1");
    assert_eq!(org.name, "First Church");
    assert_eq!(org.avatar_url, Some("org.png".to_string()));
    let h = d.household.unwrap();
    assert_eq!(h.id, "h1");
    assert_eq!(h.name, "Lovelace Household");
    assert_eq!(h.avatar, None);
    assert_eq!(h.is_signed_up, None);
    assert!(!d.is_signed_up);
}

#[test]
fn missing_relationships_leave_fields_absent() {
    let idx = process_included(&included());
    let p = res("Person", "7", obj(vec![]), None);
    let d = parse_person_resource(&p, &idx).unwrap();
    assert_eq!(d.name, "");
    assert_eq!(d.email, None);
    assert!(d.address.is_none());
    assert_eq!(d.phone, None);
    assert!(d.organization.is_none());
    assert!(d.household.is_none());
    assert!(!d.is_child);
}

#[test]
fn unknown_linked_id_is_absent() {
    let idx = process_included(&included());
    let d = parse_person_resource(&person_resource("100", vec!["e9"]), &idx).unwrap();
    assert_eq!(d.email, None);
}

#[test]
fn later_included_resource_with_same_id_wins() {
    let mut inc = included();
    inc.push(res("Email", "e1", obj(vec![("address", s("newer@example.com"))]), None));
    inc.push(res("Email", "e1", obj(vec![("other", s("x"))]), None));
    let idx = process_included(&inc);
    let d = parse_person_resource(&person_resource("100", vec!["e1"]), &idx).unwrap();
    assert_eq!(d.email, Some("newer@example.com".to_string()));
}

#[test]
fn single_response_parses() {
    let response = PCOMeResponse { data: person_resource("5", vec!["e2"]), included: included() };
    let d = parse_complete_response(&response).unwrap();
    assert_eq!(d.id, "5");
    assert_eq!(d.email, Some("second@example.com".to_string()));
}

#[test]
fn household_listing_parses_members() {
    let response = PCOPersonResponse {
        data: vec![person_resource("1", vec!["e1"]), person_resource("2", vec!["e2"])],
        included: included(),
        meta: meta("h1", Some(2), Some(2)),
    };
    let h = parse_household_response(&response).unwrap();
    assert_eq!(h.id, "h1");
    assert_eq!(h.name, "Lovelace Household");
    let people = h.people.unwrap();
    assert_eq!(people.len(), 2);
    assert_eq!(people[0].id, "1");
    assert_eq!(people[1].email, Some("second@example.com".to_string()));
}

#[test]
fn household_listing_without_its_household_is_none() {
    let response = PCOPersonResponse {
        data: vec![person_resource("1", vec!["e1"])],
        included: included(),
        meta: meta("h404", None, None),
    };
    assert!(parse_household_response(&response).is_none());
}

#[test]
fn people_page_counts_default_to_zero() {
    let response = PCOPersonResponse {
        data: vec![person_resource("1", vec!["e1"])],
        included: included(),
        meta: meta("", None, Some(1)),
    };
    let page = people_page(&response, 3);
    assert_eq!(page.people.len(), 1);
    assert_eq!(page.total_count, 0);
    assert_eq!(page.count, 1);
    assert_eq!(page.page, 3);
}

#[test]
fn json_lookup_and_copy() {
    let j = obj(vec![("a", s("x")), ("b", Json::Bool(false)), ("c", arr(vec![s("first"), s("second")]))]);
    assert_eq!(j.str_field("a"), Some("x".to_string()));
    assert_eq!(j.str_field("b"), None);
    assert_eq!(j.bool_field("b"), Some(false));
    assert_eq!(j.get("c").unwrap().first_item().unwrap().as_str(), Some("first".to_string()));
    assert!(j.get("zz").is_none());
    let c = j.deep_copy();
    assert_eq!(c.str_field("a"), Some("x".to_string()));
    assert_eq!(s("x").str_field("a"), None);
}
