//! Create-or-update decisions that map directory records onto local rows.
//! Rows are matched by external id; profile fields follow the directory, and
//! the signup and host flags are set only where a signup asks for it.
use vstd::prelude::*;
use crate::json::{copy_opt, Json, JsonMembers};
use crate::pco::person::{HouseholdInfo, OrganizationInfo, PersonData};
use crate::store::{
    lemma_find_map, lemma_find_none, lemma_find_some, person_apply, person_find, person_table_wf,
    Household, Organization, Person, Save, Stored, User,
};

verus! {

/// The stored address: the directory's, or an empty object when it has none.
pub open spec fn address_or_empty(a: Option<Json>) -> Json {
    match a {
        Some(j) => j,
        None => Json::Object(JsonMembers::Empty),
    }
}

fn copy_address(a: &Option<Json>) -> (r: Json)
    ensures
        r == address_or_empty(*a),
{
    match a {
        Some(j) => j.deep_copy(),
        None => Json::Object(JsonMembers::Empty),
    }
}

/// The organization write for a directory organization.
pub open spec fn organization_write(existing: Option<Stored<Organization>>, info: OrganizationInfo) -> Save<Organization> {
    match existing {
        Some(e) => Save::Update(e.id, Organization { pco_id: e.row.pco_id, name: info.name, avatar_url: info.avatar_url }),
        None => Save::Insert(Organization { pco_id: info.id, name: info.name, avatar_url: info.avatar_url }),
    }
}

/// The household write when a household signs up: profile from the directory,
/// signed up, host flag kept (false for a new row).
pub open spec fn household_signup_write(existing: Option<Stored<Household>>, info: HouseholdInfo, org_id: i32) -> Save<Household> {
    match existing {
        Some(e) => Save::Update(e.id, Household {
            name: info.name,
            avatar_url: info.avatar,
            is_signed_up: true,
            ..e.row
        }),
        None => Save::Insert(Household {
            pco_id: info.id,
            organization_id: org_id,
            name: info.name,
            avatar_url: info.avatar,
            is_signed_up: true,
            can_host: false,
        }),
    }
}

/// The person write for a member of a household that signs up: profile from
/// the directory, linked to the household, flags kept (false for a new row).
pub open spec fn member_write(existing: Option<Stored<Person>>, d: PersonData, household_id: i32, org_id: i32) -> Save<Person> {
    match existing {
        Some(e) => Save::Update(e.id, Person {
            name: d.name,
            email: d.email,
            phone: d.phone,
            address: address_or_empty(d.address),
            avatar_url: d.avatar,
            is_child: d.is_child,
            household_id: Some(household_id),
            ..e.row
        }),
        None => Save::Insert(Person {
            pco_id: d.id,
            organization_id: org_id,
            name: d.name,
            email: d.email,
            phone: d.phone,
            address: address_or_empty(d.address),
            avatar_url: d.avatar,
            is_signed_up: false,
            can_host: false,
            is_child: d.is_child,
            household_id: Some(household_id),
        }),
    }
}

/// The person write when a person signs up: profile from the directory, in
/// the given organization, signed up; host flag and household link kept (false
/// and none for a new row).
pub open spec fn person_signup_write(existing: Option<Stored<Person>>, d: PersonData, org_id: i32) -> Save<Person> {
    match existing {
        Some(e) => Save::Update(e.id, Person {
            organization_id: org_id,
            name: d.name,
            email: d.email,
            phone: d.phone,
            address: address_or_empty(d.address),
            avatar_url: d.avatar,
            is_signed_up: true,
            is_child: d.is_child,
            ..e.row
        }),
        None => Save::Insert(Person {
            pco_id: d.id,
            organization_id: org_id,
            name: d.name,
            email: d.email,
            phone: d.phone,
            address: address_or_empty(d.address),
            avatar_url: d.avatar,
            is_signed_up: true,
            can_host: false,
            is_child: d.is_child,
            household_id: None,
        }),
    }
}

/// The household write when its member logs in: name and avatar follow the
/// directory; a new row starts neither signed up nor hosting.
pub open spec fn household_login_write(existing: Option<Stored<Household>>, info: HouseholdInfo, org_id: i32) -> Save<Household> {
    match existing {
        Some(e) => Save::Update(e.id, Household { name: info.name, avatar_url: info.avatar, ..e.row }),
        None => Save::Insert(Household {
            pco_id: info.id,
            organization_id: org_id,
            name: info.name,
            avatar_url: info.avatar,
            is_signed_up: false,
            can_host: false,
        }),
    }
}

/// The person write when a person logs in: contact details follow the
/// directory, the household link is set when one is given, and nothing else
/// changes; a new row starts with every flag false.
pub open spec fn person_login_write(existing: Option<Stored<Person>>, d: PersonData, org_id: i32, household_id: Option<i32>) -> Save<Person> {
    match existing {
        Some(e) => Save::Update(e.id, Person {
            name: d.name,
            avatar_url: d.avatar,
            email: d.email,
            phone: d.phone,
            address: address_or_empty(d.address),
            household_id: match household_id {
                Some(h) => Some(h),
                None => e.row.household_id,
            },
            ..e.row
        }),
        None => Save::Insert(Person {
            pco_id: d.id,
            organization_id: org_id,
            name: d.name,
            email: d.email,
            phone: d.phone,
            address: address_or_empty(d.address),
            avatar_url: d.avatar,
            is_signed_up: false,
            can_host: false,
            is_child: false,
            household_id,
        }),
    }
}

/// The user write at login: the credential is replaced, the rest kept.
pub open spec fn user_login_write(
    existing: Option<Stored<User>>,
    person_id: i32,
    org_id: i32,
    access_token: String,
    refresh_token: Option<String>,
    expires_at: i64,
) -> Save<User> {
    match existing {
        Some(e) => Save::Update(e.id, User {
            access_token,
            refresh_token,
            token_expires_at: expires_at,
            ..e.row
        }),
        None => Save::Insert(User {
            person_id,
            organization_id: org_id,
            access_token,
            refresh_token,
            token_expires_at: expires_at,
        }),
    }
}

/// Decides the organization write for a directory organization.
pub fn organization_upsert(existing: Option<&Stored<Organization>>, info: &OrganizationInfo) -> (r: Save<Organization>)
    ensures
        r == organization_write(match existing { Some(e) => Some(*e), None => None }, *info),
{
    match existing {
        Some(e) => Save::Update(e.id, Organization {
            pco_id: e.row.pco_id.clone(),
            name: info.name.clone(),
            avatar_url: copy_opt(&info.avatar_url),
        }),
        None => Save::Insert(Organization {
            pco_id: info.id.clone(),
            name: info.name.clone(),
            avatar_url: copy_opt(&info.avatar_url),
        }),
    }
}

/// Decides the household write when a household signs up.
pub fn household_for_signup(existing: Option<&Stored<Household>>, info: &HouseholdInfo, org_id: i32) -> (r: Save<Household>)
    ensures
        r == household_signup_write(match existing { Some(e) => Some(*e), None => None }, *info, org_id),
{
    match existing {
        Some(e) => Save::Update(e.id, Household {
            pco_id: e.row.pco_id.clone(),
            organization_id: e.row.organization_id,
            name: info.name.clone(),
            avatar_url: copy_opt(&info.avatar),
            is_signed_up: true,
            can_host: e.row.can_host,
        }),
        None => Save::Insert(Household {
            pco_id: info.id.clone(),
            organization_id: org_id,
            name: info.name.clone(),
            avatar_url: copy_opt(&info.avatar),
            is_signed_up: true,
            can_host: false,
        }),
    }
}

/// Decides the person write for a member of a household that signs up.
pub fn member_for_household(existing: Option<&Stored<Person>>, d: &PersonData, household_id: i32, org_id: i32) -> (r: Save<Person>)
    ensures
        r == member_write(match existing { Some(e) => Some(*e), None => None }, *d, household_id, org_id),
{
    match existing {
        Some(e) => Save::Update(e.id, Person {
            pco_id: e.row.pco_id.clone(),
            organization_id: e.row.organization_id,
            name: d.name.clone(),
            email: copy_opt(&d.email),
            phone: copy_opt(&d.phone),
            address: copy_address(&d.address),
            avatar_url: copy_opt(&d.avatar),
            is_signed_up: e.row.is_signed_up,
            can_host: e.row.can_host,
            is_child: d.is_child,
            household_id: Some(household_id),
        }),
        None => Save::Insert(Person {
            pco_id: d.id.clone(),
            organization_id: org_id,
            name: d.name.clone(),
            email: copy_opt(&d.email),
            phone: copy_opt(&d.phone),
            address: copy_address(&d.address),
            avatar_url: copy_opt(&d.avatar),
            is_signed_up: false,
            can_host: false,
            is_child: d.is_child,
            household_id: Some(household_id),
        }),
    }
}

/// Decides the person write when a person signs up.
pub fn person_for_signup(existing: Option<&Stored<Person>>, d: &PersonData, org_id: i32) -> (r: Save<Person>)
    ensures
        r == person_signup_write(match existing { Some(e) => Some(*e), None => None }, *d, org_id),
{
    match existing {
        Some(e) => Save::Update(e.id, Person {
            pco_id: e.row.pco_id.clone(),
            organization_id: org_id,
            name: d.name.clone(),
            email: copy_opt(&d.email),
            phone: copy_opt(&d.phone),
            address: copy_address(&d.address),
            avatar_url: copy_opt(&d.avatar),
            is_signed_up: true,
            can_host: e.row.can_host,
            is_child: d.is_child,
            household_id: e.row.household_id,
        }),
        None => Save::Insert(Person {
            pco_id: d.id.clone(),
            organization_id: org_id,
            name: d.name.clone(),
            email: copy_opt(&d.email),
            phone: copy_opt(&d.phone),
            address: copy_address(&d.address),
            avatar_url: copy_opt(&d.avatar),
            is_signed_up: true,
            can_host: false,
            is_child: d.is_child,
            household_id: None,
        }),
    }
}

/// Decides the household write when its member logs in.
pub fn household_for_login(existing: Option<&Stored<Household>>, info: &HouseholdInfo, org_id: i32) -> (r: Save<Household>)
    ensures
        r == household_login_write(match existing { Some(e) => Some(*e), None => None }, *info, org_id),
{
    match existing {
        Some(e) => Save::Update(e.id, Household {
            pco_id: e.row.pco_id.clone(),
            organization_id: e.row.organization_id,
            name: info.name.clone(),
            avatar_url: copy_opt(&info.avatar),
            is_signed_up: e.row.is_signed_up,
            can_host: e.row.can_host,
        }),
        None => Save::Insert(Household {
            pco_id: info.id.clone(),
            organization_id: org_id,
            name: info.name.clone(),
            avatar_url: copy_opt(&info.avatar),
            is_signed_up: false,
            can_host: false,
        }),
    }
}

/// Decides the person write when a person logs in.
pub fn person_for_login(existing: Option<&Stored<Person>>, d: &PersonData, org_id: i32, household_id: Option<i32>) -> (r: Save<Person>)
    ensures
        r == person_login_write(match existing { Some(e) => Some(*e), None => None }, *d, org_id, household_id),
{
    match existing {
        Some(e) => Save::Update(e.id, Person {
            pco_id: e.row.pco_id.clone(),
            organization_id: e.row.organization_id,
            name: d.name.clone(),
            email: copy_opt(&d.email),
            phone: copy_opt(&d.phone),
            address: copy_address(&d.address),
            avatar_url: copy_opt(&d.avatar),
            is_signed_up: e.row.is_signed_up,
            can_host: e.row.can_host,
            is_child: e.row.is_child,
            household_id: match household_id {
                Some(h) => Some(h),
                None => e.row.household_id,
            },
        }),
        None => Save::Insert(Person {
            pco_id: d.id.clone(),
            organization_id: org_id,
            name: d.name.clone(),
            email: copy_opt(&d.email),
            phone: copy_opt(&d.phone),
            address: copy_address(&d.address),
            avatar_url: copy_opt(&d.avatar),
            is_signed_up: false,
            can_host: false,
            is_child: false,
            household_id,
        }),
    }
}

/// Decides the user write at login.
pub fn user_for_login(
    existing: Option<&Stored<User>>,
    person_id: i32,
    org_id: i32,
    access_token: &String,
    refresh_token: &Option<String>,
    expires_at: i64,
) -> (r: Save<User>)
    ensures
        r == user_login_write(
            match existing { Some(e) => Some(*e), None => None },
            person_id,
            org_id,
            *access_token,
            *refresh_token,
            expires_at,
        ),
{
    match existing {
        Some(e) => Save::Update(e.id, User {
            person_id: e.row.person_id,
            organization_id: e.row.organization_id,
            access_token: access_token.clone(),
            refresh_token: copy_opt(refresh_token),
            token_expires_at: expires_at,
        }),
        None => Save::Insert(User {
            person_id,
            organization_id: org_id,
            access_token: access_token.clone(),
            refresh_token: copy_opt(refresh_token),
            token_expires_at: expires_at,
        }),
    }
}

/// Signing a person up twice from the same directory record leaves the
/// table as the first signup left it: the second pass only rewrites the row it
/// finds by external id with the contents that row already has. After the
/// first pass exactly one row has the person's external id, and every other
/// external id resolves to the row it resolved to before.
pub proof fn lemma_person_signup_idempotent(
    t: Seq<Stored<Person>>,
    d: PersonData,
    org_id: i32,
    fresh1: i32,
    fresh2: i32,
)
    requires
        person_table_wf(t),
        forall|i: int| 0 <= i < t.len() ==> (#[trigger] t[i]).id != fresh1,
    ensures
        ({
            let t1 = person_apply(t, person_signup_write(person_find(t, d.id@), d, org_id), fresh1);
            let t2 = person_apply(t1, person_signup_write(person_find(t1, d.id@), d, org_id), fresh2);
            &&& t2 == t1
            &&& person_table_wf(t1)
            &&& person_find(t1, d.id@) is Some
            &&& forall|q: Seq<char>| q != d.id@ ==> #[trigger] person_find(t1, q) == person_find(t, q)
        }),
{
    let pid = d.id@;
    let w1 = person_signup_write(person_find(t, pid), d, org_id);
    let t1 = person_apply(t, w1, fresh1);
    match person_find(t, pid) {
        None => {
            lemma_find_none(t, pid);
            let p = w1->Insert_0;
            assert(t1 == t.push(Stored { id: fresh1, row: p }));
            assert(t1.drop_last() =~= t);
            assert forall|i: int, j: int|
                0 <= i < t1.len() && 0 <= j < t1.len() && i != j implies {
                    &&& (#[trigger] t1[i]).id != (#[trigger] t1[j]).id
                    &&& t1[i].row.pco_id@ != t1[j].row.pco_id@
                } by {
                if i < t.len() && j < t.len() {
                    assert(t1[i] == t[i] && t1[j] == t[j]);
                } else if i < t.len() {
                    assert(t1[i] == t[i]);
                } else {
                    assert(t1[j] == t[j]);
                }
            }
            assert(person_find(t1, pid) == Some(Stored { id: fresh1, row: p }));
            let w2 = person_signup_write(person_find(t1, pid), d, org_id);
            assert(w2 == Save::Update(fresh1, p));
            let f = |s: Stored<Person>| if s.id == fresh1 { Stored { id: fresh1, row: p } } else { s };
            let t2 = t1.map_values(f);
            assert forall|i: int| 0 <= i < t1.len() implies t2[i] == t1[i] by {
                if i < t.len() {
                    assert(t1[i] == t[i]);
                }
            }
            assert(t2 =~= t1);
        },
        Some(e) => {
            lemma_find_some(t, pid);
            let k = choose|k: int| 0 <= k < t.len() && t[k] == e;
            let p = w1->Update_1;
            let f = |s: Stored<Person>| if s.id == e.id { Stored { id: e.id, row: p } } else { s };
            assert(t1 == t.map_values(f));
            assert forall|i: int| 0 <= i < t.len() implies (#[trigger] f(t[i])).row.pco_id@ == t[i].row.pco_id@ by {
                if t[i].id == e.id {
                    if i != k {
                        assert(t[i].id != t[k].id);
                    }
                }
            }
            assert forall|i: int, j: int|
                0 <= i < t1.len() && 0 <= j < t1.len() && i != j implies {
                    &&& (#[trigger] t1[i]).id != (#[trigger] t1[j]).id
                    &&& t1[i].row.pco_id@ != t1[j].row.pco_id@
                } by {
                assert(f(t[i]).row.pco_id@ == t[i].row.pco_id@);
                assert(f(t[j]).row.pco_id@ == t[j].row.pco_id@);
            }
            assert forall|q: Seq<char>| q != pid implies #[trigger] person_find(t1, q) == person_find(t, q) by {
                lemma_find_map(t, f, q);
                if person_find(t, q) is Some {
                    lemma_find_some(t, q);
                    let j = choose|j: int| 0 <= j < t.len() && t[j] == person_find(t, q)->Some_0;
                    if j != k {
                        assert(t[j].id != t[k].id);
                    }
                }
            }
            lemma_find_map(t, f, pid);
            assert(person_find(t1, pid) == Some(Stored { id: e.id, row: p }));
            let w2 = person_signup_write(person_find(t1, pid), d, org_id);
            assert(w2 == Save::Update(e.id, p));
            let t2 = t1.map_values(f);
            assert forall|i: int| 0 <= i < t1.len() implies t2[i] == t1[i] by {
                if t1[i].id == e.id {
                    if i != k {
                        assert(t[i].id != t[k].id);
                    }
                }
            }
            assert(t2 =~= t1);
        },
    }
}

/// Syncing profile fields never touches the host flag, nor the signup flag
/// except where a signup sets it: a person's own signup sets theirs, a
/// household's signup sets the household's. A person's signup keeps their
/// household link.
pub proof fn lemma_flags_kept(
    p: Stored<Person>,
    h: Stored<Household>,
    d: PersonData,
    info: HouseholdInfo,
    household_id: Option<i32>,
    org_id: i32,
)
    ensures
        person_signup_write(Some(p), d, org_id) matches Save::Update(id, row) && id == p.id
            && row.can_host == p.row.can_host && row.is_signed_up
            && row.household_id == p.row.household_id && row.pco_id == p.row.pco_id,
        household_id matches Some(hid) ==> (member_write(Some(p), d, hid, org_id) matches Save::Update(id, row)
            && id == p.id && row.can_host == p.row.can_host && row.is_signed_up == p.row.is_signed_up
            && row.pco_id == p.row.pco_id),
        household_signup_write(Some(h), info, org_id) matches Save::Update(id, row) && id == h.id
            && row.can_host == h.row.can_host && row.is_signed_up && row.pco_id == h.row.pco_id,
        person_login_write(Some(p), d, org_id, household_id) matches Save::Update(id, row) && id == p.id
            && row.can_host == p.row.can_host && row.is_signed_up == p.row.is_signed_up
            && row.pco_id == p.row.pco_id,
        household_login_write(Some(h), info, org_id) matches Save::Update(id, row) && id == h.id
            && row.can_host == h.row.can_host && row.is_signed_up == h.row.is_signed_up
            && row.pco_id == h.row.pco_id,
{
}

/// Flips a person's signup flag; nothing else changes.
pub fn toggle_person_active(p: Stored<Person>) -> (r: Save<Person>)
    ensures
        r == Save::Update(p.id, Person { is_signed_up: !p.row.is_signed_up, ..p.row }),
{
    let id = p.id;
    let mut row = p.row;
    row.is_signed_up = !row.is_signed_up;
    Save::Update(id, row)
}

/// Flips whether a person can host; nothing else changes.
pub fn toggle_person_host(p: Stored<Person>) -> (r: Save<Person>)
    ensures
        r == Save::Update(p.id, Person { can_host: !p.row.can_host, ..p.row }),
{
    let id = p.id;
    let mut row = p.row;
    row.can_host = !row.can_host;
    Save::Update(id, row)
}

/// Flips a household's signup flag; nothing else changes.
pub fn toggle_household_active(h: Stored<Household>) -> (r: Save<Household>)
    ensures
        r == Save::Update(h.id, Household { is_signed_up: !h.row.is_signed_up, ..h.row }),
{
    let id = h.id;
    let mut row = h.row;
    row.is_signed_up = !row.is_signed_up;
    Save::Update(id, row)
}

/// Flips whether a household can host; nothing else changes.
pub fn toggle_household_host(h: Stored<Household>) -> (r: Save<Household>)
    ensures
        r == Save::Update(h.id, Household { can_host: !h.row.can_host, ..h.row }),
{
    let id = h.id;
    let mut row = h.row;
    row.can_host = !row.can_host;
    Save::Update(id, row)
}

} // verus!
