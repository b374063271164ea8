//! People of the directory, and how a person resource is read.
use vstd::prelude::*;
use crate::json::{opt_view, copy_opt, field, first_item, str_field, bool_field, Json};
use crate::pco::{
    address_of, email_of, find_last, household_of, last_match, organization_of, phone_of,
    process_included, str_or_empty, Included, PCOPersonResponse, PCOResource,
};

verus! {

/// An organization as the directory describes it.
#[derive(Clone, Debug)]
pub struct OrganizationInfo {
    pub id: String,
    pub name: String,
    pub avatar_url: Option<String>,
}

pub struct OrganizationView {
    pub id: Seq<char>,
    pub name: Seq<char>,
    pub avatar_url: Option<Seq<char>>,
}

impl View for OrganizationInfo {
    type V = OrganizationView;

    open spec fn view(&self) -> OrganizationView {
        OrganizationView { id: self.id@, name: self.name@, avatar_url: opt_view(self.avatar_url) }
    }
}

/// A household as the directory describes it, with its members when they were
/// fetched, and its local signup state when it is known.
#[derive(Debug)]
pub struct HouseholdInfo {
    pub id: String,
    pub name: String,
    pub avatar: Option<String>,
    pub people: Option<Vec<PersonData>>,
    pub is_signed_up: Option<bool>,
}

/// A household without its members.
pub struct HouseholdView {
    pub id: Seq<char>,
    pub name: Seq<char>,
    pub avatar: Option<Seq<char>>,
    pub is_signed_up: Option<bool>,
}

impl View for HouseholdInfo {
    type V = HouseholdView;

    open spec fn view(&self) -> HouseholdView {
        HouseholdView {
            id: self.id@,
            name: self.name@,
            avatar: opt_view(self.avatar),
            is_signed_up: self.is_signed_up,
        }
    }
}

/// A person as the directory describes it, with the local signup flag.
#[derive(Debug)]
pub struct PersonData {
    pub id: String,
    pub name: String,
    pub avatar: Option<String>,
    pub email: Option<String>,
    pub address: Option<Json>,
    pub phone: Option<String>,
    pub is_child: bool,
    pub household: Option<HouseholdInfo>,
    pub organization: Option<OrganizationInfo>,
    pub is_signed_up: bool,
}

pub struct PersonView {
    pub id: Seq<char>,
    pub name: Seq<char>,
    pub avatar: Option<Seq<char>>,
    pub email: Option<Seq<char>>,
    pub address: Option<Json>,
    pub phone: Option<Seq<char>>,
    pub is_child: bool,
    pub household: Option<HouseholdView>,
    pub organization: Option<OrganizationView>,
    pub is_signed_up: bool,
}

impl View for PersonData {
    type V = PersonView;

    open spec fn view(&self) -> PersonView {
        PersonView {
            id: self.id@,
            name: self.name@,
            avatar: opt_view(self.avatar),
            email: opt_view(self.email),
            address: self.address,
            phone: opt_view(self.phone),
            is_child: self.is_child,
            household: match self.household {
                Some(h) => Some(h@),
                None => None,
            },
            organization: match self.organization {
                Some(o) => Some(o@),
                None => None,
            },
            is_signed_up: self.is_signed_up,
        }
    }
}

/// A single resource together with the resources it refers to.
#[derive(Debug)]
pub struct PCOMeResponse {
    pub data: PCOResource,
    pub included: Vec<PCOResource>,
}

/// One page of the directory's people.
#[derive(Debug)]
pub struct PeoplePage {
    pub people: Vec<PersonData>,
    pub total_count: usize,
    pub count: usize,
    pub page: usize,
}

/// How ids are resolved to the values of included resources.
pub struct Lookups {
    pub address: spec_fn(Seq<char>) -> Option<Json>,
    pub email: spec_fn(Seq<char>) -> Option<Seq<char>>,
    pub phone: spec_fn(Seq<char>) -> Option<Seq<char>>,
    pub organization: spec_fn(Seq<char>) -> Option<OrganizationView>,
    pub household: spec_fn(Seq<char>) -> Option<HouseholdView>,
}

/// Resolution by the last included resource of each kind with the id.
pub open spec fn lookups_of(inc: Seq<PCOResource>) -> Lookups {
    Lookups {
        address: |id: Seq<char>| last_match(inc, id, address_of()),
        email: |id: Seq<char>| last_match(inc, id, email_of()),
        phone: |id: Seq<char>| last_match(inc, id, phone_of()),
        organization: |id: Seq<char>| last_match(inc, id, organization_of()),
        household: |id: Seq<char>| last_match(inc, id, household_of()),
    }
}

impl Included {
    /// Resolution through these tables.
    pub open spec fn lookups(&self) -> Lookups {
        Lookups {
            address: |id: Seq<char>| self.address(id),
            email: |id: Seq<char>| self.email(id),
            phone: |id: Seq<char>| self.phone(id),
            organization: |id: Seq<char>| self.organization(id),
            household: |id: Seq<char>| self.household(id),
        }
    }
}

/// Tables that index `inc` resolve ids as `inc` does.
pub proof fn lemma_indexed_lookups(idx: Included, inc: Seq<PCOResource>)
    requires
        idx.indexes(inc),
    ensures
        idx.lookups() == lookups_of(inc),
{
    assert(idx.lookups().address =~= lookups_of(inc).address);
    assert(idx.lookups().email =~= lookups_of(inc).email);
    assert(idx.lookups().phone =~= lookups_of(inc).phone);
    assert(idx.lookups().organization =~= lookups_of(inc).organization);
    assert(idx.lookups().household =~= lookups_of(inc).household);
}

/// The id of the first resource linked under relationship `name`.
pub open spec fn first_linked_id(rels: Json, name: Seq<char>) -> Option<Seq<char>> {
    match field(rels, name) {
        Some(rel) => match field(rel, "data"@) {
            Some(data) => match first_item(data) {
                Some(item) => str_field(item, "id"@),
                None => None,
            },
            None => None,
        },
        None => None,
    }
}

/// The id of the resource linked under the singular relationship `name`.
pub open spec fn single_linked_id(rels: Json, name: Seq<char>) -> Option<Seq<char>> {
    match field(rels, name) {
        Some(rel) => match field(rel, "data"@) {
            Some(data) => str_field(data, "id"@),
            None => None,
        },
        None => None,
    }
}

/// Resolves the first linked id of relationship `name` with `f`.
pub open spec fn resolve_first<T>(
    rels: Option<Json>,
    name: Seq<char>,
    f: spec_fn(Seq<char>) -> Option<T>,
) -> Option<T> {
    match rels {
        Some(rels) => match first_linked_id(rels, name) {
            Some(id) => f(id),
            None => None,
        },
        None => None,
    }
}

/// The person that a person resource describes, its links resolved by `lk`.
/// The household's signup state is not known from the directory, so it is
/// left unknown; the person's own signup flag starts false.
pub open spec fn person_from(p: PCOResource, lk: Lookups) -> PersonView {
    PersonView {
        id: p.id@,
        name: str_or_empty(p.attributes, "name"@),
        avatar: str_field(p.attributes, "avatar"@),
        email: resolve_first(p.relationships, "emails"@, lk.email),
        address: resolve_first(p.relationships, "addresses"@, lk.address),
        phone: resolve_first(p.relationships, "phone_numbers"@, lk.phone),
        is_child: match bool_field(p.attributes, "child"@) {
            Some(b) => b,
            None => false,
        },
        household: match resolve_first(p.relationships, "households"@, lk.household) {
            Some(h) => Some(HouseholdView { is_signed_up: None, ..h }),
            None => None,
        },
        organization: match p.relationships {
            Some(rels) => match single_linked_id(rels, "organization"@) {
                Some(id) => (lk.organization)(id),
                None => None,
            },
            None => None,
        },
        is_signed_up: false,
    }
}

impl OrganizationInfo {
    /// A copy of this organization.
    pub fn copy(&self) -> (r: OrganizationInfo)
        ensures
            r == *self,
    {
        OrganizationInfo { id: self.id.clone(), name: self.name.clone(), avatar_url: copy_opt(&self.avatar_url) }
    }
}

impl HouseholdInfo {
    /// This household without its members.
    pub fn summary(&self) -> (r: HouseholdInfo)
        ensures
            r@ == self@,
            r.people is None,
    {
        HouseholdInfo {
            id: self.id.clone(),
            name: self.name.clone(),
            avatar: copy_opt(&self.avatar),
            people: None,
            is_signed_up: self.is_signed_up,
        }
    }
}

/// The id of the first resource linked under relationship `name`.
fn linked_id(rels: &Json, name: &str) -> (r: Option<String>)
    ensures
        opt_view(r) == first_linked_id(*rels, name@),
{
    match rels.get(name) {
        Some(rel) => match rel.get("data") {
            Some(data) => match data.first_item() {
                Some(item) => item.str_field("id"),
                None => None,
            },
            None => None,
        },
        None => None,
    }
}

/// Reads a person resource, resolving its first address, email, phone number
/// and household, and its organization, through the tables of the response.
pub fn parse_person_resource(person: &PCOResource, included: &Included) -> (r: Option<PersonData>)
    ensures
        r matches Some(d) && d@ == person_from(*person, included.lookups()),
{
    let lk = Ghost(included.lookups());
    let name = match person.attributes.str_field("name") {
        Some(s) => s,
        None => String::new(),
    };
    let avatar = person.attributes.str_field("avatar");
    let is_child = match person.attributes.bool_field("child") {
        Some(b) => b,
        None => false,
    };
    let mut address: Option<Json> = None;
    let mut email: Option<String> = None;
    let mut phone: Option<String> = None;
    let mut organization: Option<OrganizationInfo> = None;
    let mut household: Option<HouseholdInfo> = None;
    if let Some(rels) = &person.relationships {
        if let Some(id) = linked_id(rels, "addresses") {
            if let Some(a) = find_last(&included.addresses, &id) {
                address = Some(a.deep_copy());
            }
        }
        if let Some(id) = linked_id(rels, "emails") {
            if let Some(e) = find_last(&included.emails, &id) {
                email = Some(e.clone());
            }
        }
        if let Some(id) = linked_id(rels, "phone_numbers") {
            if let Some(n) = find_last(&included.phones, &id) {
                phone = Some(n.clone());
            }
        }
        let org_id = match rels.get("organization") {
            Some(rel) => match rel.get("data") {
                Some(data) => data.str_field("id"),
                None => None,
            },
            None => None,
        };
        if let Some(id) = org_id {
            if let Some(o) = find_last(&included.organizations, &id) {
                organization = Some(o.copy());
            }
        }
        if let Some(id) = linked_id(rels, "households") {
            if let Some(h) = find_last(&included.households, &id) {
                let mut s = h.summary();
                s.is_signed_up = None;
                household = Some(s);
            }
        }
    }
    let d = PersonData {
        id: person.id.clone(),
        name,
        avatar,
        email,
        address,
        phone,
        is_child,
        household,
        organization,
        is_signed_up: false,
    };
    assert(d@.household == person_from(*person, lk@).household);
    Some(d)
}

/// Reads a single person response.
pub fn parse_complete_response(response: &PCOMeResponse) -> (r: Option<PersonData>)
    ensures
        r matches Some(d) && d@ == person_from(response.data, lookups_of(response.included@)),
{
    let included = process_included(&response.included);
    proof {
        lemma_indexed_lookups(included, response.included@);
    }
    parse_person_resource(&response.data, &included)
}

/// Reads each root resource of a listing as a person, in order.
pub fn parse_people(data: &Vec<PCOResource>, included: &Included) -> (r: Vec<PersonData>)
    ensures
        r@.len() == data@.len(),
        forall|i: int| 0 <= i < data@.len() ==> #[trigger] r@[i]@ == person_from(data@[i], included.lookups()),
{
    let mut people: Vec<PersonData> = Vec::new();
    let mut i: usize = 0;
    while i < data.len()
        invariant
            i <= data@.len(),
            people@.len() == i,
            forall|k: int| 0 <= k < i ==> #[trigger] people@[k]@ == person_from(data@[k], included.lookups()),
        decreases data@.len() - i,
    {
        if let Some(d) = parse_person_resource(&data[i], included) {
            people.push(d);
        }
        i = i + 1;
    }
    people
}

/// The page that a listing of people makes; absent counts read as zero.
pub fn people_page(response: &PCOPersonResponse, page: usize) -> (r: PeoplePage)
    ensures
        r.people@.len() == response.data@.len(),
        forall|i: int| 0 <= i < response.data@.len() ==>
            #[trigger] r.people@[i]@ == person_from(response.data@[i], lookups_of(response.included@)),
        r.total_count == match response.meta.total_count { Some(n) => n, None => 0 },
        r.count == match response.meta.count { Some(n) => n, None => 0 },
        r.page == page,
{
    let included = process_included(&response.included);
    proof {
        lemma_indexed_lookups(included, response.included@);
    }
    let people = parse_people(&response.data, &included);
    let total_count = match response.meta.total_count {
        Some(n) => n,
        None => 0,
    };
    let count = match response.meta.count {
        Some(n) => n,
        None => 0,
    };
    PeoplePage { people, total_count, count, page }
}

/// Only the first linked email counts: when the emails relationship lists
/// `id` first, the person's email is the one resolved for `id`, whatever ids
/// follow it.
pub proof fn lemma_first_email_wins(p: PCOResource, lk: Lookups, id: Seq<char>)
    requires
        p.relationships matches Some(rels) && first_linked_id(rels, "emails"@) == Some(id),
    ensures
        person_from(p, lk).email == (lk.email)(id),
{
}

} // verus!
