//! Resources of the external directory and the index of the resources that a
//! response includes beside its root resources.
use vstd::prelude::*;
use crate::json::{str_field, opt_view, Json};
use crate::pco::person::{HouseholdInfo, HouseholdView, OrganizationInfo, OrganizationView};

pub mod household;
pub mod person;

verus! {

/// One resource of a response: its type, its id, its attributes and, when
/// present, its relationship block.
#[derive(Debug)]
pub struct PCOResource {
    pub resource_type: String,
    pub id: String,
    pub attributes: Json,
    pub relationships: Option<Json>,
}

/// The id and type of the resource that a nested listing belongs to.
#[derive(Clone, Debug)]
pub struct Parent {
    pub id: String,
    pub resource_type: String,
}

/// The counts that a listing reports.
#[derive(Clone, Debug)]
pub struct Meta {
    pub can_include: Vec<String>,
    pub parent: Parent,
    pub total_count: Option<usize>,
    pub count: Option<usize>,
}

/// A listing: its root resources, the resources they refer to, and its counts.
#[derive(Debug)]
pub struct PCOPersonResponse {
    pub data: Vec<PCOResource>,
    pub included: Vec<PCOResource>,
    pub meta: Meta,
}

/// Among `inc`, the value that `f` gives for the last resource with this id for
/// which it gives one.
pub open spec fn last_match<T>(
    inc: Seq<PCOResource>,
    id: Seq<char>,
    f: spec_fn(PCOResource) -> Option<T>,
) -> Option<T>
    decreases inc.len(),
{
    if inc.len() == 0 {
        None
    } else if inc.last().id@ == id && f(inc.last()) is Some {
        f(inc.last())
    } else {
        last_match(inc.drop_last(), id, f)
    }
}

/// What an Address resource contributes: its attributes, whole.
pub open spec fn address_of() -> spec_fn(PCOResource) -> Option<Json> {
    |r: PCOResource|
    if r.resource_type@ == "Address"@ {
        Some(r.attributes)
    } else {
        None
    }
}

/// What an Email resource contributes: its address, when it has one.
pub open spec fn email_of() -> spec_fn(PCOResource) -> Option<Seq<char>> {
    |r: PCOResource|
    if r.resource_type@ == "Email"@ {
        str_field(r.attributes, "address"@)
    } else {
        None
    }
}

/// What a PhoneNumber resource contributes: its number, when it has one.
pub open spec fn phone_of() -> spec_fn(PCOResource) -> Option<Seq<char>> {
    |r: PCOResource|
    if r.resource_type@ == "PhoneNumber"@ {
        str_field(r.attributes, "number"@)
    } else {
        None
    }
}

/// A string attribute, or the empty string when it is absent.
pub open spec fn str_or_empty(j: Json, key: Seq<char>) -> Seq<char> {
    match str_field(j, key) {
        Some(s) => s,
        None => Seq::empty(),
    }
}

/// What an Organization resource contributes.
pub open spec fn organization_of() -> spec_fn(PCOResource) -> Option<OrganizationView> {
    |r: PCOResource|
    if r.resource_type@ == "Organization"@ {
        Some(
            OrganizationView {
                id: r.id@,
                name: str_or_empty(r.attributes, "name"@),
                avatar_url: str_field(r.attributes, "avatar_url"@),
            },
        )
    } else {
        None
    }
}

/// What a Household resource contributes; its signup state is not known here.
pub open spec fn household_of() -> spec_fn(PCOResource) -> Option<HouseholdView> {
    |r: PCOResource|
    if r.resource_type@ == "Household"@ {
        Some(
            HouseholdView {
                id: r.id@,
                name: str_or_empty(r.attributes, "name"@),
                avatar: str_field(r.attributes, "avatar"@),
                is_signed_up: None,
            },
        )
    } else {
        None
    }
}

/// The value stored last under `id` among `entries`.
pub open spec fn last_entry<T>(entries: Seq<(String, T)>, id: Seq<char>) -> Option<T>
    decreases entries.len(),
{
    if entries.len() == 0 {
        None
    } else if entries.last().0@ == id {
        Some(entries.last().1)
    } else {
        last_entry(entries.drop_last(), id)
    }
}

/// The entry stored last under `id`.
pub fn find_last<'a, T>(entries: &'a Vec<(String, T)>, id: &String) -> (r: Option<&'a T>)
    ensures
        r matches Some(v) ==> last_entry(entries@, id@) == Some(*v),
        r is None ==> last_entry(entries@, id@) is None,
{
    let mut i: usize = entries.len();
    assert(entries@.subrange(0, entries@.len() as int) =~= entries@);
    while i > 0
        invariant
            i <= entries.len(),
            last_entry(entries@, id@) == last_entry(entries@.subrange(0, i as int), id@),
        decreases i,
    {
        let ghost pre = entries@.subrange(0, i as int);
        assert(pre.drop_last() =~= entries@.subrange(0, i - 1));
        if entries[i - 1].0 == *id {
            return Some(&entries[i - 1].1);
        }
        i = i - 1;
    }
    None
}

/// The lookup tables built from the included resources, one per kind.
#[derive(Debug)]
pub struct Included {
    pub addresses: Vec<(String, Json)>,
    pub emails: Vec<(String, String)>,
    pub phones: Vec<(String, String)>,
    pub organizations: Vec<(String, OrganizationInfo)>,
    pub households: Vec<(String, HouseholdInfo)>,
}

pub open spec fn view_str_entry(e: Option<String>) -> Option<Seq<char>> {
    opt_view(e)
}

pub open spec fn view_org_entry(e: Option<OrganizationInfo>) -> Option<OrganizationView> {
    match e {
        Some(o) => Some(o@),
        None => None,
    }
}

pub open spec fn view_household_entry(e: Option<HouseholdInfo>) -> Option<HouseholdView> {
    match e {
        Some(h) => Some(h@),
        None => None,
    }
}

impl Included {
    /// The address stored under `id`.
    pub open spec fn address(&self, id: Seq<char>) -> Option<Json> {
        last_entry(self.addresses@, id)
    }

    /// The email stored under `id`.
    pub open spec fn email(&self, id: Seq<char>) -> Option<Seq<char>> {
        view_str_entry(last_entry(self.emails@, id))
    }

    /// The phone number stored under `id`.
    pub open spec fn phone(&self, id: Seq<char>) -> Option<Seq<char>> {
        view_str_entry(last_entry(self.phones@, id))
    }

    /// The organization stored under `id`.
    pub open spec fn organization(&self, id: Seq<char>) -> Option<OrganizationView> {
        view_org_entry(last_entry(self.organizations@, id))
    }

    /// The household stored under `id`.
    pub open spec fn household(&self, id: Seq<char>) -> Option<HouseholdView> {
        view_household_entry(last_entry(self.households@, id))
    }

    /// The tables hold, for each id, what the last included resource of each
    /// kind with that id contributes.
    pub open spec fn indexes(&self, inc: Seq<PCOResource>) -> bool {
        &&& forall|id: Seq<char>| #[trigger] self.address(id) == last_match(inc, id, address_of())
        &&& forall|id: Seq<char>| #[trigger] self.email(id) == last_match(inc, id, email_of())
        &&& forall|id: Seq<char>| #[trigger] self.phone(id) == last_match(inc, id, phone_of())
        &&& forall|id: Seq<char>| #[trigger] self.organization(id) == last_match(inc, id, organization_of())
        &&& forall|id: Seq<char>| #[trigger] self.household(id) == last_match(inc, id, household_of())
    }
}

/// The table after one more resource: `f` decides what, if anything, it adds.
pub open spec fn indexed_after<V>(
    before: spec_fn(Seq<char>) -> Option<V>,
    item: PCOResource,
    f: spec_fn(PCOResource) -> Option<V>,
) -> spec_fn(Seq<char>) -> Option<V> {
    |id: Seq<char>| if item.id@ == id && f(item) is Some { f(item) } else { before(id) }
}

fn index_address(r: &mut Included, item: &PCOResource)
    ensures
        forall|id: Seq<char>| #[trigger] final(r).address(id)
            == indexed_after(|k: Seq<char>| old(r).address(k), *item, address_of())(id),
        final(r).emails == old(r).emails,
        final(r).phones == old(r).phones,
        final(r).organizations == old(r).organizations,
        final(r).households == old(r).households,
{
    let ghost before = r.addresses@;
    if item.resource_type == "Address".to_owned() {
        r.addresses.push((item.id.clone(), item.attributes.deep_copy()));
        assert(r.addresses@.drop_last() =~= before);
    }
}

fn index_email(r: &mut Included, item: &PCOResource)
    ensures
        forall|id: Seq<char>| #[trigger] final(r).email(id)
            == indexed_after(|k: Seq<char>| old(r).email(k), *item, email_of())(id),
        final(r).addresses == old(r).addresses,
        final(r).phones == old(r).phones,
        final(r).organizations == old(r).organizations,
        final(r).households == old(r).households,
{
    let ghost before = r.emails@;
    if item.resource_type == "Email".to_owned() {
        if let Some(address) = item.attributes.str_field("address") {
            r.emails.push((item.id.clone(), address));
            assert(r.emails@.drop_last() =~= before);
        }
    }
}

fn index_phone(r: &mut Included, item: &PCOResource)
    ensures
        forall|id: Seq<char>| #[trigger] final(r).phone(id)
            == indexed_after(|k: Seq<char>| old(r).phone(k), *item, phone_of())(id),
        final(r).addresses == old(r).addresses,
        final(r).emails == old(r).emails,
        final(r).organizations == old(r).organizations,
        final(r).households == old(r).households,
{
    let ghost before = r.phones@;
    if item.resource_type == "PhoneNumber".to_owned() {
        if let Some(number) = item.attributes.str_field("number") {
            r.phones.push((item.id.clone(), number));
            assert(r.phones@.drop_last() =~= before);
        }
    }
}

fn index_organization(r: &mut Included, item: &PCOResource)
    ensures
        forall|id: Seq<char>| #[trigger] final(r).organization(id)
            == indexed_after(|k: Seq<char>| old(r).organization(k), *item, organization_of())(id),
        final(r).addresses == old(r).addresses,
        final(r).emails == old(r).emails,
        final(r).phones == old(r).phones,
        final(r).households == old(r).households,
{
    let ghost before = r.organizations@;
    if item.resource_type == "Organization".to_owned() {
        let name = match item.attributes.str_field("name") {
            Some(s) => s,
            None => String::new(),
        };
        let info = OrganizationInfo {
            id: item.id.clone(),
            name,
            avatar_url: item.attributes.str_field("avatar_url"),
        };
        r.organizations.push((item.id.clone(), info));
        assert(r.organizations@.drop_last() =~= before);
    }
}

fn index_household(r: &mut Included, item: &PCOResource)
    ensures
        forall|id: Seq<char>| #[trigger] final(r).household(id)
            == indexed_after(|k: Seq<char>| old(r).household(k), *item, household_of())(id),
        final(r).addresses == old(r).addresses,
        final(r).emails == old(r).emails,
        final(r).phones == old(r).phones,
        final(r).organizations == old(r).organizations,
{
    let ghost before = r.households@;
    if item.resource_type == "Household".to_owned() {
        let name = match item.attributes.str_field("name") {
            Some(s) => s,
            None => String::new(),
        };
        let info = HouseholdInfo {
            id: item.id.clone(),
            name,
            avatar: item.attributes.str_field("avatar"),
            people: None,
            is_signed_up: None,
        };
        r.households.push((item.id.clone(), info));
        assert(r.households@.drop_last() =~= before);
    }
}

/// Builds the lookup tables from the included resources. Resources of other
/// types, and emails or phone numbers without their value, are passed over.
pub fn process_included(included: &Vec<PCOResource>) -> (r: Included)
    ensures
        r.indexes(included@),
{
    let mut r = Included {
        addresses: Vec::new(),
        emails: Vec::new(),
        phones: Vec::new(),
        organizations: Vec::new(),
        households: Vec::new(),
    };
    let mut i: usize = 0;
    assert(included@.subrange(0, 0) =~= Seq::<PCOResource>::empty());
    while i < included.len()
        invariant
            i <= included.len(),
            r.indexes(included@.subrange(0, i as int)),
        decreases included.len() - i,
    {
        let ghost old_r = r;
        let ghost pre = included@.subrange(0, i as int);
        let ghost next = included@.subrange(0, i + 1);
        assert(next.drop_last() =~= pre);
        let item = &included[i];
        index_address(&mut r, item);
        let ghost r1 = r;
        index_email(&mut r, item);
        let ghost r2 = r;
        index_phone(&mut r, item);
        let ghost r3 = r;
        index_organization(&mut r, item);
        let ghost r4 = r;
        index_household(&mut r, item);
        proof {
            assert(next.last() == *item);
            assert forall|id: Seq<char>| #[trigger] r.address(id) == last_match(next, id, address_of()) by {
                assert(old_r.address(id) == last_match(pre, id, address_of()));
                assert(r.address(id) == r1.address(id));
            }
            assert forall|id: Seq<char>| #[trigger] r.email(id) == last_match(next, id, email_of()) by {
                assert(old_r.email(id) == last_match(pre, id, email_of()));
                assert(r.email(id) == r2.email(id));
            }
            assert forall|id: Seq<char>| #[trigger] r.phone(id) == last_match(next, id, phone_of()) by {
                assert(old_r.phone(id) == last_match(pre, id, phone_of()));
                assert(r.phone(id) == r3.phone(id));
            }
            assert forall|id: Seq<char>| #[trigger] r.organization(id) == last_match(next, id, organization_of()) by {
                assert(old_r.organization(id) == last_match(pre, id, organization_of()));
                assert(r.organization(id) == r4.organization(id));
            }
            assert forall|id: Seq<char>| #[trigger] r.household(id) == last_match(next, id, household_of()) by {
                assert(old_r.household(id) == last_match(pre, id, household_of()));
            }
        }
        i = i + 1;
    }
    assert(included@.subrange(0, included@.len() as int) =~= included@);
    r
}

} // verus!
