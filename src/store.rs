//! The rows of the local directory and of the event tables, and the writes
//! that reconciliation asks of the store.
use vstd::prelude::*;
use crate::json::Json;

verus! {

/// A local organization, keyed by its external id.
#[derive(Clone, Debug)]
pub struct Organization {
    pub pco_id: String,
    pub name: String,
    pub avatar_url: Option<String>,
}

/// A local person, keyed by its external id.
#[derive(Debug)]
pub struct Person {
    pub pco_id: String,
    pub organization_id: i32,
    pub name: String,
    pub email: Option<String>,
    pub phone: Option<String>,
    pub address: Json,
    pub avatar_url: Option<String>,
    pub is_signed_up: bool,
    pub can_host: bool,
    pub is_child: bool,
    pub household_id: Option<i32>,
}

/// A local household, keyed by its external id.
#[derive(Clone, Debug)]
pub struct Household {
    pub pco_id: String,
    pub organization_id: i32,
    pub name: String,
    pub avatar_url: Option<String>,
    pub is_signed_up: bool,
    pub can_host: bool,
}

/// An account of the application: a person of an organization and the
/// directory credential issued to them. Times are seconds since the epoch.
#[derive(Clone, Debug)]
pub struct User {
    pub person_id: i32,
    pub organization_id: i32,
    pub access_token: String,
    pub refresh_token: Option<String>,
    pub token_expires_at: i64,
}

/// A persisted row and the local id that the store gave it.
#[derive(Clone, Debug)]
pub struct Stored<T> {
    pub id: i32,
    pub row: T,
}

/// A write: a new row, or new contents for the row with the given local id.
#[derive(Clone, Debug)]
pub enum Save<T> {
    Insert(T),
    Update(i32, T),
}

/// The row of a table with the external id `pco_id`; the last one if
/// several have it.
pub open spec fn person_find(t: Seq<Stored<Person>>, pco_id: Seq<char>) -> Option<Stored<Person>>
    decreases t.len(),
{
    if t.len() == 0 {
        None
    } else if t.last().row.pco_id@ == pco_id {
        Some(t.last())
    } else {
        person_find(t.drop_last(), pco_id)
    }
}

/// Local ids and external ids are each distinct within the table.
pub open spec fn person_table_wf(t: Seq<Stored<Person>>) -> bool {
    forall|i: int, j: int|
        0 <= i < t.len() && 0 <= j < t.len() && i != j ==> {
            &&& (#[trigger] t[i]).id != (#[trigger] t[j]).id
            &&& t[i].row.pco_id@ != t[j].row.pco_id@
        }
}

/// The table after a write; an inserted row gets the local id `fresh`.
pub open spec fn person_apply(t: Seq<Stored<Person>>, w: Save<Person>, fresh: i32) -> Seq<Stored<Person>> {
    match w {
        Save::Insert(p) => t.push(Stored { id: fresh, row: p }),
        Save::Update(id, p) => t.map_values(
            |s: Stored<Person>| if s.id == id { Stored { id, row: p } } else { s },
        ),
    }
}

pub proof fn lemma_find_none(t: Seq<Stored<Person>>, q: Seq<char>)
    requires
        person_find(t, q) is None,
    ensures
        forall|i: int| 0 <= i < t.len() ==> (#[trigger] t[i]).row.pco_id@ != q,
    decreases t.len(),
{
    if t.len() > 0 {
        lemma_find_none(t.drop_last(), q);
        assert forall|i: int| 0 <= i < t.len() implies (#[trigger] t[i]).row.pco_id@ != q by {
            if i < t.len() - 1 {
                assert(t[i] == t.drop_last()[i]);
            }
        }
    }
}

pub proof fn lemma_find_some(t: Seq<Stored<Person>>, q: Seq<char>)
    requires
        person_find(t, q) is Some,
    ensures
        exists|i: int| 0 <= i < t.len() && t[i] == person_find(t, q)->Some_0,
        person_find(t, q)->Some_0.row.pco_id@ == q,
    decreases t.len(),
{
    if t.last().row.pco_id@ == q {
        assert(t[t.len() - 1] == t.last());
    } else {
        lemma_find_some(t.drop_last(), q);
        let i = choose|i: int| 0 <= i < t.drop_last().len() && t.drop_last()[i] == person_find(t.drop_last(), q)->Some_0;
        assert(t[i] == t.drop_last()[i]);
    }
}

pub proof fn lemma_find_map(t: Seq<Stored<Person>>, f: spec_fn(Stored<Person>) -> Stored<Person>, q: Seq<char>)
    requires
        forall|i: int| 0 <= i < t.len() ==> (#[trigger] f(t[i])).row.pco_id@ == t[i].row.pco_id@,
    ensures
        person_find(t.map_values(f), q) == match person_find(t, q) {
            Some(s) => Some(f(s)),
            None => None,
        },
    decreases t.len(),
{
    if t.len() > 0 {
        let m = t.map_values(f);
        assert(m.drop_last() =~= t.drop_last().map_values(f));
        assert(m.last() == f(t.last()));
        assert(f(t[t.len() - 1]).row.pco_id@ == t[t.len() - 1].row.pco_id@);
        assert forall|i: int| 0 <= i < t.drop_last().len() implies (#[trigger] f(t.drop_last()[i])).row.pco_id@
            == t.drop_last()[i].row.pco_id@ by {
            assert(t.drop_last()[i] == t[i]);
        }
        lemma_find_map(t.drop_last(), f, q);
    }
}

} // verus!
