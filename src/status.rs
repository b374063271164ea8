//! Marking a page of directory people with their local signup state, without
//! writing anything.
use vstd::prelude::*;
use crate::pco::person::{HouseholdInfo, PersonData};

verus! {

/// The signup flag stored for an external id: that of the first row with it.
pub open spec fn stored_flag(rows: Seq<(String, bool)>, id: Seq<char>) -> Option<bool>
    decreases rows.len(),
{
    if rows.len() == 0 {
        None
    } else if rows[0].0@ == id {
        Some(rows[0].1)
    } else {
        stored_flag(rows.drop_first(), id)
    }
}

/// The external ids of the households of `people`, in order, skipping people
/// without one.
pub open spec fn household_ids_of(people: Seq<PersonData>) -> Seq<Seq<char>>
    decreases people.len(),
{
    if people.len() == 0 {
        Seq::empty()
    } else {
        let rest = household_ids_of(people.drop_last());
        match people.last().household {
            Some(h) => rest.push(h.id@),
            None => rest,
        }
    }
}

/// A person marked with the stored flags: the person's own when a row has
/// their id, the household's when a row has its id; unmatched ones unchanged.
pub open spec fn marked(p: PersonData, persons: Seq<(String, bool)>, households: Seq<(String, bool)>) -> PersonData {
    PersonData {
        is_signed_up: match stored_flag(persons, p.id@) {
            Some(b) => b,
            None => p.is_signed_up,
        },
        household: match p.household {
            Some(h) => Some(HouseholdInfo {
                is_signed_up: match stored_flag(households, h.id@) {
                    Some(b) => Some(b),
                    None => h.is_signed_up,
                },
                ..h
            }),
            None => None,
        },
        ..p
    }
}

fn find_flag(rows: &Vec<(String, bool)>, id: &String) -> (r: Option<bool>)
    ensures
        r == stored_flag(rows@, id@),
{
    let mut i: usize = 0;
    assert(rows@.subrange(0, rows@.len() as int) =~= rows@);
    while i < rows.len()
        invariant
            i <= rows@.len(),
            stored_flag(rows@, id@) == stored_flag(rows@.subrange(i as int, rows@.len() as int), id@),
        decreases rows@.len() - i,
    {
        let ghost rest = rows@.subrange(i as int, rows@.len() as int);
        assert(rest.drop_first() =~= rows@.subrange(i + 1, rows@.len() as int));
        if rows[i].0 == *id {
            return Some(rows[i].1);
        }
        i = i + 1;
    }
    None
}

/// The external ids of the people of a page, in order.
pub fn person_ids(people: &Vec<PersonData>) -> (r: Vec<String>)
    ensures
        r@.len() == people@.len(),
        forall|i: int| 0 <= i < people@.len() ==> #[trigger] r@[i]@ == people@[i].id@,
{
    let mut r: Vec<String> = Vec::new();
    let mut i: usize = 0;
    while i < people.len()
        invariant
            i <= people@.len(),
            r@.len() == i,
            forall|k: int| 0 <= k < i ==> #[trigger] r@[k]@ == people@[k].id@,
        decreases people@.len() - i,
    {
        r.push(people[i].id.clone());
        i = i + 1;
    }
    r
}

/// The external ids of the households of the people of a page.
pub fn household_ids(people: &Vec<PersonData>) -> (r: Vec<String>)
    ensures
        r@.map_values(|s: String| s@) == household_ids_of(people@),
{
    let mut r: Vec<String> = Vec::new();
    let mut i: usize = 0;
    assert(people@.subrange(0, 0) =~= Seq::<PersonData>::empty());
    assert(r@.map_values(|s: String| s@) =~= Seq::<Seq<char>>::empty());
    while i < people.len()
        invariant
            i <= people@.len(),
            r@.map_values(|s: String| s@) == household_ids_of(people@.subrange(0, i as int)),
        decreases people@.len() - i,
    {
        let ghost before = r@;
        assert(people@.subrange(0, i + 1).drop_last() =~= people@.subrange(0, i as int));
        if let Some(h) = &people[i].household {
            r.push(h.id.clone());
            assert(r@.map_values(|s: String| s@) =~= before.map_values(|s: String| s@).push(h.id@));
        }
        i = i + 1;
    }
    assert(people@.subrange(0, people@.len() as int) =~= people@);
    r
}

/// Marks each person, and each person's household, with the signup flag of
/// the matching stored row. `persons` and `households` pair an external id
/// with the stored flag.
pub fn apply_signup_status(
    people: &mut Vec<PersonData>,
    persons: &Vec<(String, bool)>,
    households: &Vec<(String, bool)>,
)
    ensures
        final(people)@.len() == old(people)@.len(),
        forall|i: int| 0 <= i < old(people)@.len() ==>
            #[trigger] final(people)@[i] == marked(old(people)@[i], persons@, households@),
{
    let ghost start = people@;
    let mut i: usize = 0;
    while i < people.len()
        invariant
            i <= people@.len(),
            people@.len() == start.len(),
            forall|k: int| 0 <= k < i ==> #[trigger] people@[k] == marked(start[k], persons@, households@),
            forall|k: int| i <= k < people@.len() ==> #[trigger] people@[k] == start[k],
        decreases people@.len() - i,
    {
        if let Some(b) = find_flag(persons, &people[i].id) {
            people[i].is_signed_up = b;
        }
        let hflag = match &people[i].household {
            Some(h) => find_flag(households, &h.id),
            None => None,
        };
        if let Some(b) = hflag {
            if let Some(h) = &mut people[i].household {
                h.is_signed_up = Some(b);
            }
        }
        i = i + 1;
    }
}

} // verus!
