//! A household's members, as the directory lists them.
use vstd::prelude::*;
use crate::pco::person::{lookups_of, parse_people, person_from, HouseholdInfo};
use crate::pco::{find_last, household_of, last_match, process_included, PCOPersonResponse};
use crate::pco::person::lemma_indexed_lookups;

verus! {

/// Reads the listing of a household's members. The household itself is the
/// included household that the listing names as its parent; without it there
/// is nothing to read.
pub fn parse_complete_response(response: &PCOPersonResponse) -> (r: Option<HouseholdInfo>)
    ensures
        last_match(response.included@, response.meta.parent.id@, household_of()) is None
            ==> r is None,
        last_match(response.included@, response.meta.parent.id@, household_of()) matches Some(h)
            ==> (r matches Some(info) && info@ == h && (info.people matches Some(people)
                && people@.len() == response.data@.len()
                && forall|i: int| 0 <= i < people@.len() ==> #[trigger] people@[i]@
                    == person_from(response.data@[i], lookups_of(response.included@)))),
{
    let included = process_included(&response.included);
    proof {
        lemma_indexed_lookups(included, response.included@);
    }
    let found = find_last(&included.households, &response.meta.parent.id);
    assert(included.household(response.meta.parent.id@) == last_match(
        response.included@,
        response.meta.parent.id@,
        household_of(),
    ));
    match found {
        Some(h) => {
            let mut info = h.summary();
            let people = parse_people(&response.data, &included);
            info.people = Some(people);
            Some(info)
        },
        None => None,
    }
}

} // verus!
