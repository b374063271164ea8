//! Potlucks and who takes part in them. A host, an attendee and each side of
//! a past pairing is a person or a household: exactly one of the two.
use vstd::prelude::*;

verus! {

/// A person or a household, by local id.
#[derive(PartialEq, Eq, Structural, Clone, Copy, Debug)]
pub enum Participant {
    Person(i32),
    Household(i32),
}

/// A pair of nullable reference columns that breaks the exactly-one rule.
#[derive(PartialEq, Eq, Structural, Clone, Copy, Debug)]
pub enum InvariantError {
    BothReferences,
    NoReference,
    EndNotAfterStart,
}

/// The participant that a pair of columns names, when exactly one is set.
pub open spec fn participant_of(person_id: Option<i32>, household_id: Option<i32>) -> Result<Participant, InvariantError> {
    match (person_id, household_id) {
        (Some(p), None) => Ok(Participant::Person(p)),
        (None, Some(h)) => Ok(Participant::Household(h)),
        (Some(_), Some(_)) => Err(InvariantError::BothReferences),
        (None, None) => Err(InvariantError::NoReference),
    }
}

/// The pair of columns that store a participant.
pub open spec fn columns_of(p: Participant) -> (Option<i32>, Option<i32>) {
    match p {
        Participant::Person(id) => (Some(id), None),
        Participant::Household(id) => (None, Some(id)),
    }
}

impl Participant {
    /// Reads a participant from its person and household columns; a pair with
    /// both or neither set is refused.
    pub fn from_columns(person_id: Option<i32>, household_id: Option<i32>) -> (r: Result<Participant, InvariantError>)
        ensures
            r == participant_of(person_id, household_id),
    {
        match (person_id, household_id) {
            (Some(p), None) => Ok(Participant::Person(p)),
            (None, Some(h)) => Ok(Participant::Household(h)),
            (Some(_), Some(_)) => Err(InvariantError::BothReferences),
            (None, None) => Err(InvariantError::NoReference),
        }
    }

    /// The person and household columns that store this participant.
    pub fn columns(&self) -> (r: (Option<i32>, Option<i32>))
        ensures
            r == columns_of(*self),
    {
        match self {
            Participant::Person(id) => (Some(*id), None),
            Participant::Household(id) => (None, Some(*id)),
        }
    }
}

/// Reading accepts exactly the pairs with one reference set, and a participant
/// written out and read back is the same participant.
pub proof fn lemma_exactly_one(person_id: Option<i32>, household_id: Option<i32>, p: Participant)
    ensures
        participant_of(person_id, household_id) is Ok <==> (person_id is Some != household_id is Some),
        participant_of(person_id, household_id) matches Ok(q) ==> columns_of(q) == (person_id, household_id),
        columns_of(p).0 is Some != columns_of(p).1 is Some,
        participant_of(columns_of(p).0, columns_of(p).1) == Ok::<Participant, InvariantError>(p),
{
}

/// A potluck of a series, with its host.
#[derive(Clone, Debug)]
pub struct Potluck {
    pub organization_id: i32,
    pub potluck_series_id: i32,
    pub host: Participant,
}

/// A participant's presence at a potluck.
#[derive(Clone, Debug)]
pub struct Attendance {
    pub potluck_id: i32,
    pub organization_id: i32,
    pub attendee: Participant,
}

/// A past pairing of two participants at a potluck.
#[derive(Clone, Debug)]
pub struct PairingHistory {
    pub potluck_id: i32,
    pub organization_id: i32,
    pub entity_a: Participant,
    pub entity_b: Participant,
}

/// A series of potlucks; dates are day numbers, and the end follows the start.
#[derive(Clone, Debug)]
pub struct PotluckSeries {
    pub organization_id: i32,
    pub name: String,
    pub start_date: i32,
    pub end_date: i32,
    pub description: Option<String>,
}

impl Potluck {
    /// A potluck row read from its columns; refused unless exactly one host
    /// reference is set.
    pub fn from_columns(
        organization_id: i32,
        potluck_series_id: i32,
        host_person_id: Option<i32>,
        host_household_id: Option<i32>,
    ) -> (r: Result<Potluck, InvariantError>)
        ensures
            participant_of(host_person_id, host_household_id) matches Err(e) ==> r == Err::<Potluck, InvariantError>(e),
            participant_of(host_person_id, host_household_id) matches Ok(h) ==> (r matches Ok(p)
                && p.host == h && p.organization_id == organization_id && p.potluck_series_id == potluck_series_id),
    {
        match Participant::from_columns(host_person_id, host_household_id) {
            Ok(host) => Ok(Potluck { organization_id, potluck_series_id, host }),
            Err(e) => Err(e),
        }
    }
}

impl Attendance {
    /// An attendance row read from its columns; refused unless exactly one
    /// attendee reference is set.
    pub fn from_columns(
        potluck_id: i32,
        organization_id: i32,
        attendee_person_id: Option<i32>,
        attendee_household_id: Option<i32>,
    ) -> (r: Result<Attendance, InvariantError>)
        ensures
            participant_of(attendee_person_id, attendee_household_id) matches Err(e) ==> r == Err::<Attendance, InvariantError>(e),
            participant_of(attendee_person_id, attendee_household_id) matches Ok(a) ==> (r matches Ok(x)
                && x.attendee == a && x.potluck_id == potluck_id && x.organization_id == organization_id),
    {
        match Participant::from_columns(attendee_person_id, attendee_household_id) {
            Ok(attendee) => Ok(Attendance { potluck_id, organization_id, attendee }),
            Err(e) => Err(e),
        }
    }
}

impl PairingHistory {
    /// A pairing row read from its columns; refused as a whole unless each
    /// side has exactly one reference set.
    pub fn from_columns(
        potluck_id: i32,
        organization_id: i32,
        a: (Option<i32>, Option<i32>),
        b: (Option<i32>, Option<i32>),
    ) -> (r: Result<PairingHistory, InvariantError>)
        ensures
            participant_of(a.0, a.1) matches Err(e) ==> r == Err::<PairingHistory, InvariantError>(e),
            participant_of(a.0, a.1) is Ok ==> (participant_of(b.0, b.1) matches Err(e)
                ==> r == Err::<PairingHistory, InvariantError>(e)),
            participant_of(a.0, a.1) is Ok && participant_of(b.0, b.1) is Ok ==> (r matches Ok(p)
                && Ok::<Participant, InvariantError>(p.entity_a) == participant_of(a.0, a.1)
                && Ok::<Participant, InvariantError>(p.entity_b) == participant_of(b.0, b.1)
                && p.potluck_id == potluck_id && p.organization_id == organization_id),
    {
        let entity_a = match Participant::from_columns(a.0, a.1) {
            Ok(x) => x,
            Err(e) => return Err(e),
        };
        let entity_b = match Participant::from_columns(b.0, b.1) {
            Ok(y) => y,
            Err(e) => return Err(e),
        };
        Ok(PairingHistory { potluck_id, organization_id, entity_a, entity_b })
    }
}

impl PotluckSeries {
    /// A series; refused unless its end date follows its start date.
    pub fn new(
        organization_id: i32,
        name: String,
        start_date: i32,
        end_date: i32,
        description: Option<String>,
    ) -> (r: Result<PotluckSeries, InvariantError>)
        ensures
            end_date <= start_date <==> r == Err::<PotluckSeries, InvariantError>(InvariantError::EndNotAfterStart),
            r matches Ok(s) ==> s.organization_id == organization_id && s.name == name
                && s.start_date == start_date && s.end_date == end_date && s.description == description,
    {
        if end_date <= start_date {
            Err(InvariantError::EndNotAfterStart)
        } else {
            Ok(PotluckSeries { organization_id, name, start_date, end_date, description })
        }
    }
}

} // verus!
