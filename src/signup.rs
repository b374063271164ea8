//! Signing up a household or a person as a transaction against the local
//! store. Each machine decides the next store command from the reply to the
//! last one; the caller runs the commands inside one transaction. Any failure
//! inside the transaction is answered with a rollback, and a commit is asked
//! for only after every write succeeded.
use vstd::prelude::*;
use crate::json::copy_opt;
use crate::pco::person::{HouseholdInfo, OrganizationInfo, PersonData};
use crate::reconcile::{
    household_for_signup, household_signup_write, member_for_household, member_write,
    organization_upsert, organization_write, person_for_signup, person_signup_write,
};
use crate::store::{Household, Organization, Person, Save, Stored, User};

verus! {

/// A store command, run inside the open transaction.
#[derive(Debug)]
pub enum Command {
    /// Look up an organization by external id.
    FindOrganization(String),
    /// Load an organization by local id.
    LoadOrganization(i32),
    SaveOrganization(Save<Organization>),
    /// Look up a household by external id.
    FindHousehold(String),
    SaveHousehold(Save<Household>),
    /// Look up a person by external id.
    FindPerson(String),
    SavePerson(Save<Person>),
    /// Look up the user of a person in an organization.
    FindUser(i32, i32),
    SaveUser(Save<User>),
    Commit,
    Rollback,
}

/// The store's answer to a command.
#[derive(Debug)]
pub enum Reply {
    OrganizationFound(Option<Stored<Organization>>),
    OrganizationSaved(Stored<Organization>),
    HouseholdFound(Option<Stored<Household>>),
    HouseholdSaved(Stored<Household>),
    PersonFound(Option<Stored<Person>>),
    PersonSaved(Stored<Person>),
    UserFound(Option<Stored<User>>),
    UserSaved(Stored<User>),
    Committed,
    RolledBack,
    Failed,
}

/// The kind of row a failed command was about.
#[derive(PartialEq, Eq, Structural, Clone, Copy, Debug)]
pub enum Target {
    Organization,
    Household,
    Person,
    User,
}

/// Why a signup did not take effect.
#[derive(PartialEq, Eq, Structural, Clone, Copy, Debug)]
pub enum SignupError {
    /// A lookup failed; the transaction was rolled back.
    QueryFailed(Target),
    /// A write failed; the transaction was rolled back.
    WriteFailed(Target),
    /// The person's own organization is not stored; rolled back.
    OrganizationNotFound,
    /// The commit failed: nothing was applied.
    CommitFailed,
    /// The rollback failed: the store needs auditing.
    RollbackFailed,
    /// The machine had already finished.
    Finished,
}

/// What the caller does next: run a command, or stop with the outcome.
#[derive(Debug)]
pub enum Step<T, E> {
    Run(Command),
    Finish(Result<T, E>),
}

pub open spec fn is_commit<T, E>(s: Step<T, E>) -> bool {
    s matches Step::Run(Command::Commit)
}

pub open spec fn is_rollback<T, E>(s: Step<T, E>) -> bool {
    s matches Step::Run(Command::Rollback)
}

fn copy_household_row(h: &Stored<Household>) -> (r: Stored<Household>)
    ensures
        r == *h,
{
    Stored {
        id: h.id,
        row: Household {
            pco_id: h.row.pco_id.clone(),
            organization_id: h.row.organization_id,
            name: h.row.name.clone(),
            avatar_url: copy_opt(&h.row.avatar_url),
            is_signed_up: h.row.is_signed_up,
            can_host: h.row.can_host,
        },
    }
}

fn copy_person_row(p: &Stored<Person>) -> (r: Stored<Person>)
    ensures
        r == *p,
{
    Stored {
        id: p.id,
        row: Person {
            pco_id: p.row.pco_id.clone(),
            organization_id: p.row.organization_id,
            name: p.row.name.clone(),
            email: copy_opt(&p.row.email),
            phone: copy_opt(&p.row.phone),
            address: p.row.address.deep_copy(),
            avatar_url: copy_opt(&p.row.avatar_url),
            is_signed_up: p.row.is_signed_up,
            can_host: p.row.can_host,
            is_child: p.row.is_child,
            household_id: p.row.household_id,
        },
    }
}

/// Where a household signup stands.
pub enum HouseholdStage {
    FindHousehold,
    SaveHousehold,
    FindPerson(usize),
    SavePerson(usize),
    Commit,
    RollBack(SignupError),
    Done,
}

/// Signing up a household and the members the directory lists for it: the
/// household is written first, then each member, linked to it.
pub struct HouseholdSignup {
    pub org_id: i32,
    pub household: HouseholdInfo,
    pub people: Vec<PersonData>,
    pub stage: HouseholdStage,
    pub saved: Option<Stored<Household>>,
}

impl HouseholdSignup {
    pub open spec fn wf(&self) -> bool {
        match self.stage {
            HouseholdStage::FindPerson(i) => i < self.people@.len() && self.saved is Some,
            HouseholdStage::SavePerson(i) => i < self.people@.len() && self.saved is Some,
            HouseholdStage::Commit => self.saved is Some,
            _ => true,
        }
    }

    /// The stages inside the transaction before its commit.
    pub open spec fn is_writing(&self) -> bool {
        ||| self.stage is FindHousehold
        ||| self.stage is SaveHousehold
        ||| self.stage is FindPerson
        ||| self.stage is SavePerson
    }

    /// Leaving the transaction on a failure: roll it back.
    pub open spec fn fail(self, e: SignupError) -> (HouseholdSignup, Step<Stored<Household>, SignupError>) {
        (HouseholdSignup { stage: HouseholdStage::RollBack(e), ..self }, Step::Run(Command::Rollback))
    }

    /// After the household or the member at `i - 1` is written: the next
    /// member, or the commit.
    pub open spec fn after_write(self, i: int) -> (HouseholdSignup, Step<Stored<Household>, SignupError>) {
        if i < self.people@.len() {
            (
                HouseholdSignup { stage: HouseholdStage::FindPerson(i as usize), ..self },
                Step::Run(Command::FindPerson(self.people@[i].id)),
            )
        } else {
            (HouseholdSignup { stage: HouseholdStage::Commit, ..self }, Step::Run(Command::Commit))
        }
    }

    /// The next state and step, given the reply to the last command.
    pub open spec fn next(self, reply: Reply) -> (HouseholdSignup, Step<Stored<Household>, SignupError>) {
        match self.stage {
            HouseholdStage::FindHousehold => match reply {
                Reply::HouseholdFound(e) => (
                    HouseholdSignup { stage: HouseholdStage::SaveHousehold, ..self },
                    Step::Run(Command::SaveHousehold(household_signup_write(e, self.household, self.org_id))),
                ),
                _ => self.fail(SignupError::QueryFailed(Target::Household)),
            },
            HouseholdStage::SaveHousehold => match reply {
                Reply::HouseholdSaved(row) => HouseholdSignup { saved: Some(row), ..self }.after_write(0),
                _ => self.fail(SignupError::WriteFailed(Target::Household)),
            },
            HouseholdStage::FindPerson(i) => match reply {
                Reply::PersonFound(e) => (
                    HouseholdSignup { stage: HouseholdStage::SavePerson(i), ..self },
                    Step::Run(Command::SavePerson(
                        member_write(e, self.people@[i as int], self.saved->Some_0.id, self.org_id),
                    )),
                ),
                _ => self.fail(SignupError::QueryFailed(Target::Person)),
            },
            HouseholdStage::SavePerson(i) => match reply {
                Reply::PersonSaved(_) => self.after_write(i + 1),
                _ => self.fail(SignupError::WriteFailed(Target::Person)),
            },
            HouseholdStage::Commit => match reply {
                Reply::Committed => (
                    HouseholdSignup { stage: HouseholdStage::Done, ..self },
                    Step::Finish(Ok(self.saved->Some_0)),
                ),
                _ => (
                    HouseholdSignup { stage: HouseholdStage::Done, ..self },
                    Step::Finish(Err(SignupError::CommitFailed)),
                ),
            },
            HouseholdStage::RollBack(e) => match reply {
                Reply::RolledBack => (
                    HouseholdSignup { stage: HouseholdStage::Done, ..self },
                    Step::Finish(Err(e)),
                ),
                _ => (
                    HouseholdSignup { stage: HouseholdStage::Done, ..self },
                    Step::Finish(Err(SignupError::RollbackFailed)),
                ),
            },
            HouseholdStage::Done => (self, Step::Finish(Err(SignupError::Finished))),
        }
    }

    /// Starts the signup of `household` into organization `org_id`; the first
    /// command looks the household up. Members that the directory listed come
    /// with the household.
    pub fn new(org_id: i32, household: HouseholdInfo) -> (r: (HouseholdSignup, Command))
        ensures
            r.0.wf(),
            r.0.stage is FindHousehold,
            r.0.org_id == org_id,
            r.0.household@ == household@,
            r.0.household.id == household.id,
            r.0.household.name == household.name,
            r.0.household.avatar == household.avatar,
            r.0.people@ == match household.people { Some(p) => p@, None => Seq::empty() },
            r.0.saved is None,
            r.1 == Command::FindHousehold(household.id),
    {
        let HouseholdInfo { id, name, avatar, people, is_signed_up } = household;
        let people = match people {
            Some(p) => p,
            None => Vec::new(),
        };
        let first = Command::FindHousehold(id.clone());
        let household = HouseholdInfo { id, name, avatar, people: None, is_signed_up };
        (HouseholdSignup { org_id, household, people, stage: HouseholdStage::FindHousehold, saved: None }, first)
    }

    fn after_write_exec(&mut self, i: usize) -> (s: Step<Stored<Household>, SignupError>)
        requires
            old(self).saved is Some,
            i <= old(self).people@.len(),
        ensures
            (*final(self), s) == old(self).after_write(i as int),
    {
        if i < self.people.len() {
            self.stage = HouseholdStage::FindPerson(i);
            Step::Run(Command::FindPerson(self.people[i].id.clone()))
        } else {
            self.stage = HouseholdStage::Commit;
            Step::Run(Command::Commit)
        }
    }

    /// Takes the reply to the last command and gives the next step.
    pub fn step(&mut self, reply: Reply) -> (s: Step<Stored<Household>, SignupError>)
        requires
            old(self).wf(),
        ensures
            (*final(self), s) == old(self).next(reply),
            final(self).wf(),
    {
        match self.stage {
            HouseholdStage::FindHousehold => match reply {
                Reply::HouseholdFound(e) => {
                    let w = household_for_signup(e.as_ref(), &self.household, self.org_id);
                    self.stage = HouseholdStage::SaveHousehold;
                    Step::Run(Command::SaveHousehold(w))
                },
                _ => {
                    self.stage = HouseholdStage::RollBack(SignupError::QueryFailed(Target::Household));
                    Step::Run(Command::Rollback)
                },
            },
            HouseholdStage::SaveHousehold => match reply {
                Reply::HouseholdSaved(row) => {
                    self.saved = Some(row);
                    self.after_write_exec(0)
                },
                _ => {
                    self.stage = HouseholdStage::RollBack(SignupError::WriteFailed(Target::Household));
                    Step::Run(Command::Rollback)
                },
            },
            HouseholdStage::FindPerson(i) => match reply {
                Reply::PersonFound(e) => {
                    let hid = match &self.saved {
                        Some(h) => h.id,
                        None => 0,
                    };
                    let w = member_for_household(e.as_ref(), &self.people[i], hid, self.org_id);
                    self.stage = HouseholdStage::SavePerson(i);
                    Step::Run(Command::SavePerson(w))
                },
                _ => {
                    self.stage = HouseholdStage::RollBack(SignupError::QueryFailed(Target::Person));
                    Step::Run(Command::Rollback)
                },
            },
            HouseholdStage::SavePerson(i) => match reply {
                Reply::PersonSaved(_) => {
                    let n = self.people.len();
                    assert(i < n);
                    self.after_write_exec(i + 1)
                },
                _ => {
                    self.stage = HouseholdStage::RollBack(SignupError::WriteFailed(Target::Person));
                    Step::Run(Command::Rollback)
                },
            },
            HouseholdStage::Commit => match reply {
                Reply::Committed => {
                    self.stage = HouseholdStage::Done;
                    match &self.saved {
                        Some(h) => Step::Finish(Ok(copy_household_row(h))),
                        None => Step::Finish(Err(SignupError::Finished)),
                    }
                },
                _ => {
                    self.stage = HouseholdStage::Done;
                    Step::Finish(Err(SignupError::CommitFailed))
                },
            },
            HouseholdStage::RollBack(e) => {
                self.stage = HouseholdStage::Done;
                match reply {
                    Reply::RolledBack => Step::Finish(Err(e)),
                    _ => Step::Finish(Err(SignupError::RollbackFailed)),
                }
            },
            HouseholdStage::Done => Step::Finish(Err(SignupError::Finished)),
        }
    }
}

/// Whether running `m` on `replies` asks, at some step, for a commit.
pub open spec fn household_commits(m: HouseholdSignup, replies: Seq<Reply>) -> bool
    decreases replies.len(),
{
    if replies.len() == 0 {
        false
    } else {
        is_commit(m.next(replies[0]).1) || household_commits(m.next(replies[0]).0, replies.drop_first())
    }
}

proof fn lemma_household_closing_never_commits(m: HouseholdSignup, replies: Seq<Reply>)
    requires
        m.stage is RollBack || m.stage is Done,
    ensures
        !household_commits(m, replies),
    decreases replies.len(),
{
    if replies.len() > 0 {
        lemma_household_closing_never_commits(m.next(replies[0]).0, replies.drop_first());
    }
}

/// A failure reported while the household or its members are being looked up
/// or written is answered with a rollback, and no commit follows, whatever
/// the store answers afterwards: none of the signup's writes is kept.
pub proof fn lemma_household_failure_rolls_back(m: HouseholdSignup, replies: Seq<Reply>)
    requires
        m.wf(),
        m.is_writing(),
        replies.len() > 0,
        replies[0] is Failed,
    ensures
        is_rollback(m.next(replies[0]).1),
        !household_commits(m, replies),
{
    lemma_household_closing_never_commits(m.next(replies[0]).0, replies.drop_first());
}

/// Where a person signup stands.
pub enum PersonStage {
    FindOrganization,
    SaveOrganization,
    LoadOrganization,
    FindPerson(i32),
    SavePerson,
    Commit,
    RollBack(SignupError),
    Done,
}

/// Signing up one person: the organization the directory gives for them is
/// written first (or, without one, the caller's organization is loaded), then
/// the person, signed up, in that organization.
pub struct PersonSignup {
    pub org_id: i32,
    pub person: PersonData,
    pub stage: PersonStage,
    pub saved: Option<Stored<Person>>,
}

impl PersonSignup {
    pub open spec fn wf(&self) -> bool {
        &&& (self.stage is FindOrganization || self.stage is SaveOrganization) ==> self.person.organization is Some
        &&& self.stage is Commit ==> self.saved is Some
    }

    /// The stages inside the transaction before its commit.
    pub open spec fn is_writing(&self) -> bool {
        ||| self.stage is FindOrganization
        ||| self.stage is SaveOrganization
        ||| self.stage is LoadOrganization
        ||| self.stage is FindPerson
        ||| self.stage is SavePerson
    }

    pub open spec fn fail(self, e: SignupError) -> (PersonSignup, Step<Stored<Person>, SignupError>) {
        (PersonSignup { stage: PersonStage::RollBack(e), ..self }, Step::Run(Command::Rollback))
    }

    /// Once the organization is known by its local id: look the person up.
    pub open spec fn with_organization(self, org: i32) -> (PersonSignup, Step<Stored<Person>, SignupError>) {
        (PersonSignup { stage: PersonStage::FindPerson(org), ..self }, Step::Run(Command::FindPerson(self.person.id)))
    }

    /// The next state and step, given the reply to the last command.
    pub open spec fn next(self, reply: Reply) -> (PersonSignup, Step<Stored<Person>, SignupError>) {
        match self.stage {
            PersonStage::FindOrganization => match reply {
                Reply::OrganizationFound(e) => (
                    PersonSignup { stage: PersonStage::SaveOrganization, ..self },
                    Step::Run(Command::SaveOrganization(organization_write(e, self.person.organization->Some_0))),
                ),
                _ => self.fail(SignupError::QueryFailed(Target::Organization)),
            },
            PersonStage::SaveOrganization => match reply {
                Reply::OrganizationSaved(row) => self.with_organization(row.id),
                _ => self.fail(SignupError::WriteFailed(Target::Organization)),
            },
            PersonStage::LoadOrganization => match reply {
                Reply::OrganizationFound(Some(row)) => self.with_organization(row.id),
                _ => self.fail(SignupError::OrganizationNotFound),
            },
            PersonStage::FindPerson(org) => match reply {
                Reply::PersonFound(e) => (
                    PersonSignup { stage: PersonStage::SavePerson, ..self },
                    Step::Run(Command::SavePerson(person_signup_write(e, self.person, org))),
                ),
                _ => self.fail(SignupError::QueryFailed(Target::Person)),
            },
            PersonStage::SavePerson => match reply {
                Reply::PersonSaved(row) => (
                    PersonSignup { stage: PersonStage::Commit, saved: Some(row), ..self },
                    Step::Run(Command::Commit),
                ),
                _ => self.fail(SignupError::WriteFailed(Target::Person)),
            },
            PersonStage::Commit => match reply {
                Reply::Committed => (
                    PersonSignup { stage: PersonStage::Done, ..self },
                    Step::Finish(Ok(self.saved->Some_0)),
                ),
                _ => (
                    PersonSignup { stage: PersonStage::Done, ..self },
                    Step::Finish(Err(SignupError::CommitFailed)),
                ),
            },
            PersonStage::RollBack(e) => match reply {
                Reply::RolledBack => (PersonSignup { stage: PersonStage::Done, ..self }, Step::Finish(Err(e))),
                _ => (
                    PersonSignup { stage: PersonStage::Done, ..self },
                    Step::Finish(Err(SignupError::RollbackFailed)),
                ),
            },
            PersonStage::Done => (self, Step::Finish(Err(SignupError::Finished))),
        }
    }

    /// Starts the signup of `person`; `org_id` is the caller's organization,
    /// used when the directory gives the person none.
    pub fn new(org_id: i32, person: PersonData) -> (r: (PersonSignup, Command))
        ensures
            r.0.wf(),
            r.0.org_id == org_id,
            r.0.person == person,
            r.0.saved is None,
            person.organization matches Some(o) ==> r.0.stage is FindOrganization && r.1 == Command::FindOrganization(o.id),
            person.organization is None ==> r.0.stage is LoadOrganization && r.1 == Command::LoadOrganization(org_id),
    {
        let (stage, first) = match &person.organization {
            Some(o) => (PersonStage::FindOrganization, Command::FindOrganization(o.id.clone())),
            None => (PersonStage::LoadOrganization, Command::LoadOrganization(org_id)),
        };
        (PersonSignup { org_id, person, stage, saved: None }, first)
    }

    /// Takes the reply to the last command and gives the next step.
    pub fn step(&mut self, reply: Reply) -> (s: Step<Stored<Person>, SignupError>)
        requires
            old(self).wf(),
        ensures
            (*final(self), s) == old(self).next(reply),
            final(self).wf(),
    {
        match self.stage {
            PersonStage::FindOrganization => match reply {
                Reply::OrganizationFound(e) => match &self.person.organization {
                    Some(o) => {
                        let w = organization_upsert(e.as_ref(), o);
                        self.stage = PersonStage::SaveOrganization;
                        Step::Run(Command::SaveOrganization(w))
                    },
                    None => {
                        self.stage = PersonStage::RollBack(SignupError::OrganizationNotFound);
                        Step::Run(Command::Rollback)
                    },
                },
                _ => {
                    self.stage = PersonStage::RollBack(SignupError::QueryFailed(Target::Organization));
                    Step::Run(Command::Rollback)
                },
            },
            PersonStage::SaveOrganization => match reply {
                Reply::OrganizationSaved(row) => {
                    self.stage = PersonStage::FindPerson(row.id);
                    Step::Run(Command::FindPerson(self.person.id.clone()))
                },
                _ => {
                    self.stage = PersonStage::RollBack(SignupError::WriteFailed(Target::Organization));
                    Step::Run(Command::Rollback)
                },
            },
            PersonStage::LoadOrganization => match reply {
                Reply::OrganizationFound(Some(row)) => {
                    self.stage = PersonStage::FindPerson(row.id);
                    Step::Run(Command::FindPerson(self.person.id.clone()))
                },
                _ => {
                    self.stage = PersonStage::RollBack(SignupError::OrganizationNotFound);
                    Step::Run(Command::Rollback)
                },
            },
            PersonStage::FindPerson(org) => match reply {
                Reply::PersonFound(e) => {
                    let w = person_for_signup(e.as_ref(), &self.person, org);
                    self.stage = PersonStage::SavePerson;
                    Step::Run(Command::SavePerson(w))
                },
                _ => {
                    self.stage = PersonStage::RollBack(SignupError::QueryFailed(Target::Person));
                    Step::Run(Command::Rollback)
                },
            },
            PersonStage::SavePerson => match reply {
                Reply::PersonSaved(row) => {
                    self.stage = PersonStage::Commit;
                    self.saved = Some(row);
                    Step::Run(Command::Commit)
                },
                _ => {
                    self.stage = PersonStage::RollBack(SignupError::WriteFailed(Target::Person));
                    Step::Run(Command::Rollback)
                },
            },
            PersonStage::Commit => {
                self.stage = PersonStage::Done;
                match reply {
                    Reply::Committed => match &self.saved {
                        Some(p) => Step::Finish(Ok(copy_person_row(p))),
                        None => Step::Finish(Err(SignupError::Finished)),
                    },
                    _ => Step::Finish(Err(SignupError::CommitFailed)),
                }
            },
            PersonStage::RollBack(e) => {
                self.stage = PersonStage::Done;
                match reply {
                    Reply::RolledBack => Step::Finish(Err(e)),
                    _ => Step::Finish(Err(SignupError::RollbackFailed)),
                }
            },
            PersonStage::Done => Step::Finish(Err(SignupError::Finished)),
        }
    }
}

/// Whether running `m` on `replies` asks, at some step, for a commit.
pub open spec fn person_commits(m: PersonSignup, replies: Seq<Reply>) -> bool
    decreases replies.len(),
{
    if replies.len() == 0 {
        false
    } else {
        is_commit(m.next(replies[0]).1) || person_commits(m.next(replies[0]).0, replies.drop_first())
    }
}

proof fn lemma_person_closing_never_commits(m: PersonSignup, replies: Seq<Reply>)
    requires
        m.stage is RollBack || m.stage is Done,
    ensures
        !person_commits(m, replies),
    decreases replies.len(),
{
    if replies.len() > 0 {
        lemma_person_closing_never_commits(m.next(replies[0]).0, replies.drop_first());
    }
}

/// A failure reported while the organization or the person is being looked
/// up or written is answered with a rollback, and no commit follows.
pub proof fn lemma_person_failure_rolls_back(m: PersonSignup, replies: Seq<Reply>)
    requires
        m.wf(),
        m.is_writing(),
        replies.len() > 0,
        replies[0] is Failed,
    ensures
        is_rollback(m.next(replies[0]).1),
        !person_commits(m, replies),
{
    lemma_person_closing_never_commits(m.next(replies[0]).0, replies.drop_first());
}

} // verus!
