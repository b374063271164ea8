//! Recording a user who logs in: their organization, their person, their
//! household when the directory gives one, and their user with the new
//! credential. Each write stands on its own; there is no transaction.
use vstd::prelude::*;
use crate::auth::Credential;
use crate::pco::person::{OrganizationInfo, PersonData};
use crate::reconcile::{
    household_for_login, household_login_write, organization_upsert, organization_write,
    person_for_login, person_login_write, user_for_login, user_login_write,
};
use crate::signup::{Command, Reply, Step, Target};
use crate::store::{Person, Stored, User};

verus! {

/// Why a login could not be recorded.
#[derive(PartialEq, Eq, Structural, Clone, Copy, Debug)]
pub enum LoginError {
    /// The directory did not describe the user.
    UnknownUser,
    /// The directory gave the user no organization.
    UnknownOrganization,
    /// A lookup or write failed.
    Store(Target),
    /// The machine had already finished.
    Finished,
}

/// Where a login stands; the local organization id is carried once known.
pub enum LoginStage {
    FindOrganization,
    SaveOrganization,
    FindPerson(i32),
    FindHousehold(i32, Option<Stored<Person>>),
    SaveHousehold(i32, Option<Stored<Person>>),
    SavePerson(i32),
    FindUser(i32, i32),
    SaveUser,
    Done,
}

pub struct Login {
    pub person: PersonData,
    pub organization: OrganizationInfo,
    pub credential: Credential,
    pub stage: LoginStage,
}

impl Login {
    pub open spec fn wf(&self) -> bool {
        (self.stage is FindHousehold || self.stage is SaveHousehold) ==> self.person.household is Some
    }

    pub open spec fn fail(self, t: Target) -> (Login, Step<Stored<User>, LoginError>) {
        (Login { stage: LoginStage::Done, ..self }, Step::Finish(Err(LoginError::Store(t))))
    }

    /// The next state and step, given the reply to the last command.
    pub open spec fn next(self, reply: Reply) -> (Login, Step<Stored<User>, LoginError>) {
        match self.stage {
            LoginStage::FindOrganization => match reply {
                Reply::OrganizationFound(e) => (
                    Login { stage: LoginStage::SaveOrganization, ..self },
                    Step::Run(Command::SaveOrganization(organization_write(e, self.organization))),
                ),
                _ => self.fail(Target::Organization),
            },
            LoginStage::SaveOrganization => match reply {
                Reply::OrganizationSaved(row) => (
                    Login { stage: LoginStage::FindPerson(row.id), ..self },
                    Step::Run(Command::FindPerson(self.person.id)),
                ),
                _ => self.fail(Target::Organization),
            },
            LoginStage::FindPerson(org) => match reply {
                Reply::PersonFound(e) => match self.person.household {
                    Some(h) => (
                        Login { stage: LoginStage::FindHousehold(org, e), ..self },
                        Step::Run(Command::FindHousehold(h.id)),
                    ),
                    None => (
                        Login { stage: LoginStage::SavePerson(org), ..self },
                        Step::Run(Command::SavePerson(person_login_write(e, self.person, org, None))),
                    ),
                },
                _ => self.fail(Target::Person),
            },
            LoginStage::FindHousehold(org, e) => match reply {
                Reply::HouseholdFound(he) => (
                    Login { stage: LoginStage::SaveHousehold(org, e), ..self },
                    Step::Run(Command::SaveHousehold(
                        household_login_write(he, self.person.household->Some_0, org),
                    )),
                ),
                _ => self.fail(Target::Household),
            },
            LoginStage::SaveHousehold(org, e) => match reply {
                Reply::HouseholdSaved(row) => (
                    Login { stage: LoginStage::SavePerson(org), ..self },
                    Step::Run(Command::SavePerson(person_login_write(e, self.person, org, Some(row.id)))),
                ),
                _ => self.fail(Target::Household),
            },
            LoginStage::SavePerson(org) => match reply {
                Reply::PersonSaved(row) => (
                    Login { stage: LoginStage::FindUser(org, row.id), ..self },
                    Step::Run(Command::FindUser(row.id, org)),
                ),
                _ => self.fail(Target::Person),
            },
            LoginStage::FindUser(org, pid) => match reply {
                Reply::UserFound(e) => (
                    Login { stage: LoginStage::SaveUser, ..self },
                    Step::Run(Command::SaveUser(user_login_write(
                        e,
                        pid,
                        org,
                        self.credential.access_token,
                        self.credential.refresh_token,
                        self.credential.expires_at,
                    ))),
                ),
                _ => self.fail(Target::User),
            },
            LoginStage::SaveUser => match reply {
                Reply::UserSaved(u) => (Login { stage: LoginStage::Done, ..self }, Step::Finish(Ok(u))),
                _ => self.fail(Target::User),
            },
            LoginStage::Done => (self, Step::Finish(Err(LoginError::Finished))),
        }
    }

    /// Starts recording the login of the user the directory described, with
    /// the credential just issued; the first command looks up their
    /// organization.
    pub fn new(person: Option<PersonData>, credential: Credential) -> (r: Result<(Login, Command), LoginError>)
        ensures
            person is None ==> r == Err::<(Login, Command), LoginError>(LoginError::UnknownUser),
            person matches Some(p) ==> match p.organization {
                None => r == Err::<(Login, Command), LoginError>(LoginError::UnknownOrganization),
                Some(o) => r matches Ok(x) && x.0.wf() && x.0.person == p && x.0.organization == o
                    && x.0.credential == credential && x.0.stage is FindOrganization
                    && x.1 == Command::FindOrganization(o.id),
            },
    {
        match person {
            None => Err(LoginError::UnknownUser),
            Some(p) => {
                let organization = match &p.organization {
                    Some(o) => o.copy(),
                    None => return Err(LoginError::UnknownOrganization),
                };
                let first = Command::FindOrganization(organization.id.clone());
                Ok((Login { person: p, organization, credential, stage: LoginStage::FindOrganization }, first))
            },
        }
    }

    /// Takes the reply to the last command and gives the next step.
    pub fn step(&mut self, reply: Reply) -> (s: Step<Stored<User>, LoginError>)
        requires
            old(self).wf(),
        ensures
            (*final(self), s) == old(self).next(reply),
            final(self).wf(),
    {
        let mut stage = LoginStage::Done;
        core::mem::swap(&mut stage, &mut self.stage);
        match stage {
            LoginStage::FindOrganization => match reply {
                Reply::OrganizationFound(e) => {
                    let w = organization_upsert(e.as_ref(), &self.organization);
                    self.stage = LoginStage::SaveOrganization;
                    Step::Run(Command::SaveOrganization(w))
                },
                _ => {
                    self.stage = LoginStage::Done;
                    Step::Finish(Err(LoginError::Store(Target::Organization)))
                },
            },
            LoginStage::SaveOrganization => match reply {
                Reply::OrganizationSaved(row) => {
                    self.stage = LoginStage::FindPerson(row.id);
                    Step::Run(Command::FindPerson(self.person.id.clone()))
                },
                _ => {
                    self.stage = LoginStage::Done;
                    Step::Finish(Err(LoginError::Store(Target::Organization)))
                },
            },
            LoginStage::FindPerson(org) => match reply {
                Reply::PersonFound(e) => {
                    let next = match &self.person.household {
                        Some(h) => Some(h.id.clone()),
                        None => None,
                    };
                    match next {
                        Some(hid) => {
                            self.stage = LoginStage::FindHousehold(org, e);
                            Step::Run(Command::FindHousehold(hid))
                        },
                        None => {
                            let w = person_for_login(e.as_ref(), &self.person, org, None);
                            self.stage = LoginStage::SavePerson(org);
                            Step::Run(Command::SavePerson(w))
                        },
                    }
                },
                _ => {
                    self.stage = LoginStage::Done;
                    Step::Finish(Err(LoginError::Store(Target::Person)))
                },
            },
            LoginStage::FindHousehold(org, e) => match reply {
                Reply::HouseholdFound(he) => {
                    let s = match &self.person.household {
                        Some(h) => Step::Run(Command::SaveHousehold(household_for_login(he.as_ref(), h, org))),
                        None => Step::Finish(Err(LoginError::Finished)),
                    };
                    self.stage = LoginStage::SaveHousehold(org, e);
                    s
                },
                _ => {
                    self.stage = LoginStage::Done;
                    Step::Finish(Err(LoginError::Store(Target::Household)))
                },
            },
            LoginStage::SaveHousehold(org, e) => match reply {
                Reply::HouseholdSaved(row) => {
                    let w = person_for_login(e.as_ref(), &self.person, org, Some(row.id));
                    self.stage = LoginStage::SavePerson(org);
                    Step::Run(Command::SavePerson(w))
                },
                _ => {
                    self.stage = LoginStage::Done;
                    Step::Finish(Err(LoginError::Store(Target::Household)))
                },
            },
            LoginStage::SavePerson(org) => match reply {
                Reply::PersonSaved(row) => {
                    self.stage = LoginStage::FindUser(org, row.id);
                    Step::Run(Command::FindUser(row.id, org))
                },
                _ => {
                    self.stage = LoginStage::Done;
                    Step::Finish(Err(LoginError::Store(Target::Person)))
                },
            },
            LoginStage::FindUser(org, pid) => match reply {
                Reply::UserFound(e) => {
                    let w = user_for_login(
                        e.as_ref(),
                        pid,
                        org,
                        &self.credential.access_token,
                        &self.credential.refresh_token,
                        self.credential.expires_at,
                    );
                    self.stage = LoginStage::SaveUser;
                    Step::Run(Command::SaveUser(w))
                },
                _ => {
                    self.stage = LoginStage::Done;
                    Step::Finish(Err(LoginError::Store(Target::User)))
                },
            },
            LoginStage::SaveUser => match reply {
                Reply::UserSaved(u) => {
                    self.stage = LoginStage::Done;
                    Step::Finish(Ok(u))
                },
                _ => {
                    self.stage = LoginStage::Done;
                    Step::Finish(Err(LoginError::Store(Target::User)))
                },
            },
            LoginStage::Done => Step::Finish(Err(LoginError::Finished)),
        }
    }
}

} // verus!
