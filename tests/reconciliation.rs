use potluck::json::{Json, JsonMembers};
use potluck::pco::person::{HouseholdInfo, OrganizationInfo, PersonData};
use potluck::reconcile::{
    household_for_signup, member_for_household, person_for_signup, toggle_household_host, toggle_person_active,
};
use potluck::signup::{Command, HouseholdSignup, PersonSignup, Reply, SignupError, Step, Target};
use potluck::store::{Household, Organization, Person, Save, Stored, User};
use potluck::auth::Credential;
use potluck::login::{Login, LoginError};

/// A store kept in memory; writes are staged until the commit.
#[derive(Default)]
struct MemStore {
    organizations: Vec<Stored<Organization>>,
    households: Vec<Stored<Household>>,
    people: Vec<Stored<Person>>,
    next_id: i32,
    staged_households: Vec<Stored<Household>>,
    staged_people: Vec<Stored<Person>>,
    staged_organizations: Vec<Stored<Organization>>,
    writes: usize,
    fail_at_write: Option<usize>,
    commands: Vec<String>,
}

fn copy_person(p: &Person) -> Person {
    Person {
        pco_id: p.pco_id.clone(),
        organization_id: p.organization_id,
        name: p.name.clone(),
        email: p.email.clone(),
        phone: p.phone.clone(),
        address: p.address.deep_copy(),
        avatar_url: p.avatar_url.clone(),
        is_signed_up: p.is_signed_up,
        can_host: p.can_host,
        is_child: p.is_child,
        household_id: p.household_id,
    }
}

fn copy_household(h: &Household) -> Household {
    Household {
        pco_id: h.pco_id.clone(),
        organization_id: h.organization_id,
        name: h.name.clone(),
        avatar_url: h.avatar_url.clone(),
        is_signed_up: h.is_signed_up,
        can_host: h.can_host,
    }
}

fn copy_org(o: &Organization) -> Organization {
    Organization { pco_id: o.pco_id.clone(), name: o.name.clone(), avatar_url: o.avatar_url.clone() }
}

impl MemStore {
    fn fresh(&mut self) -> i32 {
        self.next_id += 1;
        self.next_id
    }

    fn write_fails(&mut self) -> bool {
        self.writes += 1;
        self.fail_at_write == Some(self.writes)
    }

    fn run(&mut self, c: Command) -> Reply {
        match c {
            Command::FindOrganization(id) => {
                self.commands.push("find organization".to_string());
                Reply::OrganizationFound(
                    self.staged_organizations.iter().find(|o| o.row.pco_id == id)
                        .map(|o| Stored { id: o.id, row: copy_org(&o.row) }),
                )
            }
            Command::LoadOrganization(id) => {
                self.commands.push("load organization".to_string());
                Reply::OrganizationFound(
                    self.staged_organizations.iter().find(|o| o.id == id)
                        .map(|o| Stored { id: o.id, row: copy_org(&o.row) }),
                )
            }
            Command::SaveOrganization(w) => {
                self.commands.push("save organization".to_string());
                if self.write_fails() {
                    return Reply::Failed;
                }
                let stored = match w {
                    Save::Insert(row) => Stored { id: self.fresh(), row },
                    Save::Update(id, row) => {
                        self.staged_organizations.retain(|o| o.id != id);
                        Stored { id, row }
                    }
                };
                let reply = Stored { id: stored.id, row: copy_org(&stored.row) };
                self.staged_organizations.push(stored);
                Reply::OrganizationSaved(reply)
            }
            Command::FindHousehold(id) => {
                self.commands.push("find household".to_string());
                Reply::HouseholdFound(
                    self.staged_households.iter().find(|h| h.row.pco_id == id)
                        .map(|h| Stored { id: h.id, row: copy_household(&h.row) }),
                )
            }
            Command::SaveHousehold(w) => {
                self.commands.push("save household".to_string());
                if self.write_fails() {
                    return Reply::Failed;
                }
                let stored = match w {
                    Save::Insert(row) => Stored { id: self.fresh(), row },
                    Save::Update(id, row) => {
                        self.staged_households.retain(|h| h.id != id);
                        Stored { id, row }
                    }
                };
                let reply = Stored { id: stored.id, row: copy_household(&stored.row) };
                self.staged_households.push(stored);
                Reply::HouseholdSaved(reply)
            }
            Command::FindPerson(id) => {
                self.commands.push("find person".to_string());
                Reply::PersonFound(
                    self.staged_people.iter().find(|p| p.row.pco_id == id)
                        .map(|p| Stored { id: p.id, row: copy_person(&p.row) }),
                )
            }
            Command::SavePerson(w) => {
                self.commands.push("save person".to_string());
                if self.write_fails() {
                    return Reply::Failed;
                }
                let stored = match w {
                    Save::Insert(row) => Stored { id: self.fresh(), row },
                    Save::Update(id, row) => {
                        self.staged_people.retain(|p| p.id != id);
                        Stored { id, row }
                    }
                };
                let reply = Stored { id: stored.id, row: copy_person(&stored.row) };
                self.staged_people.push(stored);
                Reply::PersonSaved(reply)
            }
            Command::FindUser(_, _) | Command::SaveUser(_) => Reply::Failed,
            Command::Commit => {
                self.commands.push("commit".to_string());
                self.households = self.staged_households.iter().map(|h| Stored { id: h.id, row: copy_household(&h.row) }).collect();
                self.people = self.staged_people.iter().map(|p| Stored { id: p.id, row: copy_person(&p.row) }).collect();
                self.organizations = self.staged_organizations.iter().map(|o| Stored { id: o.id, row: copy_org(&o.row) }).collect();
                Reply::Committed
            }
            Command::Rollback => {
                self.commands.push("rollback".to_string());
                self.begin();
                Reply::RolledBack
            }
        }
    }

    /// Opens a transaction: the staged rows start as the committed ones.
    fn begin(&mut self) {
        self.staged_households = self.households.iter().map(|h| Stored { id: h.id, row: copy_household(&h.row) }).collect();
        self.staged_people = self.people.iter().map(|p| Stored { id: p.id, row: copy_person(&p.row) }).collect();
        self.staged_organizations = self.organizations.iter().map(|o| Stored { id: o.id, row: copy_org(&o.row) }).collect();
    }
}

fn person(id: &str, name: &str) -> PersonData {
    PersonData {
        id: id.to_string(),
        name: name.to_string(),
        avatar: None,
        email: Some(format!("{}@example.com", id)),
        address: None,
        phone: None,
        is_child: false,
        household: None,
        organization: None,
        is_signed_up: false,
    }
}

fn household(id: &str, members: Vec<PersonData>) -> HouseholdInfo {
    HouseholdInfo {
        id: id.to_string(),
        name: format!("Household {}", id),
        avatar: None,
        people: Some(members),
        is_signed_up: None,
    }
}

fn sign_up_household(store: &mut MemStore, org_id: i32, info: HouseholdInfo) -> Result<Stored<Household>, SignupError> {
    store.begin();
    let (mut m, first) = HouseholdSignup::new(org_id, info);
    let mut reply = store.run(first);
    loop {
        match m.step(reply) {
            Step::Run(c) => reply = store.run(c),
            Step::Finish(r) => return r,
        }
    }
}

fn sign_up_person(store: &mut MemStore, org_id: i32, d: PersonData) -> Result<Stored<Person>, SignupError> {
    store.begin();
    let (mut m, first) = PersonSignup::new(org_id, d);
    let mut reply = store.run(first);
    loop {
        match m.step(reply) {
            Step::Run(c) => reply = store.run(c),
            Step::Finish(r) => return r,
        }
    }
}

fn store_with_org() -> MemStore {
    let mut store = MemStore::default();
    store.organizations.push(Stored {
        id: 1,
        row: Organization { pco_id: "o1".to_string(), name: "Church".to_string(), avatar_url: None },
    });
    store.next_id = 1;
    store
}

#[test]
fn household_signup_writes_household_then_members() {
    let mut store = store_with_org();
    let info = household("h1", vec![person("101", "A"), person("102", "B"), person("103", "C")]);
    let h = sign_up_household(&mut store, 1, info).unwrap();
    assert_eq!(h.row.pco_id, "h1");
    assert!(h.row.is_signed_up);
    assert!(!h.row.can_host);
    assert_eq!(store.households.len(), 1);
    assert_eq!(store.people.len(), 3);
    for p in &store.people {
        assert_eq!(p.row.household_id, Some(h.id));
        assert!(!p.row.is_signed_up);
        assert!(!p.row.can_host);
        assert_eq!(p.row.organization_id, 1);
    }
    assert_eq!(store.commands[0], "find household");
    assert_eq!(store.commands[1], "save household");
    assert_eq!(store.commands.last().unwrap(), "commit");
}

#[test]
fn failed_member_write_commits_nothing() {
    let mut store = store_with_org();
    // the household is the first write, the second member the third
    store.fail_at_write = Some(3);
    let info = household("h1", vec![person("101", "A"), person("102", "B"), person("103", "C")]);
    let r = sign_up_household(&mut store, 1, info);
    assert_eq!(r.err(), Some(SignupError::WriteFailed(Target::Person)));
    assert_eq!(store.households.len(), 0);
    assert_eq!(store.people.len(), 0);
    assert!(store.commands.iter().all(|c| c != "commit"));
    assert_eq!(store.commands.last().unwrap(), "rollback");
}

#[test]
fn failed_rollback_is_reported() {
    let (mut m, _) = HouseholdSignup::new(1, household("h1", vec![]));
    match m.step(Reply::Failed) {
        Step::Run(Command::Rollback) => {}
        _ => panic!("expected a rollback"),
    }
    match m.step(Reply::Failed) {
        Step::Finish(r) => assert_eq!(r.err(), Some(SignupError::RollbackFailed)),
        _ => panic!("expected the end"),
    }
    match m.step(Reply::Committed) {
        Step::Finish(r) => assert_eq!(r.err(), Some(SignupError::Finished)),
        _ => panic!("expected the end"),
    }
}

#[test]
fn failed_commit_is_reported() {
    let (mut m, _) = HouseholdSignup::new(1, household("h1", vec![]));
    assert!(matches!(m.step(Reply::HouseholdFound(None)), Step::Run(Command::SaveHousehold(Save::Insert(_)))));
    let saved = Stored {
        id: 9,
        row: Household {
            pco_id: "h1".to_string(),
            organization_id: 1,
            name: "x".to_string(),
            avatar_url: None,
            is_signed_up: true,
            can_host: false,
        },
    };
    assert!(matches!(m.step(Reply::HouseholdSaved(saved)), Step::Run(Command::Commit)));
    match m.step(Reply::Failed) {
        Step::Finish(r) => assert_eq!(r.err(), Some(SignupError::CommitFailed)),
        _ => panic!("expected the end"),
    }
}

#[test]
fn person_signup_twice_keeps_one_row() {
    let mut store = store_with_org();
    let make = || {
        let mut d = person("101", "Ada");
        d.organization = Some(OrganizationInfo { id: "o1".to_string(), name: "Church".to_string(), avatar_url: None });
        d
    };
    let first = sign_up_person(&mut store, 1, make()).unwrap();
    let after_first: Vec<(i32, String)> = store.people.iter().map(|p| (p.id, p.row.pco_id.clone())).collect();
    let second = sign_up_person(&mut store, 1, make()).unwrap();
    let after_second: Vec<(i32, String)> = store.people.iter().map(|p| (p.id, p.row.pco_id.clone())).collect();
    assert_eq!(store.people.len(), 1);
    assert_eq!(first.id, second.id);
    assert_eq!(after_first, after_second);
    assert!(second.row.is_signed_up);
    assert_eq!(store.organizations.len(), 1);
}

#[test]
fn person_signup_without_organization_uses_callers() {
    let mut store = store_with_org();
    let p = sign_up_person(&mut store, 1, person("101", "Ada")).unwrap();
    assert_eq!(p.row.organization_id, 1);
    assert_eq!(p.row.household_id, None);
    assert_eq!(store.commands[0], "load organization");
}

#[test]
fn person_signup_with_unknown_own_organization_fails() {
    let mut store = MemStore::default();
    let r = sign_up_person(&mut store, 42, person("101", "Ada"));
    assert_eq!(r.err(), Some(SignupError::OrganizationNotFound));
    assert_eq!(store.people.len(), 0);
}

fn existing_person(can_host: bool, signed_up: bool) -> Stored<Person> {
    Stored {
        id: 7,
        row: Person {
            pco_id: "101".to_string(),
            organization_id: 1,
            name: "Old".to_string(),
            email: None,
            phone: None,
            address: Json::Null,
            avatar_url: None,
            is_signed_up: signed_up,
            can_host,
            is_child: false,
            household_id: Some(3),
        },
    }
}

#[test]
fn person_signup_keeps_host_flag() {
    let e = existing_person(true, false);
    match person_for_signup(Some(&e), &person("101", "New"), 1) {
        Save::Update(id, row) => {
            assert_eq!(id, 7);
            assert!(row.can_host);
            assert!(row.is_signed_up);
            assert_eq!(row.household_id, Some(3));
            assert_eq!(row.name, "New");
            assert!(matches!(row.address, Json::Object(JsonMembers::Empty)));
        }
        Save::Insert(_) => panic!("expected an update"),
    }
}

#[test]
fn member_sync_keeps_both_flags() {
    let e = existing_person(true, true);
    match member_for_household(Some(&e), &person("101", "New"), 5, 1) {
        Save::Update(id, row) => {
            assert_eq!(id, 7);
            assert!(row.can_host);
            assert!(row.is_signed_up);
            assert_eq!(row.household_id, Some(5));
            assert_eq!(row.email, Some("101@example.com".to_string()));
        }
        Save::Insert(_) => panic!("expected an update"),
    }
    match member_for_household(None, &person("102", "Newer"), 5, 1) {
        Save::Insert(row) => {
            assert!(!row.can_host);
            assert!(!row.is_signed_up);
            assert_eq!(row.pco_id, "102");
            assert_eq!(row.household_id, Some(5));
        }
        Save::Update(_, _) => panic!("expected an insert"),
    }
}

#[test]
fn household_signup_keeps_host_flag() {
    let e = Stored {
        id: 4,
        row: Household {
            pco_id: "h1".to_string(),
            organization_id: 1,
            name: "Old".to_string(),
            avatar_url: None,
            is_signed_up: false,
            can_host: true,
        },
    };
    match household_for_signup(Some(&e), &household("h1", vec![]), 1) {
        Save::Update(id, row) => {
            assert_eq!(id, 4);
            assert!(row.can_host);
            assert!(row.is_signed_up);
            assert_eq!(row.name, "Household h1");
        }
        Save::Insert(_) => panic!("expected an update"),
    }
}

#[test]
fn login_records_organization_person_household_and_user() {
    let mut d = person("101", "Ada");
    d.organization = Some(OrganizationInfo { id: "o1".to_string(), name: "Church".to_string(), avatar_url: None });
    d.household = Some(HouseholdInfo { id: "h1".to_string(), name: "H".to_string(), avatar: None, people: None, is_signed_up: None });
    let cred = Credential { access_token: "tok".to_string(), refresh_token: None, expires_at: 99 };
    let (mut m, first) = Login::new(Some(d), cred).unwrap();
    assert!(matches!(first, Command::FindOrganization(ref id) if id == "o1"));
    assert!(matches!(m.step(Reply::OrganizationFound(None)), Step::Run(Command::SaveOrganization(Save::Insert(_)))));
    let org = Stored { id: 3, row: Organization { pco_id: "o1".to_string(), name: "Church".to_string(), avatar_url: None } };
    assert!(matches!(m.step(Reply::OrganizationSaved(org)), Step::Run(Command::FindPerson(ref id)) if id == "101"));
    assert!(matches!(m.step(Reply::PersonFound(None)), Step::Run(Command::FindHousehold(ref id)) if id == "h1"));
    match m.step(Reply::HouseholdFound(None)) {
        Step::Run(Command::SaveHousehold(Save::Insert(h))) => {
            assert!(!h.is_signed_up);
            assert_eq!(h.organization_id, 3);
        }
        _ => panic!("expected a household insert"),
    }
    let hh = Stored {
        id: 8,
        row: Household { pco_id: "h1".to_string(), organization_id: 3, name: "H".to_string(), avatar_url: None, is_signed_up: false, can_host: false },
    };
    let saved_person = match m.step(Reply::HouseholdSaved(hh)) {
        Step::Run(Command::SavePerson(Save::Insert(p))) => {
            assert_eq!(p.household_id, Some(8));
            assert!(!p.is_signed_up && !p.can_host && !p.is_child);
            p
        }
        _ => panic!("expected a person insert"),
    };
    assert!(matches!(m.step(Reply::PersonSaved(Stored { id: 11, row: saved_person })), Step::Run(Command::FindUser(11, 3))));
    match m.step(Reply::UserFound(None)) {
        Step::Run(Command::SaveUser(Save::Insert(u))) => {
            assert_eq!(u.access_token, "tok");
            assert_eq!(u.token_expires_at, 99);
        }
        _ => panic!("expected a user insert"),
    }
    let user = Stored { id: 1, row: User { person_id: 11, organization_id: 3, access_token: "tok".to_string(), refresh_token: None, token_expires_at: 99 } };
    match m.step(Reply::UserSaved(user)) {
        Step::Finish(Ok(u)) => assert_eq!(u.id, 1),
        _ => panic!("expected the user"),
    }
    assert!(matches!(Login::new(None, Credential { access_token: String::new(), refresh_token: None, expires_at: 0 }).err(), Some(LoginError::UnknownUser)));
    assert!(matches!(
        Login::new(Some(person("102", "B")), Credential { access_token: String::new(), refresh_token: None, expires_at: 0 }).err(),
        Some(LoginError::UnknownOrganization)
    ));
}

#[test]
fn login_store_failure_stops() {
    let mut d = person("101", "Ada");
    d.organization = Some(OrganizationInfo { id: "o1".to_string(), name: "Church".to_string(), avatar_url: None });
    let (mut m, _) = Login::new(Some(d), Credential { access_token: "t".to_string(), refresh_token: None, expires_at: 0 }).unwrap();
    match m.step(Reply::Failed) {
        Step::Finish(r) => assert_eq!(r.err(), Some(LoginError::Store(Target::Organization))),
        _ => panic!("expected the end"),
    }
}

#[test]
fn toggles_flip_one_flag() {
    match toggle_person_active(existing_person(true, false)) {
        Save::Update(id, row) => {
            assert_eq!(id, 7);
            assert!(row.is_signed_up);
            assert!(row.can_host);
            assert_eq!(row.name, "Old");
        }
        Save::Insert(_) => panic!("expected an update"),
    }
    let h = Stored {
        id: 4,
        row: Household { pco_id: "h1".to_string(), organization_id: 1, name: "H".to_string(), avatar_url: None, is_signed_up: true, can_host: true },
    };
    match toggle_household_host(h) {
        Save::Update(id, row) => {
            assert_eq!(id, 4);
            assert!(!row.can_host);
            assert!(row.is_signed_up);
        }
        Save::Insert(_) => panic!("expected an update"),
    }
}
