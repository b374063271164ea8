use potluck::assets::{hashed_asset_path, unversioned_asset_path, AssetLoader};
use potluck::auth::{Credential, Credentials, Freshness, TokenError};
use potluck::event::{Attendance, InvariantError, PairingHistory, Participant, Potluck, PotluckSeries};
use potluck::pco::person::{HouseholdInfo, PersonData};
use potluck::status::{apply_signup_status, household_ids, person_ids};

#[test]
fn exactly_one_reference() {
    assert_eq!(Participant::from_columns(Some(1), None), Ok(Participant::Person(1)));
    assert_eq!(Participant::from_columns(None, Some(2)), Ok(Participant::Household(2)));
    assert_eq!(Participant::from_columns(Some(1), Some(2)), Err(InvariantError::BothReferences));
    assert_eq!(Participant::from_columns(None, None), Err(InvariantError::NoReference));
    assert_eq!(Participant::Household(4).columns(), (None, Some(4)));
}

#[test]
fn rows_with_both_or_neither_reference_are_refused() {
    assert!(Potluck::from_columns(1, 2, Some(3), Some(4)).is_err());
    assert_eq!(Potluck::from_columns(1, 2, None, Some(4)).unwrap().host, Participant::Household(4));
    assert_eq!(Attendance::from_columns(1, 2, None, None).err().map(|e| e), Some(InvariantError::NoReference));
    assert!(PairingHistory::from_columns(1, 2, (Some(1), None), (Some(2), Some(3))).is_err());
    assert!(PairingHistory::from_columns(1, 2, (None, None), (Some(2), None)).is_err());
    let p = PairingHistory::from_columns(1, 2, (Some(1), None), (None, Some(3))).unwrap();
    assert_eq!(p.entity_a, Participant::Person(1));
    assert_eq!(p.entity_b, Participant::Household(3));
}

#[test]
fn series_end_follows_start() {
    assert_eq!(
        PotluckSeries::new(1, "Spring".to_string(), 10, 10, None).err(),
        Some(InvariantError::EndNotAfterStart)
    );
    assert_eq!(PotluckSeries::new(1, "Spring".to_string(), 10, 40, None).unwrap().end_date, 40);
}

#[test]
fn state_check() {
    let c = Credentials { code: "c".to_string(), old_state: "s1".to_string(), new_state: "s1".to_string() };
    assert!(c.state_matches());
    let c = Credentials { code: "c".to_string(), old_state: "s1".to_string(), new_state: "s2".to_string() };
    assert!(!c.state_matches());
}

#[test]
fn token_freshness() {
    let c = Credential { access_token: "a".to_string(), refresh_token: Some("r".to_string()), expires_at: 100 };
    assert!(matches!(c.freshness(100), Freshness::Fresh));
    assert!(matches!(c.freshness(101), Freshness::Refresh(ref t) if t == "r"));
    let c = Credential { access_token: "a".to_string(), refresh_token: None, expires_at: 100 };
    assert!(matches!(c.freshness(101), Freshness::NoRefreshToken));
}

#[test]
fn token_expiry() {
    let c = Credential::issued("a".to_string(), None, None, 1000).unwrap();
    assert_eq!(c.expires_at, 8200);
    let c = Credential::issued("a".to_string(), None, Some(60), 1000).unwrap();
    assert_eq!(c.expires_at, 1060);
    assert_eq!(Credential::renewed("a".to_string(), None, None, 1000).err(), Some(TokenError::NoLifetime));
    assert_eq!(
        Credential::renewed("a".to_string(), None, Some(u64::MAX), 1000).err(),
        Some(TokenError::ExpiryOutOfRange)
    );
    let c = Credential::renewed("b".to_string(), Some("r2".to_string()), Some(30), 5).unwrap();
    assert_eq!(c.expires_at, 35);
    assert_eq!(c.access_token, "b");
    assert_eq!(c.refresh_token, Some("r2".to_string()));
}

#[test]
fn asset_paths() {
    let digest: Vec<u8> = vec![0x0a, 0x14, 0xff];
    assert_eq!(hashed_asset_path("app.css", &digest), "/static/app.css?v=0a14ff");
    assert_eq!(unversioned_asset_path("app.css"), "/static/app.css");
}

#[test]
fn asset_loader_versions_by_digest() {
    let mut loader = AssetLoader::new();
    assert_eq!(loader.cached_asset_path("app.css"), None);
    let url = loader.asset_path("app.css", Some(&b"abc"[..]));
    assert_eq!(url, "/static/app.css?v=ba7816bf8f01cfea414140de5dae2223b00361a396177a9cb410ff61f20015ad");
    assert_eq!(loader.cached_asset_path("app.css"), Some(url.clone()));
    assert_eq!(loader.asset_path("app.css", Some(&b"changed"[..])), url);
    assert_eq!(loader.asset_path("missing.js", None), "/static/missing.js");
    assert_eq!(loader.cached_asset_path("missing.js"), None);
}

fn person(id: &str, household: Option<&str>) -> PersonData {
    PersonData {
        id: id.to_string(),
        name: id.to_string(),
        avatar: None,
        email: None,
        address: None,
        phone: None,
        is_child: false,
        household: household.map(|h| HouseholdInfo {
            id: h.to_string(),
            name: h.to_string(),
            avatar: None,
            people: None,
            is_signed_up: None,
        }),
        organization: None,
        is_signed_up: false,
    }
}

#[test]
fn signup_status_marks_matches_only() {
    let mut people = vec![person("101", Some("h1")), person("102", None), person("103", Some("h2"))];
    assert_eq!(person_ids(&people), vec!["101".to_string(), "102".to_string(), "103".to_string()]);
    assert_eq!(household_ids(&people), vec!["h1".to_string(), "h2".to_string()]);
    let persons = vec![("101".to_string(), true), ("103".to_string(), false)];
    let households = vec![("h1".to_string(), true)];
    apply_signup_status(&mut people, &persons, &households);
    assert!(people[0].is_signed_up);
    assert_eq!(people[0].household.as_ref().unwrap().is_signed_up, Some(true));
    assert!(!people[1].is_signed_up);
    assert!(!people[2].is_signed_up);
    assert_eq!(people[2].household.as_ref().unwrap().is_signed_up, None);
}
