use eardogger::db::deleted_one;
use eardogger::db::dogears::{dogear_exists, prepare_dogear};
use eardogger::db::migrations::{tally_migrations, AppliedMigration, KnownMigration};
use eardogger::db::sessions::{session_expiry, NANOS_PER_DAY, SESSION_LIFETIME_DAYS};
use eardogger::db::tokens::{new_token_cleartext, token_hash};
use eardogger::db::users::{
    authenticate_user, clean_username, hash_password, one_user_updated, prepare_new_user,
    user_exists, username_lookup_key, valid_password, User, UserWithPasswordHash,
};
use eardogger::db::{Token, TokenScope};
use eardogger::util::error::UserError;

fn stored(name: &str, password: &str) -> UserWithPasswordHash {
    UserWithPasswordHash {
        user: User {
            id: 7,
            username: name.to_string(),
            email: None,
            created: 0,
        },
        password_hash: hash_password(password).expect("hashes"),
    }
}

#[test]
fn new_user_is_prepared() {
    let new = prepare_new_user("test_peep", "aoeuhtns", Some("nf@example.com")).expect("ok");
    assert_eq!(new.username, "test_peep");
    assert_eq!(new.email, Some("nf@example.com"));
    assert!(bcrypt::verify("aoeuhtns", &new.password_hash).unwrap());
    // Surrounding space is trimmed from the name; a blank email is no email.
    let new = prepare_new_user("  spacecadet ", " im in space", Some("  ")).expect("ok");
    assert_eq!(new.username, "spacecadet");
    assert_eq!(new.email, None);
}

#[test]
fn new_user_refusals() {
    // No blank usernames
    match prepare_new_user("", "aoeua", None) {
        Err(UserError::BadUsername { name }) => assert_eq!(name, ""),
        other => panic!("must return BadUsername, got {:?}", other.map(|_| ())),
    }
    // No blank passwords
    assert!(matches!(
        prepare_new_user("blanka", "", None),
        Err(UserError::BlankPassword)
    ));
    // No spaces in username
    match prepare_new_user("space cadet", "aoeu", None) {
        Err(UserError::BadUsername { name }) => assert_eq!(name, "space cadet"),
        other => panic!("must return BadUsername, got {:?}", other.map(|_| ())),
    }
    // A bad name is reported before a blank password.
    assert!(matches!(
        prepare_new_user("a b", "", None),
        Err(UserError::BadUsername { .. })
    ));
}

#[test]
fn username_rules() {
    assert_eq!(clean_username(" ok_name-1 ").unwrap(), "ok_name-1");
    assert!(clean_username(&"a".repeat(80)).is_ok());
    assert!(clean_username(&"a".repeat(81)).is_err());
    assert!(clean_username("naïve").is_err());
    assert!(clean_username("semi;colon").is_err());
    assert_eq!(username_lookup_key(" spacecadet "), "spacecadet");
    assert_eq!(valid_password(" x ").unwrap(), " x ");
    assert!(matches!(valid_password(""), Err(UserError::BlankPassword)));
    match user_exists("spacecadet") {
        UserError::UserExists { name } => assert_eq!(name, "spacecadet"),
        _ => panic!("must return UserExists"),
    }
}

#[test]
fn password_authentication() {
    let found = stored("spacecadet", " im in space");
    assert_eq!(
        authenticate_user(Some(found.clone()), " im in space")
            .expect("no err")
            .expect("some")
            .username,
        "spacecadet"
    );
    // Wrong password gets you nothin
    assert!(authenticate_user(Some(found.clone()), "")
        .expect("no err")
        .is_none());
    // Passwords aren't trimmed
    assert!(authenticate_user(Some(found.clone()), " im in space ")
        .expect("no err")
        .is_none());
    // Nonexistent user gets Ok(None), just like a wrong password.
    assert!(authenticate_user(None, "spaaaaace")
        .expect("no err")
        .is_none());
    // An unreadable stored hash is a server error.
    let mut broken = found;
    broken.password_hash = "not a hash".to_string();
    assert!(authenticate_user(Some(broken), "whatever").is_err());
}

#[test]
fn row_count_checks() {
    assert!(one_user_updated(1).is_ok());
    assert!(matches!(one_user_updated(0), Err(UserError::Impossible(_))));
    assert!(matches!(one_user_updated(2), Err(UserError::Impossible(_))));
    assert_eq!(deleted_one(1), Some(()));
    assert_eq!(deleted_one(0), None);
}

#[test]
fn dogear_preparation() {
    let new = prepare_dogear(
        "example.com/comic/",
        "https://example.com/comic/240",
        Some("Example Comic"),
    )
    .expect("fits")
    .expect("ok");
    assert_eq!(new.prefix, "example.com/comic/");
    assert_eq!(new.current, "https://example.com/comic/240");
    assert_eq!(new.display_name, Some("Example Comic"));
    // prefix normalization
    let second = prepare_dogear(
        "http://www.example.com/story/",
        "https://example.com/story/2",
        None,
    )
    .expect("fits")
    .expect("ok");
    assert_eq!(second.prefix, "example.com/story/");
    assert_eq!(second.display_name, None);
    // a blank display name is none
    let third = prepare_dogear(
        "example.com/extras/",
        "http://m.example.com/extras/turnarounds",
        Some("   "),
    )
    .expect("fits")
    .expect("ok");
    assert_eq!(third.display_name, None);
}

#[test]
fn dogear_refusals() {
    match prepare_dogear("example.com/comic/", "https://example.com/commie", None) {
        Some(Err(UserError::DogearNonMatching { url, prefix })) => {
            assert_eq!(url, "https://example.com/commie");
            assert_eq!(prefix, "example.com/comic/");
        }
        _ => panic!("must return DogearNonMatching"),
    }
    match prepare_dogear("example.com/comic/", "ftp://example.com/comic/2", None) {
        Some(Err(UserError::DogearInvalidUrl { url })) => {
            assert_eq!(url, "ftp://example.com/comic/2")
        }
        _ => panic!("must return DogearInvalidUrl"),
    }
    // Where cutting off the scheme would land inside the text's end, there's no answer.
    assert!(prepare_dogear("example.com/", "http:a", None).is_none());
    match dogear_exists("example.com/comic/") {
        UserError::DogearExists { prefix } => assert_eq!(prefix, "example.com/comic/"),
        _ => panic!("must return DogearExists"),
    }
}

#[test]
fn token_scopes_and_hashes() {
    let t = Token::new(1, 2, "manage_dogears".to_string(), 0, None, None);
    assert_eq!(t.scope(), TokenScope::ManageDogears);
    assert_eq!(t.scope_str(), "manage_dogears");
    let w = Token::new(1, 2, "write_dogears".to_string(), 0, Some(5), None);
    assert_eq!(w.scope(), TokenScope::WriteDogears);
    let bad = Token::new(1, 2, "root".to_string(), 0, None, None);
    assert_eq!(bad.scope(), TokenScope::Invalid);
    // equality ignores last_used
    let t2 = Token::new(1, 2, "manage_dogears".to_string(), 0, Some(99), None);
    assert!(t == t2);
    let t3 = Token::new(1, 2, "manage_dogears".to_string(), 0, None, Some("c".to_string()));
    assert!(t != t3);
    for scope in [
        TokenScope::WriteDogears,
        TokenScope::ManageDogears,
        TokenScope::Invalid,
    ] {
        let text: &'static str = scope.into();
        if scope != TokenScope::Invalid {
            assert_eq!(TokenScope::from(text), scope);
        } else {
            assert_eq!(text, "INVALID");
        }
    }
    let clear = new_token_cleartext();
    assert!(clear.starts_with("eardoggerv1."));
    assert_eq!(clear.len(), "eardoggerv1.".len() + 36);
    assert_ne!(clear, new_token_cleartext());
    // sha256("abc")
    assert_eq!(
        token_hash("abc"),
        "ba7816bf8f01cfea414140de5dae2223b00361a396177a9cb410ff61f20015ad"
    );
}

#[test]
fn session_lifetime() {
    assert_eq!(SESSION_LIFETIME_DAYS, 90);
    assert_eq!(session_expiry(0), 90 * NANOS_PER_DAY);
    assert_eq!(session_expiry(5), 5 + 90 * NANOS_PER_DAY);
}

fn known(version: i64, sum: u8, is_down: bool) -> KnownMigration {
    KnownMigration {
        version,
        checksum: vec![sum],
        is_down,
    }
}

fn applied(version: i64, sum: u8) -> AppliedMigration {
    AppliedMigration {
        version,
        checksum: vec![sum],
    }
}

#[test]
fn migration_tally() {
    let k = vec![
        known(1, 1, false),
        known(1, 9, true),
        known(2, 2, false),
        known(3, 3, false),
    ];
    // all applied and clean
    let t = tally_migrations(&k, &vec![applied(1, 1), applied(2, 2), applied(3, 3)]);
    assert!(!t.errors.any());
    assert_eq!(t.unrecognized, 0);
    assert_eq!(t.total_known, 3);
    // one checksum changed, one missing, one unknown applied
    let t = tally_migrations(&k, &vec![applied(1, 1), applied(2, 7), applied(40, 4)]);
    assert!(t.errors.any());
    assert_eq!(t.errors.wrong_checksum, 1);
    assert_eq!(t.errors.unapplied, 1);
    assert_eq!(t.unrecognized, 1);
    // nothing applied yet
    let t = tally_migrations(&k, &vec![]);
    assert_eq!(t.errors.unapplied, 3);
    assert_eq!(t.errors.wrong_checksum, 0);
}

#[test]
fn migrations_clean_exactly_when_all_known_applied() {
    let k = vec![known(1, 1, false), known(1, 9, true), known(2, 2, false)];
    // extra unknown versions never count as wrong
    let t = tally_migrations(&k, &vec![applied(1, 1), applied(2, 2), applied(77, 7)]);
    assert!(!t.errors.any());
    assert_eq!(t.unrecognized, 1);
    // a re-recorded version counts by its last record
    let t = tally_migrations(&k, &vec![applied(1, 5), applied(2, 2), applied(1, 1)]);
    assert!(!t.errors.any());
    let t = tally_migrations(&k, &vec![applied(1, 1), applied(2, 2), applied(1, 5)]);
    assert_eq!(t.errors.wrong_checksum, 1);
    // a missing one is an error
    let t = tally_migrations(&k, &vec![applied(1, 1)]);
    assert!(t.errors.any());
    assert_eq!(t.errors.unapplied, 1);
}

#[test]
fn password_hashes_record_the_work_factor() {
    let h = hash_password("aoeuhtns").expect("hashes");
    assert!(h.starts_with("$2b$12$"));
    let new = prepare_new_user("peep", "boop", None).expect("ok");
    assert!(new.password_hash.starts_with("$2b$12$"));
}
