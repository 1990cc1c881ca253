use eardogger::db::sessions::Session;
use eardogger::db::{Dogear, Token, TokenScope, User};
use eardogger::util::error::{MixedError, ServerError, UserError};
use eardogger::util::ListMeta;
use eardogger::web::authentication::{
    any_auth_missing, bearer_token, error_kind_from_headers, header_val_matches,
    session_auth_missing, AuthAny,
};
use eardogger::web::routes::{
    api_delete_outcome, check_cors_update, check_delete_confirmation, check_login_csrf,
    check_new_password_form, check_session_csrf, check_signup, delete_token_status,
    four_oh_four, is_cross_origin, login_redirect_target, personal_mark_comment, site_origin,
    wrong_password, ApiDogearsList,
    LoginForm, PaginationQuery, SessionForm,
};
use eardogger::web::templates::{explain_scope, short_date, Common};
use eardogger::web::web_result::{
    displayed_message, error_fragment, ApiError, AppErrorKind, WebError,
};
use std::sync::Arc;

fn user() -> User {
    User {
        id: 3,
        username: "whoever".to_string(),
        email: None,
        created: 0,
    }
}

fn session() -> Session {
    Session {
        external_id: 1,
        id: "sess".to_string(),
        user_id: 3,
        csrf_token: "csrf".to_string(),
        expires: 0,
        user_agent: None,
    }
}

fn token_auth(scope: &str) -> AuthAny {
    AuthAny::Token {
        user: Arc::new(user()),
        token: Arc::new(Token::new(9, 3, scope.to_string(), 0, None, None)),
    }
}

#[test]
fn scopes_checked_for_tokens_only() {
    let session_auth = AuthAny::Session {
        user: Arc::new(user()),
        session: Arc::new(session()),
    };
    assert!(session_auth.allowed_scopes(&[]).is_ok());
    assert!(session_auth.session_auth().is_some());
    assert_eq!(session_auth.user().username, "whoever");

    let write = token_auth("write_dogears");
    assert!(write
        .allowed_scopes(&[TokenScope::WriteDogears, TokenScope::ManageDogears])
        .is_ok());
    let err = write
        .allowed_scopes(&[TokenScope::ManageDogears])
        .expect_err("write token can't manage");
    assert_eq!(err.0.status, 403);
    assert_eq!(err.0.kind, AppErrorKind::Json);
    assert!(write.session_auth().is_none());
    assert!(token_auth("bogus")
        .allowed_scopes(&[TokenScope::WriteDogears, TokenScope::ManageDogears])
        .is_err());
}

#[test]
fn common_template_args() {
    let auth = AuthAny::Session {
        user: Arc::new(user()),
        session: Arc::new(session()),
    }
    .session_auth()
    .expect("session");
    let c = auth.common_args("Account");
    assert_eq!(c.title, "Account");
    assert_eq!(c.csrf_token, "csrf");
    assert_eq!(c.user.expect("user").username, "whoever");
    let anon = Common::anonymous("FAQ");
    assert!(anon.user.is_none());
    assert_eq!(anon.csrf_token, "invalid");
    assert_eq!(explain_scope("write_dogears"), "Can mark your spot.");
    assert_eq!(
        explain_scope("manage_dogears"),
        "Can view, update, and delete dogears."
    );
    assert_eq!(explain_scope("nope"), "Cannot be used.");
    assert_eq!(short_date("2024-03-22T10:11:12Z"), "2024-03-22");
    assert_eq!(short_date("2024-03-22T23:11:12.5-07:00"), "2024-03-22");
    assert_eq!(short_date("last tuesday"), "last tuesday");
}

#[test]
fn header_reading() {
    assert_eq!(bearer_token("Bearer  abc "), Some("abc"));
    assert_eq!(bearer_token("Basic abc"), None);
    assert_eq!(bearer_token("bearer abc"), None);
    assert!(header_val_matches(Some("application/json"), "application/json"));
    assert!(!header_val_matches(None, "application/json"));
    assert_eq!(
        error_kind_from_headers(Some("application/json"), None),
        AppErrorKind::Json
    );
    assert_eq!(
        error_kind_from_headers(Some("text/html"), Some("application/json")),
        AppErrorKind::Json
    );
    assert_eq!(
        error_kind_from_headers(Some("text/html"), None),
        AppErrorKind::Html
    );
    let e = any_auth_missing(AppErrorKind::Json);
    assert_eq!(e.status, 401);
    assert_eq!(e.kind, AppErrorKind::Json);
    let e = session_auth_missing(AppErrorKind::Html);
    assert_eq!(e.status, 401);
    assert!(e.message.starts_with("You aren't logged in"));
}

#[test]
fn error_display() {
    assert_eq!(
        error_fragment("<b>\"it's\" & co/</b>"),
        "<p>&lt;b&gt;&quot;it&#x27;s&quot; &amp; co&#x2F;&lt;&#x2F;b&gt;</p>"
    );
    assert_eq!(displayed_message(false, 500, "db gone".to_string()), "db gone");
    assert_eq!(displayed_message(true, 404, "nope".to_string()), "nope");
    assert!(displayed_message(true, 500, "db gone".to_string())
        .starts_with("The server had a problem"));

    let e = WebError::from_handler_error(UserError::DogearExists {
        prefix: "example.com/".to_string(),
    });
    assert_eq!(e.0.status, 409);
    assert_eq!(
        e.0.message,
        "You already have a bookmark with that prefix: example.com/"
    );
    assert_eq!(e.0.kind, AppErrorKind::Html);
    let a = ApiError::from_handler_error(ServerError("boom".to_string()));
    assert_eq!(a.0.status, 500);
    assert_eq!(a.0.message, "boom");
    assert_eq!(a.0.kind, AppErrorKind::Json);
    let m: MixedError<ServerError> = MixedError::from_user(UserError::Dogear404);
    let w = WebError::from_handler_error(m);
    assert_eq!(w.0.status, 404);
    assert_eq!(w.0.message, "dogear not found");
}

#[test]
fn user_error_statuses() {
    let cases: Vec<(UserError, u16)> = vec![
        (UserError::Dogear404, 404),
        (
            UserError::DogearNonMatching {
                url: "a".to_string(),
                prefix: "b".to_string(),
            },
            400,
        ),
        (UserError::DogearExists { prefix: "p".to_string() }, 409),
        (UserError::DogearInvalidUrl { url: "u".to_string() }, 400),
        (UserError::HttpFucked, 418),
        (UserError::Impossible("what"), 500),
        (UserError::PageOversize, 400),
        (UserError::BadUsername { name: "n".to_string() }, 400),
        (UserError::BlankPassword, 400),
        (UserError::UserExists { name: "n".to_string() }, 409),
    ];
    for (e, status) in cases {
        assert_eq!(e.status(), status);
    }
    assert_eq!(
        UserError::DogearNonMatching {
            url: "https://x.com/1".to_string(),
            prefix: "y.com/".to_string()
        }
        .message(),
        "The provided URL (https://x.com/1) doesn't match the provided prefix (y.com/)"
    );
    assert_eq!(
        UserError::Impossible("oops").message(),
        "Something impossible happened: oops"
    );
}

#[test]
fn form_checks() {
    assert!(check_session_csrf(SessionForm::Logout, "abc", "abc").is_ok());
    let e = check_session_csrf(SessionForm::Logout, "abc", "abd").expect_err("stale");
    assert_eq!(e.0.status, 400);
    assert_eq!(e.0.message, SessionForm::Logout.stale_message());
    assert!(check_login_csrf(LoginForm::Login, Some("t"), "t").is_ok());
    let broken = check_login_csrf(LoginForm::Login, None, "t").expect_err("broken");
    assert!(broken.0.message.contains("was broken"));
    let stale = check_login_csrf(LoginForm::Signup, Some("t"), "u").expect_err("stale");
    assert!(stale.0.message.contains("signup form"));
    assert!(stale.0.message.contains("stale"));

    assert!(check_new_password_form("snth", "snth").is_ok());
    assert_eq!(
        check_new_password_form("snth", "htns")
            .expect_err("no match")
            .0
            .status,
        400
    );
    assert!(check_new_password_form("", "").is_err());
    let e = check_signup(true, "a", "a").expect_err("logged in");
    assert_eq!(e.0.status, 403);
    assert_eq!(
        e.0.message,
        "Can't sign up while you're still logged in. (How'd you even do that, by the way?)"
    );
    assert_eq!(
        check_signup(false, "a", "b").expect_err("mismatch").0.message,
        "New passwords didn't match."
    );
    assert_eq!(
        check_signup(false, "", "").expect_err("empty").0.message,
        "New password can't be empty."
    );
    assert!(check_signup(false, "aaaaa", "aaaaa").is_ok());
    assert_eq!(check_signup(false, "a", "b").expect_err("mismatch").0.status, 400);
    assert_eq!(wrong_password(true).0.message, "Wrong existing password");
    assert_eq!(wrong_password(false).0.message, "Wrong password");

    assert!(check_delete_confirmation(" delete my account ").is_ok());
    let e = check_delete_confirmation("dewete my account uwu").expect_err("wrong");
    assert_eq!(e.0.status, 400);
    assert!(e.0.message.contains("but you typed \"dewete my account uwu\" instead."));
    assert_eq!(four_oh_four().0.status, 404);
}

#[test]
fn login_redirects_stay_on_site() {
    assert_eq!(
        login_redirect_target("https://eardogger.com/", "/account"),
        "https://eardogger.com/account"
    );
    assert_eq!(
        login_redirect_target("https://eardogger.com/", "https://evil.example.com/"),
        "https://eardogger.com/"
    );
    assert_eq!(
        login_redirect_target("https://eardogger.com/", "/mark?u=1"),
        "https://eardogger.com/mark?u=1"
    );
}

#[test]
fn site_origins_and_comments() {
    assert_eq!(
        site_origin("https://eardogger.com/some/path").as_deref(),
        Some("https://eardogger.com")
    );
    assert_eq!(
        site_origin("http://localhost:8080/").as_deref(),
        Some("http://localhost:8080")
    );
    assert_eq!(site_origin("not a url"), None);
    assert_eq!(
        personal_mark_comment("2024-06-01"),
        "Personal bookmarklet created 2024-06-01"
    );
}

#[test]
fn cross_origin_checks() {
    assert!(!is_cross_origin(None, "https://eardogger.com"));
    assert!(!is_cross_origin(
        Some("https://eardogger.com"),
        "https://eardogger.com"
    ));
    assert!(is_cross_origin(Some("https://example.com"), "https://eardogger.com"));
    assert!(check_cors_update("http://example.com", "http://example.com/comic/12").is_ok());
    assert!(matches!(
        check_cors_update("http://example.horse", "http://example.com/comic/12"),
        Err(UserError::Dogear404)
    ));
    match check_cors_update("http://example.com", "not a url") {
        Err(UserError::DogearInvalidUrl { url }) => assert_eq!(url, "not a url"),
        _ => panic!("must return DogearInvalidUrl"),
    }
}

#[test]
fn api_outcomes() {
    assert_eq!(delete_token_status(Ok(Some(()))), 204);
    assert_eq!(delete_token_status(Ok(None)), 404);
    assert_eq!(delete_token_status(Err(())), 500);
    assert_eq!(api_delete_outcome(true).ok(), Some(204));
    let e = api_delete_outcome(false).expect_err("404");
    assert_eq!(e.0.status, 404);
    assert_eq!(e.0.message, "dogear not found");

    let q = PaginationQuery {
        page: None,
        size: None,
    };
    assert_eq!(q.page(), 1);
    assert_eq!(q.size(), 50);
    let q = PaginationQuery {
        page: Some(2),
        size: Some(1),
    };
    assert_eq!((q.page(), q.size()), (2, 1));

    let d = Dogear {
        id: 1,
        user_id: 3,
        prefix: "example.com/".to_string(),
        current: "https://example.com/1".to_string(),
        display_name: None,
        updated: 0,
    };
    let list = ApiDogearsList::new(
        vec![d],
        ListMeta {
            count: 3,
            page: 2,
            size: 1,
        },
    );
    assert_eq!(list.data.len(), 1);
    let p = list.meta.pagination;
    assert_eq!(p.current_page, 2);
    assert_eq!(p.prev_page, Some(1));
    assert_eq!(p.next_page, Some(3));
    assert_eq!(p.total_pages, 3);
    assert_eq!(p.total_count, 3);
}
