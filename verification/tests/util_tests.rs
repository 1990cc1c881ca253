use eardogger::util::error::{MixedError, UserError};
use eardogger::util::bookmarklets::make_bookmarklet;
use eardogger::util::url_encoding::encode_uri_component;
use eardogger::util::{
    check_new_password, checked_matchable_from_url, clean_optional_form_field,
    matchable_from_url, normalize_prefix_matcher, scheme_cut_fits, sha256sum, sqlite_offset,
    trim_and_check_scheme, trim_m_www, uuid_string, ListMeta, NewPasswordError, OffsetError,
    Pagination, UrlError,
};

#[test]
fn m_and_www() {
    assert_eq!(trim_m_www("m.example.com"), "example.com");
    assert_eq!(trim_m_www("www.example.com"), "example.com");
    assert_eq!(trim_m_www("m.www.example.com"), "example.com");
    assert_eq!(trim_m_www("www.m.example.com"), "example.com");
    assert_eq!(trim_m_www("somewhere.example.com"), "somewhere.example.com");
}

#[test]
fn scheme_trim() {
    assert_eq!(
        trim_and_check_scheme("https://example.com/comic").unwrap(),
        "example.com/comic"
    );
    assert_eq!(
        trim_and_check_scheme("http://example.com/comic").unwrap(),
        "example.com/comic"
    );
    assert!(trim_and_check_scheme("noscheme.example.com/comic").is_err());
    assert!(trim_and_check_scheme("ftp://example.com/comic.tgz").is_err());
}

#[test]
fn matcher_normalizing() {
    assert_eq!(normalize_prefix_matcher("m.example.com"), "example.com");
    assert_eq!(normalize_prefix_matcher("www.example.com"), "example.com");
    assert_eq!(normalize_prefix_matcher("m.www.example.com"), "example.com");
    assert_eq!(normalize_prefix_matcher("www.m.example.com"), "example.com");
    assert_eq!(
        normalize_prefix_matcher("somewhere.example.com"),
        "somewhere.example.com"
    );
    assert_eq!(
        normalize_prefix_matcher("http://www.m.example.com"),
        "example.com"
    );
    // If you do this one, you just messed up and need to fix it, we can't help ya:
    assert_eq!(
        normalize_prefix_matcher("ftp://www.m.example.com"),
        "ftp://www.m.example.com"
    );
}

#[test]
fn clean_optional_test() {
    assert_eq!(clean_optional_form_field(None), None);
    assert_eq!(
        clean_optional_form_field(Some("you@example.com")),
        Some("you@example.com")
    );
    assert_eq!(
        clean_optional_form_field(Some("me@example.com ")),
        Some("me@example.com")
    );
    assert_eq!(clean_optional_form_field(Some("")), None);
}

#[test]
fn bookmarklet_escaping() {
    let mut env = minijinja::Environment::new();
    env.add_template(
        "test.js.j2",
        r##"(() => { document.location.href = {{ own_origin }} + '/resume/' + encodeURIComponent(location.href); })();"##,
    )
    .expect("added ok");
    let ctx = std::collections::BTreeMap::from([("own_origin", "https://eardogger.com")]);
    let res = env
        .get_template("test.js.j2")
        .expect("got ok")
        .render(ctx)
        .expect("rendered ok");
    // The json auto-formatter QUOTES the input string when interpolating it:
    let expected = r##"(() => { document.location.href = "https://eardogger.com" + '/resume/' + encodeURIComponent(location.href); })();"##;
    assert_eq!(res, expected);
    let bookmarklet = make_bookmarklet(&res);
    let expected_bmkt = r#"javascript:(()%20%3D%3E%20%7B%20document.location.href%20%3D%20%22https%3A%2F%2Feardogger.com%22%20%2B%20'%2Fresume%2F'%20%2B%20encodeURIComponent(location.href)%3B%20%7D)()%3B"#;
    assert_eq!(bookmarklet, expected_bmkt);
}

#[test]
fn bookmarklet_minifies_comments_and_lines() {
    let js = "// leading comment\n   let a = 1;\n\n    let   b = 2;\n";
    assert_eq!(make_bookmarklet(js), "javascript:let%20a%20%3D%201%3B%20let%20b%20%3D%202%3B");
}

#[test]
fn uri_component_matches_percent_encoding_crate() {
    const SET: &percent_encoding::AsciiSet = &percent_encoding::CONTROLS
        .add(b'$')
        .add(b'%')
        .add(b'&')
        .add(b'+')
        .add(b',')
        .add(b'/')
        .add(b':')
        .add(b';')
        .add(b'=')
        .add(b'@')
        .add(b'[')
        .add(b'\\')
        .add(b']')
        .add(b'^')
        .add(b'|')
        .add(b'?')
        .add(b'`')
        .add(b'{')
        .add(b'}')
        .add(b' ')
        .add(b'"')
        .add(b'#')
        .add(b'<')
        .add(b'>');
    for text in [
        "",
        "plain",
        "a b&c=d/e?f#g",
        "naïve café ✓",
        "tab\tnew\nline\u{7f}",
        "'()*-._~!",
    ] {
        let ours = encode_uri_component(text);
        let theirs = percent_encoding::utf8_percent_encode(text, SET).to_string();
        assert_eq!(ours, theirs, "encoding {:?}", text);
    }
    assert_eq!(encode_uri_component("é"), "%C3%A9");
}

#[test]
fn encoded_text_is_uri_safe() {
    let out = encode_uri_component("a<b>\"c\" ü/%");
    assert!(out.chars().all(|c| c.is_ascii()
        && (c == '%' || c.is_ascii_alphanumeric() || "-_.!~*'()".contains(c))));
}

#[test]
fn pagination_basics() {
    let p: Pagination = ListMeta { count: 2, page: 2, size: 1 }.to_pagination();
    assert_eq!(p.current_page, 2);
    assert_eq!(p.total_pages, 2);
    assert_eq!(p.total_count, 2);
    assert_eq!(p.page_size, Some(1));
    assert_eq!(p.prev_page, Some(1));
    assert_eq!(p.next_page, None);

    let p = ListMeta { count: 120, page: 0, size: 50 }.to_pagination();
    assert_eq!(p.current_page, 1);
    assert_eq!(p.total_pages, 3);
    assert_eq!(p.page_size, None);
    assert_eq!(p.prev_page, None);
    assert_eq!(p.next_page, Some(2));
}

#[test]
fn pagination_past_the_end_links_back_to_last_page() {
    let p = ListMeta { count: 5, page: 9, size: 2 }.to_pagination();
    assert_eq!(p.total_pages, 3);
    assert_eq!(p.prev_page, Some(3));
    assert_eq!(p.next_page, None);
    let empty = ListMeta { count: 0, page: 1, size: 50 }.to_pagination();
    assert_eq!(empty.total_pages, 0);
    assert_eq!(empty.prev_page, None);
    assert_eq!(empty.next_page, None);
}

#[test]
fn pages_cover_list() {
    for (count, size) in [(0u32, 1u32), (1, 1), (7, 3), (9, 3), (10, 3), (4_000_000_000, 7)] {
        let t = ListMeta { count, page: 1, size }.to_pagination().total_pages as u64;
        assert!(count as u64 <= t * size as u64);
        if count > 0 {
            assert!((t - 1) * (size as u64) < count as u64);
        }
    }
    assert_eq!(ListMeta { count: u32::MAX, page: 1, size: 2 }.to_pagination().total_pages, 2_147_483_648);
}

#[test]
fn offsets() {
    assert_eq!(sqlite_offset(1, 50), Ok(0));
    assert_eq!(sqlite_offset(3, 50), Ok(100));
    assert_eq!(sqlite_offset(4, 50).unwrap(), sqlite_offset(3, 50).unwrap() + 50);
    assert_eq!(sqlite_offset(u32::MAX, 500), Ok(((u32::MAX as i64) - 1) * 500));
    assert_eq!(sqlite_offset(0, 50), Err(OffsetError::InvalidPage));
    assert_eq!(sqlite_offset(1, 501), Err(OffsetError::PageTooLarge));
    assert_eq!(sqlite_offset(0, 501), Err(OffsetError::InvalidPage));
    assert_eq!(OffsetError::InvalidPage.message(), "Invalid page number.");
    assert_eq!(OffsetError::PageTooLarge.message(), "Requested page size is too large.");
}

#[test]
fn new_password_checks() {
    assert_eq!(check_new_password("a", "b"), Err(NewPasswordError::NonMatching));
    assert_eq!(check_new_password("", ""), Err(NewPasswordError::Empty));
    assert_eq!(check_new_password("", "x"), Err(NewPasswordError::NonMatching));
    assert_eq!(check_new_password("hunter2", "hunter2"), Ok(()));
    assert_eq!(NewPasswordError::NonMatching.message(), "New passwords didn't match.");
    assert_eq!(NewPasswordError::Empty.message(), "New password can't be empty.");
}

#[test]
fn clean_field_is_idempotent() {
    for field in [None, Some(""), Some("   "), Some(" x "), Some("\u{3000}y\u{a0}")] {
        let once = clean_optional_form_field(field);
        assert_eq!(clean_optional_form_field(once), once);
    }
    assert_eq!(clean_optional_form_field(Some("\t\n ")), None);
    assert_eq!(clean_optional_form_field(Some("\u{3000}y\u{a0}")), Some("y"));
}

#[test]
fn trim_m_www_is_idempotent() {
    for s in ["m.m.www.x.org/a", "www.", "m.", "mm.x", "wwww.x", ""] {
        let once = trim_m_www(s);
        assert_eq!(trim_m_www(once), once);
        assert!(s.ends_with(once));
    }
    assert_eq!(trim_m_www("www."), "");
    assert_eq!(trim_m_www("m.www.m.www.example.com"), "example.com");
}

#[test]
fn url_scheme_errors() {
    match trim_and_check_scheme("noscheme.example.com/comic") {
        Err(UrlError::Invalid { url }) => assert_eq!(url, "noscheme.example.com/comic"),
        other => panic!("wrong result: {:?}", other),
    }
    match trim_and_check_scheme("ftp://example.com/comic.tgz") {
        Err(UrlError::UnsupportedScheme { scheme }) => assert_eq!(scheme, "ftp"),
        other => panic!("wrong result: {:?}", other),
    }
    // The scheme is read case-insensitively, and the cut counts bytes.
    assert_eq!(trim_and_check_scheme("HTTPS://Example.com/x").unwrap(), "Example.com/x");
}

#[test]
fn matchable_urls() {
    assert_eq!(matchable_from_url("https://www.example.com/comic/2").unwrap(), "example.com/comic/2");
    assert_eq!(matchable_from_url("http://m.example.com/comic/4").unwrap(), "example.com/comic/4");
    assert_eq!(
        matchable_from_url("https://www.example.com/comic/   ").unwrap(),
        "example.com/comic/   "
    );
    assert!(matchable_from_url("mailto:someone@example.com").is_err());
    // A URL is matched by itself used as a prefix.
    let url = "https://www.m.example.com/serial/4";
    assert_eq!(normalize_prefix_matcher(url), matchable_from_url(url).unwrap());
}

#[test]
fn misplaced_scheme_cuts_are_reported() {
    // The parser accepts these without a literal "scheme://" at the start.
    assert!(!scheme_cut_fits("http:a"));
    assert!(checked_matchable_from_url("http:a").is_none());
    assert!(!scheme_cut_fits("http:aé"));
    assert!(scheme_cut_fits("https://example.com"));
    assert!(scheme_cut_fits("not a url"));
    assert_eq!(
        checked_matchable_from_url("https://www.example.com/a").unwrap().unwrap(),
        "example.com/a"
    );
    assert!(checked_matchable_from_url("garbage").unwrap().is_err());
}

#[test]
fn sha256sum_known_values() {
    assert_eq!(
        sha256sum(""),
        "e3b0c44298fc1c149afbf4c8996fb92427ae41e4649b934ca495991b7852b855"
    );
    assert_eq!(
        sha256sum("abc"),
        "ba7816bf8f01cfea414140de5dae2223b00361a396177a9cb410ff61f20015ad"
    );
    let h = sha256sum("eardoggerv1.something");
    assert_eq!(h.len(), 64);
    assert!(h.chars().all(|c| c.is_ascii_digit() || ('a'..='f').contains(&c)));
}

#[test]
fn uuid_strings_are_v4() {
    let a = uuid_string();
    let b = uuid_string();
    assert_ne!(a, b);
    for u in [a, b] {
        let chars: Vec<char> = u.chars().collect();
        assert_eq!(chars.len(), 36);
        for i in [8, 13, 18, 23] {
            assert_eq!(chars[i], '-');
        }
        assert_eq!(chars[14], '4');
        assert!(['8', '9', 'a', 'b'].contains(&chars[19]));
        assert!(u.chars().all(|c| c == '-' || c.is_ascii_digit() || ('a'..='f').contains(&c)));
    }
}

#[test]
fn either_scheme_matches_the_same() {
    for rest in ["example.com/comic/2", "www.example.com/a?b=c", "m.example.com/"] {
        let http = format!("http://{}", rest);
        let https = format!("https://{}", rest);
        assert_eq!(
            matchable_from_url(&http).unwrap(),
            matchable_from_url(&https).unwrap()
        );
    }
}

#[test]
fn normalized_prefixes_are_stable() {
    for prefix in [
        "http://www.example.com/story/",
        "m.www.example.com/comic",
        "example.com/extras/",
    ] {
        let once = normalize_prefix_matcher(prefix);
        assert_eq!(normalize_prefix_matcher(once), once);
    }
}

#[test]
fn bookmarklet_drops_own_line_comments_anywhere() {
    assert_eq!(make_bookmarklet("a();\n// note\nb();\n"), "javascript:a()%3Bb()%3B");
    assert_eq!(
        make_bookmarklet("a();\n    // indented note\n  b();\n// last\n"),
        "javascript:a()%3B%20b()%3B"
    );
}

#[test]
fn bookmarklet_is_one_line_without_space_runs() {
    let js = "// lead\n(() => {\n    let x  =  1;\n\n    // mid\n    go(x);\n})();\n";
    let b = make_bookmarklet(js);
    let body = b.strip_prefix("javascript:").expect("scheme");
    assert!(!body.contains("%0A"));
    assert!(!body.contains("%20%20"));
    assert_eq!(
        body,
        "(()%20%3D%3E%20%7B%20let%20x%20%3D%201%3B%20go(x)%3B%7D)()%3B"
    );
}

#[test]
fn minified_script_is_only_encoded() {
    let js = "(() => { location.href = 'https://example.com/' + x; })();";
    assert_eq!(
        make_bookmarklet(js),
        format!("javascript:{}", encode_uri_component(js))
    );
}

#[test]
fn normalized_prefix_is_a_suffix() {
    for prefix in [
        "https://m.www.example.com/comic/",
        "www.example.com/x",
        "ftp://www.example.com/",
        "example.com/",
    ] {
        let r = normalize_prefix_matcher(prefix);
        assert!(prefix.ends_with(r));
        assert!(!r.starts_with("m.") && !r.starts_with("www."));
    }
    assert_eq!(normalize_prefix_matcher("www.m.example.com/a"), trim_m_www("www.m.example.com/a"));
}

#[test]
fn page_errors_for_handlers() {
    match OffsetError::InvalidPage.into_handler_error() {
        MixedError::Server(e) => assert_eq!(e.0, "Invalid page number."),
        _ => panic!("page 0 is a server error"),
    }
    assert!(matches!(
        OffsetError::PageTooLarge.into_handler_error(),
        MixedError::User(UserError::PageOversize)
    ));
    assert_eq!(sqlite_offset(0, 10), Err(OffsetError::InvalidPage));
    assert_eq!(sqlite_offset(1, 501), Err(OffsetError::PageTooLarge));
}
