use ferrflow::bot_token::{
    accept_oidc_value, announcements, bot_mode_enabled, encode_query_component, issued_token,
    gitdir_include_keys, listed_config_keys, map_status_error, service_failure_error, BotError,
    BotSession, BotTokenExchange, IssuedToken, ServiceFailure,
};

const DEFAULT_ENDPOINT: &str = "https://api.ferrlabs.com/api/v1/ferrflow/token";
const DEFAULT_AUDIENCE: &str = "ferrflow.ferrlabs.com";

fn percent_decode(s: &str) -> Vec<u8> {
    let b = s.as_bytes();
    let mut out = Vec::new();
    let mut i = 0;
    while i < b.len() {
        if b[i] == b'%' && i + 2 < b.len() {
            let hex = std::str::from_utf8(&b[i + 1..i + 3]).unwrap();
            out.push(u8::from_str_radix(hex, 16).unwrap());
            i += 3;
        } else {
            out.push(b[i]);
            i += 1;
        }
    }
    out
}

#[test]
fn bot_mode_detection() {
    assert!(bot_mode_enabled(Some("true")));
    assert!(bot_mode_enabled(Some("1")));
    assert!(bot_mode_enabled(Some("TRUE")));
    assert!(!bot_mode_enabled(Some("false")));
    assert!(!bot_mode_enabled(Some("")));
    assert!(!bot_mode_enabled(None));
}

#[test]
fn bot_mode_ignores_surrounding_white_space() {
    assert!(bot_mode_enabled(Some("  True\n")));
    assert!(!bot_mode_enabled(Some("yes")));
    assert!(!bot_mode_enabled(Some("tr ue")));
}

#[test]
fn defaults_use_hosted_endpoint_and_audience() {
    let ex = BotTokenExchange::from_overrides(None, None);
    assert_eq!(ex.endpoint, DEFAULT_ENDPOINT);
    assert_eq!(ex.audience, DEFAULT_AUDIENCE);
}

#[test]
fn overrides_applied() {
    let ex = BotTokenExchange::from_overrides(
        Some("https://example.test/t".to_string()),
        Some("aud.example.test".to_string()),
    );
    assert_eq!(ex.endpoint, "https://example.test/t");
    assert_eq!(ex.audience, "aud.example.test");
}

#[test]
fn empty_overrides_fall_back_to_defaults() {
    let ex = BotTokenExchange::from_overrides(Some(String::new()), Some(String::new()));
    assert_eq!(ex.endpoint, DEFAULT_ENDPOINT);
    assert_eq!(ex.audience, DEFAULT_AUDIENCE);
}

#[test]
fn issue_errors_when_runner_env_missing() {
    let err = match BotTokenExchange::from_overrides(None, None).oidc_request(None, None) {
        Err(e) => e,
        Ok(_) => panic!("expected an error"),
    };
    let msg = err.message();
    assert!(
        msg.contains("id-token: write"),
        "expected id-token hint in error, got: {msg}"
    );
}

#[test]
fn missing_request_token_is_reported_after_the_url() {
    let ex = BotTokenExchange::from_overrides(None, None);
    match ex.oidc_request(Some("https://runner/token?x=1".to_string()), None) {
        Err(BotError::MissingRequestToken) => {}
        _ => panic!("expected MissingRequestToken"),
    }
    match ex.oidc_request(None, Some("t".to_string())) {
        Err(e @ BotError::MissingRequestUrl) => {
            assert!(e.message().contains("ACTIONS_ID_TOKEN_REQUEST_URL not set"))
        }
        _ => panic!("expected MissingRequestUrl"),
    }
}

#[test]
fn oidc_request_appends_the_encoded_audience() {
    let ex = BotTokenExchange::from_overrides(None, Some("aud ience".to_string()));
    let req = match ex.oidc_request(
        Some("https://runner/token?api-version=2.0".to_string()),
        Some("secret".to_string()),
    ) {
        Ok(r) => r,
        Err(e) => panic!("{}", e.message()),
    };
    assert_eq!(req.url, "https://runner/token?api-version=2.0&audience=aud%20ience");
    assert_eq!(req.authorization, "Bearer secret");
    let plain = BotTokenExchange::from_overrides(None, None)
        .oidc_request(Some("https://runner/token".to_string()), Some("s".to_string()));
    match plain {
        Ok(r) => assert_eq!(r.url, "https://runner/token?audience=ferrflow.ferrlabs.com"),
        Err(e) => panic!("{}", e.message()),
    }
}

#[test]
fn encode_query_component_leaves_safe_chars() {
    assert_eq!(
        encode_query_component("ferrflow.ferrlabs.com"),
        "ferrflow.ferrlabs.com"
    );
}

#[test]
fn encode_query_component_escapes_unsafe() {
    assert_eq!(encode_query_component("a b&c=d"), "a%20b%26c%3Dd");
}

#[test]
fn encode_query_component_escapes_each_utf8_byte() {
    assert_eq!(encode_query_component("é~_-"), "%C3%A9~_-");
    assert_eq!(encode_query_component(""), "");
    assert_eq!(encode_query_component("%"), "%25");
}

#[test]
fn encoded_components_decode_back() {
    for input in ["a b&c=d", "ferrflow.ferrlabs.com", "é/?#%", ""] {
        let encoded = encode_query_component(input);
        assert_eq!(percent_decode(&encoded), input.as_bytes().to_vec());
    }
}

#[test]
fn status_codes_map_to_their_errors() {
    assert!(map_status_error(401).message().contains("(401)"));
    assert!(matches!(map_status_error(401), BotError::VerificationFailed));
    assert!(matches!(map_status_error(404), BotError::AppNotInstalled));
    assert!(map_status_error(404).message().contains("https://github.com/apps/ferrflow"));
    assert!(matches!(map_status_error(429), BotError::RateLimited));
    assert!(matches!(map_status_error(500), BotError::ServiceUnavailable(500)));
    assert!(matches!(map_status_error(599), BotError::ServiceUnavailable(599)));
    assert_eq!(
        map_status_error(503).message(),
        "FerrFlow hosted bot service unavailable (503). Check https://status.ferrlabs.com"
    );
    assert!(matches!(map_status_error(600), BotError::UnexpectedStatus(600)));
    assert_eq!(
        map_status_error(418).message(),
        "FerrFlow hosted bot returned unexpected HTTP status 418"
    );
}

#[test]
fn failed_posts_become_errors() {
    assert!(matches!(
        service_failure_error(ServiceFailure::Status(429)),
        BotError::RateLimited
    ));
    let e = service_failure_error(ServiceFailure::Transport("dns error".to_string()));
    assert_eq!(
        e.message(),
        "FerrFlow hosted bot unavailable: dns error. Check https://status.ferrlabs.com or fall back to a PAT via `token:`."
    );
}

#[test]
fn empty_oidc_value_and_empty_token_are_errors() {
    assert!(matches!(accept_oidc_value(String::new()), Err(BotError::OidcValueMissing)));
    assert!(matches!(accept_oidc_value("jwt".to_string()), Ok(v) if v == "jwt"));
    match issued_token(String::new(), String::new(), String::new()) {
        Err(e @ BotError::NoToken) => {
            assert_eq!(e.message(), "FerrFlow bot service response did not contain a token")
        }
        _ => panic!("expected NoToken"),
    }
    match issued_token("ghs_x".to_string(), "2030".to_string(), "o/r".to_string()) {
        Ok(t) => {
            assert_eq!(t.token, "ghs_x");
            assert_eq!(t.expires_at, "2030");
            assert_eq!(t.repository, "o/r");
        }
        Err(_) => panic!("expected a token"),
    }
}

#[test]
fn wrapped_causes_are_kept() {
    let e = BotError::OidcNotJson("expected value".to_string());
    assert_eq!(e.message(), "OIDC response from runner was not valid JSON");
    assert_eq!(e.cause().as_deref(), Some("expected value"));
    assert!(BotError::OidcValueMissing.cause().is_none());
    assert_eq!(
        BotError::OidcRequestFailed("x".to_string()).message(),
        "failed to request OIDC token from GitHub Actions runner"
    );
    assert_eq!(
        BotError::ResponseNotJson("x".to_string()).message(),
        "FerrFlow bot service response was not valid JSON"
    );
}

#[test]
fn announcements_name_repository_and_expiry_when_known() {
    let full = IssuedToken {
        token: "tok".to_string(),
        expires_at: "2030-01-01T00:00:00Z".to_string(),
        repository: "acme/app".to_string(),
    };
    let (mask, line) = announcements(&full);
    assert_eq!(mask, "::add-mask::tok");
    assert_eq!(
        line,
        "Authenticated as ferrflow[bot] on acme/app (expires at 2030-01-01T00:00:00Z)."
    );
    let bare = IssuedToken {
        token: "tok".to_string(),
        expires_at: String::new(),
        repository: String::new(),
    };
    assert_eq!(announcements(&bare).1, "Authenticated as ferrflow[bot].");
}

#[test]
fn the_exchange_runs_once_and_only_in_bot_mode() {
    let mut session = BotSession::new();
    assert!(!session.start_exchange(false));
    assert!(!session.exchanged);
    assert!(session.start_exchange(true));
    assert!(session.exchanged);
    assert!(!session.start_exchange(true));
    assert!(!session.start_exchange(false));
}

#[test]
fn only_gitdir_includes_are_stripped() {
    let listing = "includeif.gitdir:/w/.git.path /tmp/c.config\nincludeIf.onbranch:main.path /x\nINCLUDEIF.GITDIR:/y.path z\nincludeif.gitdir/i:/z.path q\n";
    assert_eq!(
        gitdir_include_keys(listing),
        vec!["includeif.gitdir:/w/.git.path".to_string(), "INCLUDEIF.GITDIR:/y.path".to_string()]
    );
    assert!(gitdir_include_keys("").is_empty());
}

#[test]
fn listed_config_keys_take_the_first_word_of_each_line() {
    let listing = "includeIf.gitdir:/a/.git.path /tmp/creds.config\n\n  includeIf.gitdir:/b.path x\r\nlast.key";
    assert_eq!(
        listed_config_keys(listing),
        vec![
            "includeIf.gitdir:/a/.git.path".to_string(),
            "includeIf.gitdir:/b.path".to_string(),
            "last.key".to_string(),
        ]
    );
    assert!(listed_config_keys("").is_empty());
    assert!(listed_config_keys("\n \n").is_empty());
}
