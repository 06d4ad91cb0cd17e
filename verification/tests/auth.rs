use std::time::{Duration, Instant};

use rutmf::api::auth::{
    authorization, base64_encode, refresh_after, refresh_at, token_form, token_lifetime,
};
use rutmf::api::{Auth, ClientCredentials, Error};

#[test]
fn a_short_lived_token_is_still_cached_for_part_of_its_life() {
    let margin_for = |lifetime: Duration| {
        let before = Instant::now();
        let at = refresh_at(lifetime).expect("the clock can represent it");
        (at.saturating_duration_since(before), before.elapsed())
    };

    let (ahead, slack) = margin_for(Duration::from_secs(10));
    assert!(
        ahead >= Duration::from_secs(5) && ahead <= Duration::from_secs(5) + slack,
        "a 10-second token should refresh at about 5s, got {ahead:?}"
    );

    let (ahead, slack) = margin_for(Duration::from_secs(3600));
    assert!(
        ahead >= Duration::from_secs(3570) && ahead <= Duration::from_secs(3570) + slack,
        "an hour-long token should refresh 30s early, got {ahead:?}"
    );

    assert!(refresh_at(Duration::ZERO).unwrap() <= Instant::now());
}

#[test]
fn base64_matches_rfc4648_vectors() {
    assert_eq!(base64_encode(""), "");
    assert_eq!(base64_encode("f"), "Zg==");
    assert_eq!(base64_encode("fo"), "Zm8=");
    assert_eq!(base64_encode("foo"), "Zm9v");
    assert_eq!(base64_encode("foob"), "Zm9vYg==");
    assert_eq!(base64_encode("fooba"), "Zm9vYmE=");
    assert_eq!(base64_encode("foobar"), "Zm9vYmFy");
    assert_eq!(base64_encode("user:pass"), "dXNlcjpwYXNz");
}

#[test]
fn base64_covers_the_whole_alphabet_and_utf8() {
    assert_eq!(base64_encode("\u{ff}\u{fe}"), "w7/Dvg==");
    assert_eq!(base64_encode("~~~"), "fn5+");
    assert_eq!(base64_encode("é"), "w6k=");
}

#[test]
fn the_refresh_margin_is_thirty_seconds_or_half_the_life() {
    assert_eq!(refresh_after(Duration::from_secs(3600)), Duration::from_secs(3570));
    assert_eq!(refresh_after(Duration::from_secs(10)), Duration::from_secs(5));
    assert_eq!(refresh_after(Duration::from_secs(60)), Duration::from_secs(30));
    assert_eq!(refresh_after(Duration::ZERO), Duration::ZERO);
    assert_eq!(refresh_after(Duration::from_nanos(3)), Duration::from_nanos(2));
}

#[test]
fn a_token_without_an_expiry_lives_five_minutes() {
    assert_eq!(token_lifetime(None), Duration::from_secs(300));
    assert_eq!(token_lifetime(Some(42)), Duration::from_secs(42));
}

#[test]
fn each_credential_produces_its_authorization_header() {
    assert_eq!(authorization(&Auth::Anonymous, "").unwrap(), None);
    assert_eq!(
        authorization(&Auth::Bearer("tok".into()), "ignored").unwrap().as_deref(),
        Some("Bearer tok")
    );
    let basic = Auth::Basic { username: "user".into(), password: "pass".into() };
    assert_eq!(authorization(&basic, "").unwrap().as_deref(), Some("Basic dXNlcjpwYXNz"));
    let cc = Auth::ClientCredentials(Box::new(ClientCredentials::new("https://idp/token", "c", "s")));
    assert_eq!(authorization(&cc, "fetched").unwrap().as_deref(), Some("Bearer fetched"));
    assert!(matches!(Auth::default(), Auth::Anonymous));
}

#[test]
fn a_credential_that_cannot_be_a_header_is_a_transport_error() {
    let broken = Auth::Bearer("line\nbreak".into());
    assert!(matches!(authorization(&broken, ""), Err(Error::Transport(_))));
    let tab = Auth::Bearer("a\tb".into());
    assert!(authorization(&tab, "").is_ok());
}

#[test]
fn the_token_request_names_the_grant_the_client_and_its_scopes() {
    let plain = ClientCredentials::new("https://idp/token", "client", "secret");
    assert_eq!(
        token_form(&plain),
        vec![
            ("grant_type".to_owned(), "client_credentials".to_owned()),
            ("client_id".to_owned(), "client".to_owned()),
            ("client_secret".to_owned(), "secret".to_owned()),
        ]
    );
    let scoped = plain.with_scopes(&["catalog:read", "catalog:write"]);
    let form = token_form(&scoped);
    assert_eq!(form.len(), 4);
    assert_eq!(form[3], ("scope".to_owned(), "catalog:read catalog:write".to_owned()));
}

#[test]
fn a_description_of_the_credentials_leaves_the_secret_out() {
    let c = ClientCredentials::new("https://idp/token", "client", "s3cr3t-do-not-print")
        .with_scopes(&["catalog:read"]);
    let text = c.describe();
    assert!(!text.contains("s3cr3t"));
    assert!(text.contains("client"));
}

#[test]
fn a_described_authentication_names_no_secret() {
    assert_eq!(Auth::Anonymous.describe(), "None");
    assert_eq!(Auth::Bearer("tok-123".into()).describe(), "Bearer(<redacted>)");
    let basic = Auth::Basic { username: "alice".into(), password: "hunter2".into() };
    assert_eq!(basic.describe(), "Basic alice <redacted>");
    assert!(!basic.describe().contains("hunter2"));
    let cc = Auth::ClientCredentials(Box::new(ClientCredentials::new(
        "https://idp/token",
        "client",
        "s3cret",
    )));
    assert_eq!(cc.describe(), "ClientCredentials https://idp/token client <redacted>");
    assert!(!cc.describe().contains("s3cret"));
}
