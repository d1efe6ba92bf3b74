use growatt::client::login_form;
use growatt::response::{check_status, unwrap_response, UnwrapStrategy};
use growatt::{Growatt, GrowattError, JsonValue};

fn login_response(fields: Vec<(&str, JsonValue)>) -> JsonValue {
    JsonValue::Object(
        fields
            .into_iter()
            .map(|(k, v)| (k.to_string(), v))
            .collect(),
    )
}

#[test]
fn test_settings_applied() {
    let client = Growatt::from_settings(
        Some("test_username".to_string()),
        Some("test_password".to_string()),
        Some("https://openapi.growatt.com".to_string()),
        Some(45),
    );
    assert_eq!(client.username, Some("test_username".to_string()));
    assert_eq!(client.password, Some("test_password".to_string()));
    assert_eq!(client.base_url, "https://openapi.growatt.com");
    assert_eq!(client.session_duration_minutes, 45);

    // loads are independent: a second load with nothing set falls back to
    // the fresh-client defaults, untouched by the first load
    let fresh = Growatt::from_settings(None, None, None, None);
    assert_eq!(fresh.username, None);
    assert_eq!(fresh.password, None);
    assert_eq!(fresh.base_url, "https://server.growatt.com");
    assert_eq!(fresh.session_duration_minutes, 30);
}

#[test]
fn test_login_success_without_token() {
    let mut client = Growatt::new();
    let response = login_response(vec![("result", JsonValue::Number("1".to_string()))]);
    let now = 1_000_000;
    let r = client.apply_login_response(&response, now);
    assert_eq!(r, Ok(true));
    assert!(client.is_logged_in);
    assert_eq!(client.session_expiry, Some(now + 30 * 60_000));
    assert!(client.token.is_none());
}

#[test]
fn test_login_success_with_token() {
    let mut client = Growatt::new();
    let response = login_response(vec![
        ("result", JsonValue::Number("1".to_string())),
        ("token", JsonValue::Str("abc123".to_string())),
    ]);
    let r = client.apply_login_response(&response, 0);
    assert_eq!(r, Ok(true));
    assert_eq!(client.get_token(), Some("abc123".to_string()));
}

#[test]
fn test_login_failure_clears_state() {
    let mut client = Growatt::new();
    client.is_logged_in = true;
    client.session_expiry = Some(99);
    let response = login_response(vec![
        ("result", JsonValue::Number("0".to_string())),
        ("msg", JsonValue::Str("bad credentials".to_string())),
    ]);
    let r = client.apply_login_response(&response, 0);
    assert_eq!(r, Err(GrowattError::AuthError("bad credentials".to_string())));
    assert!(!client.is_logged_in);
    assert!(client.session_expiry.is_none());
}

#[test]
fn test_login_failure_without_msg() {
    let mut client = Growatt::new();
    let response = login_response(vec![("result", JsonValue::Number("0".to_string()))]);
    let r = client.apply_login_response(&response, 0);
    assert_eq!(r, Err(GrowattError::AuthError("Unknown error".to_string())));
}

#[test]
fn test_login_invalid_shape() {
    let mut client = Growatt::new();
    // the result field must be numeric; a string does not count
    let response = login_response(vec![("result", JsonValue::Str("1".to_string()))]);
    let r = client.apply_login_response(&response, 0);
    assert_eq!(
        r,
        Err(GrowattError::InvalidResponse(
            "Invalid response structure".to_string()
        ))
    );
    assert!(!client.is_logged_in);
    assert!(client.session_expiry.is_none());

    let empty = login_response(vec![]);
    let r = client.apply_login_response(&empty, 0);
    assert!(matches!(r, Err(GrowattError::InvalidResponse(_))));
}

#[test]
fn test_login_prepare_fast_path() {
    let mut client = Growatt::new();
    client.is_logged_in = true;
    client.session_expiry = Some(10_000);
    // usable session: skip the network call and keep the state untouched
    assert!(client.login_prepare("user", "pw", 5_000));
    assert!(client.username.is_none());

    // expired session: store the credentials and ask for the network call
    assert!(!client.login_prepare("user", "pw", 20_000));
    assert_eq!(client.username, Some("user".to_string()));
    assert_eq!(client.password, Some("pw".to_string()));
}

#[test]
fn test_ensure_session_no_credentials() {
    let client = Growatt::new();
    // logged out, nothing stored: refused without any network call owed
    let r = client.ensure_session_step(0);
    assert_eq!(r, Err(GrowattError::NotLoggedIn));
}

#[test]
fn test_ensure_session_renewal() {
    let mut client = Growatt::new();
    client.username = Some("stored_user".to_string());
    client.password = Some("stored_pw".to_string());
    client.is_logged_in = true;
    client.session_expiry = Some(1_000);
    // expired: the guard hands back the stored credentials for silent renewal
    let r = client.ensure_session_step(2_000);
    assert_eq!(
        r,
        Ok(Some(("stored_user".to_string(), "stored_pw".to_string())))
    );
}

#[test]
fn test_ensure_session_ready() {
    let mut client = Growatt::new();
    client.is_logged_in = true;
    client.session_expiry = Some(10_000);
    assert_eq!(client.ensure_session_step(5_000), Ok(None));
}

#[test]
fn test_logout_transitions() {
    let mut client = Growatt::new();
    client.is_logged_in = true;
    client.session_expiry = Some(10_000);
    client.token = Some("tok".to_string());

    // only a 302 confirms the logout; other statuses leave the state alone
    assert!(!client.apply_logout_response(200));
    assert!(client.is_logged_in);
    assert_eq!(client.session_expiry, Some(10_000));

    assert!(client.apply_logout_response(302));
    assert!(!client.is_logged_in);
    assert!(client.session_expiry.is_none());
    // the token deliberately survives a logout
    assert_eq!(client.token, Some("tok".to_string()));
}

#[test]
fn test_login_form_fields() {
    let form = login_form("someone", "deadbeef");
    assert_eq!(form.len(), 5);
    assert_eq!(form[0], ("account".to_string(), "someone".to_string()));
    assert_eq!(form[1], ("password".to_string(), "".to_string()));
    assert_eq!(form[2], ("validateCode".to_string(), "".to_string()));
    assert_eq!(form[3], ("isReadPact".to_string(), "1".to_string()));
    assert_eq!(form[4], ("passwordCrc".to_string(), "deadbeef".to_string()));
}

#[test]
fn test_hash_deterministic() {
    let client = Growatt::new();
    assert_eq!(client.hash_password("anything"), client.hash_password("anything"));
    assert_ne!(client.hash_password("anything"), client.hash_password("else"));
}

#[test]
fn test_check_status() {
    assert!(check_status(200).is_ok());
    assert!(check_status(299).is_ok());
    assert!(matches!(
        check_status(302),
        Err(GrowattError::RequestError(_))
    ));
    assert!(matches!(
        check_status(500),
        Err(GrowattError::RequestError(_))
    ));
}

#[test]
fn test_unwrap_obj_sentinels() {
    let empty_msg = "Empty response. Please ensure you are logged in.".to_string();

    let null_obj = login_response(vec![("obj", JsonValue::Null)]);
    let r = unwrap_response(&null_obj, &UnwrapStrategy::ObjField);
    assert_eq!(r, Err(GrowattError::InvalidResponse(empty_msg.clone())));

    let empty_obj = login_response(vec![("obj", JsonValue::Object(vec![]))]);
    let r = unwrap_response(&empty_obj, &UnwrapStrategy::ObjField);
    assert_eq!(r, Err(GrowattError::InvalidResponse(empty_msg)));

    let missing = login_response(vec![]);
    let r = unwrap_response(&missing, &UnwrapStrategy::ObjField);
    assert_eq!(
        r,
        Err(GrowattError::InvalidResponse(
            "Invalid response structure".to_string()
        ))
    );

    let good = login_response(vec![(
        "obj",
        JsonValue::Object(vec![("x".to_string(), JsonValue::Null)]),
    )]);
    let r = unwrap_response(&good, &UnwrapStrategy::ObjField);
    assert!(r.is_ok());
}

#[test]
fn test_unwrap_array() {
    let empty = JsonValue::Array(vec![]);
    assert!(unwrap_response(&empty, &UnwrapStrategy::TopArray).is_err());

    let not_array = JsonValue::Object(vec![]);
    assert!(unwrap_response(&not_array, &UnwrapStrategy::TopArray).is_err());

    let full = JsonValue::Array(vec![JsonValue::Boolean(true)]);
    let r = unwrap_response(&full, &UnwrapStrategy::TopArray).unwrap();
    assert_eq!(*r, full);
}

#[test]
fn test_unwrap_nested() {
    let nested = |inner: JsonValue| {
        login_response(vec![(
            "obj",
            JsonValue::Object(vec![("mix".to_string(), inner)]),
        )])
    };
    let strategy = UnwrapStrategy::ObjNested("mix".to_string());

    let null_mix = nested(JsonValue::Null);
    let r = unwrap_response(&null_mix, &strategy);
    assert!(matches!(r, Err(GrowattError::InvalidResponse(_))));

    let empty_mix = nested(JsonValue::Array(vec![]));
    let r = unwrap_response(&empty_mix, &strategy);
    assert!(matches!(r, Err(GrowattError::InvalidResponse(_))));

    let wrapper = nested(JsonValue::Array(vec![JsonValue::Str("sn1".to_string())]));
    let r = unwrap_response(&wrapper, &strategy).unwrap();
    assert_eq!(*r, JsonValue::Array(vec![JsonValue::Str("sn1".to_string())]));

    // no mix field under obj at all
    let no_mix = login_response(vec![("obj", JsonValue::Object(vec![]))]);
    let r = unwrap_response(&no_mix, &strategy);
    assert_eq!(
        r,
        Err(GrowattError::InvalidResponse(
            "Invalid response structure".to_string()
        ))
    );
}

#[test]
fn test_unwrap_bare() {
    assert!(unwrap_response(&JsonValue::Null, &UnwrapStrategy::Bare).is_err());
    assert!(unwrap_response(&JsonValue::Object(vec![]), &UnwrapStrategy::Bare).is_err());
    let body = JsonValue::Object(vec![("k".to_string(), JsonValue::Boolean(true))]);
    let r = unwrap_response(&body, &UnwrapStrategy::Bare).unwrap();
    assert_eq!(*r, body);
}

#[test]
fn test_session_validity_boundary() {
    let mut client = Growatt::new();
    // unset expiry: never valid, whatever the clock says
    assert!(!client.is_session_valid_at(0));
    assert!(!client.is_session_valid_at(i64::MAX));
    client.session_expiry = Some(100);
    // future expiry: valid strictly before the instant itself
    assert!(client.is_session_valid_at(99));
    assert!(!client.is_session_valid_at(100));
    assert!(!client.is_session_valid_at(101));
    // the flag does not enter the validity question
    client.is_logged_in = true;
    assert!(!client.is_session_valid_at(100));
}
