use crm::auth::{accept_verified, bearer_token, AuthError, Jwt, User, JWT_AUD, JWT_DURATION, JWT_ISS};
use crm::config::{pick_config_source, ConfigError, ConfigSource};
use crm::server::UserServer;
use crm::time::Timestamp;
use jwt_simple::algorithms::{Ed25519KeyPair, Ed25519PublicKey};

#[test]
fn token_constants() {
    assert_eq!(JWT_DURATION, 604800);
    assert_eq!(JWT_ISS, "crm");
    assert_eq!(JWT_AUD, "crm_client");
}

#[test]
fn bearer_token_strips_the_prefix() {
    assert_eq!(bearer_token(Some("Bearer abc.def")).unwrap(), "abc.def");
    assert_eq!(bearer_token(Some("Bearer ")).unwrap(), "");
}

#[test]
fn bearer_token_refusals() {
    let e = bearer_token(None).unwrap_err();
    assert!(matches!(e, AuthError::MissingToken));
    assert_eq!(e.message(), "miss token");
    let e = bearer_token(Some("Basic abc")).unwrap_err();
    assert!(matches!(e, AuthError::InvalidTokenFormat));
    assert_eq!(e.message(), "invalid token format");
    assert!(matches!(bearer_token(Some("Bearer")), Err(AuthError::InvalidTokenFormat)));
    assert!(matches!(bearer_token(Some("bearer abc")), Err(AuthError::InvalidTokenFormat)));
}

#[test]
fn verified_users_pass_and_failures_are_rejected() {
    let u = User { id: 1, fullname: "C.Martin".to_string(), ..Default::default() };
    let ok = accept_verified(Ok(u.clone())).unwrap();
    assert_eq!(ok.id, 1);
    let e = accept_verified(Err("Token has expired".to_string())).unwrap_err();
    assert_eq!(e.message(), "Token has expired");
}

#[test]
fn user_text() {
    let u = User {
        id: 1,
        fullname: "C.Martin".to_string(),
        email: "testxxtestuaxx@gmail.com".to_string(),
        ..Default::default()
    };
    assert_eq!(
        u.to_display_string(),
        "UserID: 1, FullName: C.Martin, Email: testxxtestuaxx@gmail.com"
    );
    let d = User::default();
    assert_eq!(d.id, 0);
    assert_eq!(d.created_at, Timestamp { seconds: 0, nanos: 0 });
    assert!(d.password_hash.is_none());
}

#[test]
fn jwt_reads_matching_pem_keys() {
    let kp = Ed25519KeyPair::generate();
    let en = kp.to_pem();
    let de = kp.public_key().to_pem();
    assert!(Jwt::new(&en, &de).is_ok());
}

#[test]
fn jwt_refuses_bad_pem() {
    let kp = Ed25519KeyPair::generate();
    let en = kp.to_pem();
    let de = kp.public_key().to_pem();
    assert!(matches!(Jwt::new("not a key", &de), Err(AuthError::InvalidKey(_))));
    assert!(matches!(Jwt::new(&en, "not a key"), Err(AuthError::InvalidKey(_))));
}

#[test]
fn config_source_precedence() {
    assert_eq!(pick_config_source(true, true, Some("x".to_string())), Ok(ConfigSource::Local));
    assert_eq!(pick_config_source(false, true, Some("x".to_string())), Ok(ConfigSource::System));
    assert_eq!(
        pick_config_source(false, false, Some("/tmp/c.yml".to_string())),
        Ok(ConfigSource::EnvPath("/tmp/c.yml".to_string()))
    );
    assert_eq!(pick_config_source(false, false, None), Err(ConfigError::NotFound));
    assert_eq!(ConfigError::NotFound.message(), "");
}

#[test]
fn user_server_is_stateless() {
    let _s = UserServer::default();
}

#[test]
fn jwt_reports_the_key_pair_error_first() {
    let key_pair_error = Ed25519KeyPair::from_pem("bad pair").err().unwrap().to_string();
    let public_key_error = Ed25519PublicKey::from_pem("bad key").err().unwrap().to_string();
    match Jwt::new("bad pair", "bad key") {
        Err(AuthError::InvalidKey(m)) => assert_eq!(m, key_pair_error),
        _ => panic!("expected a key error"),
    }
    let en = Ed25519KeyPair::generate().to_pem();
    match Jwt::new(&en, "bad key") {
        Err(AuthError::InvalidKey(m)) => assert_eq!(m, public_key_error),
        _ => panic!("expected a key error"),
    }
}
