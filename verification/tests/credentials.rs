use seedy::{
    credentials_from_authorization, credentials_from_bytes, docker_credentials_from_auth_token,
    SeedyError,
};

#[test]
fn password_may_hold_colons() {
    let credentials = docker_credentials_from_auth_token(base64::encode("AWS:pass:word:")).unwrap();
    assert_eq!("AWS", credentials.username);
    assert_eq!("pass:word:", credentials.password);
}

#[test]
fn token_is_decoded_not_handed_back() {
    let credentials = docker_credentials_from_auth_token("Zm9vOmJhcg==".to_owned()).unwrap();
    assert_eq!("foo", credentials.username);
    assert_eq!("bar", credentials.password);
}

#[test]
fn empty_parts_are_kept() {
    let credentials = docker_credentials_from_auth_token(base64::encode(":")).unwrap();
    assert_eq!("", credentials.username);
    assert_eq!("", credentials.password);
}

#[test]
fn token_that_is_not_base64_is_malformed() {
    assert_eq!(
        Some(SeedyError::MalformedCredential),
        docker_credentials_from_auth_token("foo:bar".to_owned()).err()
    );
    assert_eq!(
        Some(SeedyError::MalformedCredential),
        docker_credentials_from_auth_token("Zm9vOmJhc".to_owned()).err()
    );
}

#[test]
fn token_without_colon_is_malformed() {
    assert_eq!(
        Some(SeedyError::MalformedCredential),
        docker_credentials_from_auth_token(base64::encode("foobar")).err()
    );
    assert_eq!(
        Some(SeedyError::MalformedCredential),
        docker_credentials_from_auth_token(String::new()).err()
    );
}

#[test]
fn bytes_that_are_not_utf8_are_malformed() {
    assert_eq!(
        Some(SeedyError::MalformedCredential),
        credentials_from_bytes(vec![0x66, 0x3a, 0xff]).err()
    );
    assert_eq!(
        Some(SeedyError::MalformedCredential),
        docker_credentials_from_auth_token(base64::encode([0x66u8, 0x3a, 0xff])).err()
    );
}

#[test]
fn bytes_are_read_as_utf8() {
    let credentials = credentials_from_bytes("användare:lösen".as_bytes().to_vec()).unwrap();
    assert_eq!("användare", credentials.username);
    assert_eq!("lösen", credentials.password);
}

#[test]
fn first_authorization_entry_decides() {
    let tokens = vec![Some(base64::encode("foo:bar")), Some(base64::encode("x:y")), None];
    let credentials = credentials_from_authorization(&tokens).unwrap().unwrap();
    assert_eq!("foo", credentials.username);
    assert_eq!("bar", credentials.password);
}

#[test]
fn no_authorization_entry_means_no_credentials() {
    assert!(credentials_from_authorization(&Vec::new()).unwrap().is_none());
}

#[test]
fn authorization_entry_without_token_is_malformed() {
    let tokens = vec![None, Some(base64::encode("foo:bar"))];
    assert_eq!(
        Some(SeedyError::MalformedCredential),
        credentials_from_authorization(&tokens).err()
    );
    let tokens = vec![Some("???".to_owned())];
    assert_eq!(
        Some(SeedyError::MalformedCredential),
        credentials_from_authorization(&tokens).err()
    );
}
