//! The credentials that the registry hands out as an authorization token.
//!
//! A token is the base64 form of `username:password`. The base64 part is
//! the work of the `base64` crate and the UTF-8 part that of std; both
//! calls carry contracts that are taken on trust.

use crate::error::SeedyError;
use crate::text::{after, before, split_once};
use vstd::prelude::*;
use vstd::utf8::{decode_utf8, valid_utf8};

verus! {

/// `base64::DecodeError`, the reason a text was not decoded.
#[verifier::external_type_specification]
#[verifier::external_body]
pub struct ExBase64DecodeError(base64::DecodeError);

/// `std::string::FromUtf8Error`, the error of `String::from_utf8`.
#[verifier::external_type_specification]
#[verifier::external_body]
pub struct ExFromUtf8Error(std::string::FromUtf8Error);

/// The bytes that `base64::decode` reads from a text, or `None` where it
/// reports an error.
pub uninterp spec fn base64_decoded(text: Seq<char>) -> Option<Seq<u8>>;

/// `base64::decode`. Trusted: the outcome depends on the text alone, and
/// is what [`base64_decoded`] names. On a `&str` the call does not panic:
/// its length computations overflow only for inputs longer than a string
/// can be.
#[verifier::external_body]
pub(crate) fn base64_decode(text: &str) -> (r: Result<Vec<u8>, base64::DecodeError>)
    ensures
        match r {
            Ok(bytes) => base64_decoded(text@) == Some(bytes@),
            Err(_) => base64_decoded(text@) is None,
        },
{
    base64::decode(text)
}

/// `String::from_utf8`. Trusted: bytes that are valid UTF-8 come back as
/// the string they encode, any others as an error.
#[verifier::external_body]
pub(crate) fn string_from_utf8(bytes: Vec<u8>) -> (r: Result<String, std::string::FromUtf8Error>)
    ensures
        match r {
            Ok(text) => valid_utf8(bytes@) && text@ == decode_utf8(bytes@),
            Err(_) => !valid_utf8(bytes@),
        },
{
    String::from_utf8(bytes)
}

/// A user name and a password for the registry. They serve one update and
/// are not kept.
pub struct RegistryCredentials {
    pub username: String,
    pub password: String,
}

/// [`RegistryCredentials`] with their strings as sequences of characters.
pub struct CredentialsView {
    pub username: Seq<char>,
    pub password: Seq<char>,
}

impl View for RegistryCredentials {
    type V = CredentialsView;

    open spec fn view(&self) -> CredentialsView {
        CredentialsView { username: self.username@, password: self.password@ }
    }
}

impl Clone for RegistryCredentials {
    fn clone(&self) -> (r: Self)
        ensures
            r@ == self@,
    {
        RegistryCredentials { username: self.username.clone(), password: self.password.clone() }
    }
}

/// What a decoder of credentials returns, with the credentials as their
/// view.
pub open spec fn credentials_view(r: Result<RegistryCredentials, SeedyError>) -> Result<
    CredentialsView,
    SeedyError,
> {
    match r {
        Ok(credentials) => Ok(credentials@),
        Err(e) => Err(e),
    }
}

/// The credentials in `username:password`. The user name ends at the first
/// colon; the password may hold further ones. Without a colon there are
/// none.
pub open spec fn credentials_of_text(text: Seq<char>) -> Result<CredentialsView, SeedyError> {
    if text.contains(':') {
        Ok(CredentialsView { username: before(text, ':'), password: after(text, ':') })
    } else {
        Err(SeedyError::MalformedCredential)
    }
}

/// The credentials in the bytes of a decoded token, which have to be the
/// UTF-8 form of `username:password`.
pub open spec fn credentials_of_bytes(bytes: Seq<u8>) -> Result<CredentialsView, SeedyError> {
    if valid_utf8(bytes) {
        credentials_of_text(decode_utf8(bytes))
    } else {
        Err(SeedyError::MalformedCredential)
    }
}

/// The credentials in an authorization token.
pub open spec fn credentials_of_token(token: Seq<char>) -> Result<CredentialsView, SeedyError> {
    match base64_decoded(token) {
        Some(bytes) => credentials_of_bytes(bytes),
        None => Err(SeedyError::MalformedCredential),
    }
}

/// The credentials for an update, given the tokens of the authorization
/// entries that the registry returned: those of the first entry. No entry
/// means an update without credentials; a first entry without a token is
/// an error.
pub open spec fn credentials_of_authorization(tokens: Seq<Option<Seq<char>>>) -> Result<
    Option<CredentialsView>,
    SeedyError,
> {
    if tokens.len() == 0 {
        Ok(None)
    } else {
        match tokens[0] {
            None => Err(SeedyError::MalformedCredential),
            Some(token) => match credentials_of_token(token) {
                Ok(credentials) => Ok(Some(credentials)),
                Err(e) => Err(e),
            },
        }
    }
}

/// The tokens of a list of authorization entries as characters.
pub open spec fn tokens_view(tokens: Seq<Option<String>>) -> Seq<Option<Seq<char>>> {
    tokens.map_values(
        |token: Option<String>|
            match token {
                Some(token) => Some(token@),
                None => None,
            },
    )
}

/// What [`credentials_from_authorization`] returns, with the credentials
/// as their view.
pub open spec fn authorization_view(r: Result<Option<RegistryCredentials>, SeedyError>) -> Result<
    Option<CredentialsView>,
    SeedyError,
> {
    match r {
        Ok(Some(credentials)) => Ok(Some(credentials@)),
        Ok(None) => Ok(None),
        Err(e) => Err(e),
    }
}

/// Reads the credentials from the bytes of a decoded token.
pub fn credentials_from_bytes(bytes: Vec<u8>) -> (r: Result<RegistryCredentials, SeedyError>)
    ensures
        credentials_view(r) == credentials_of_bytes(bytes@),
{
    match string_from_utf8(bytes) {
        Ok(text) => match split_once(text.as_str(), ':') {
            Some((username, password)) => Ok(RegistryCredentials { username, password }),
            None => Err(SeedyError::MalformedCredential),
        },
        Err(_) => Err(SeedyError::MalformedCredential),
    }
}

/// Reads the credentials from an authorization token.
///
/// The token is decoded by the `base64` crate; what it decodes to is named
/// by [`base64_decoded`], and [`credentials_from_bytes`] does the rest.
pub fn docker_credentials_from_auth_token(auth_token: String) -> (r: Result<
    RegistryCredentials,
    SeedyError,
>)
    ensures
        credentials_view(r) == credentials_of_token(auth_token@),
{
    match base64_decode(auth_token.as_str()) {
        Ok(bytes) => credentials_from_bytes(bytes),
        Err(_) => Err(SeedyError::MalformedCredential),
    }
}

/// Chooses the credentials for an update from the tokens of the
/// authorization entries that the registry returned.
pub fn credentials_from_authorization(tokens: &Vec<Option<String>>) -> (r: Result<
    Option<RegistryCredentials>,
    SeedyError,
>)
    ensures
        authorization_view(r) == credentials_of_authorization(tokens_view(tokens@)),
{
    if tokens.len() == 0 {
        return Ok(None);
    }
    match &tokens[0] {
        None => Err(SeedyError::MalformedCredential),
        Some(token) => match docker_credentials_from_auth_token(token.clone()) {
            Ok(credentials) => Ok(Some(credentials)),
            Err(e) => Err(e),
        },
    }
}

} // verus!
