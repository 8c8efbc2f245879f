//! Authentication, the RPC decisions around it, and the text helpers: these
//! run the real password-hashing and token crates through the library.

use cyrel::authentication::{
    hash_password, verify_password, Claims, HashFunction, Meta, Register,
    SESSION_LIFETIME_SECONDS,
};
use cyrel::models::{Department, User};
use cyrel::rpc::error::RpcError;
use cyrel::rpc::{department_email, login, register_identity};
use cyrel::celcat::extract_verification_token;
use cyrel::sync::students::separate_names;
use cyrel::text::{i64_to_string, str_eq, u64_to_string};

fn user_with_password(id: i64, password: &str) -> User {
    let hash = hash_password(password, "0123456789abcdef").unwrap();
    User {
        id,
        firstname: "Ada".to_owned(),
        lastname: "Lovelace".to_owned(),
        email: "ada@u-cergy.fr".to_owned(),
        password: hash,
    }
}

#[test]
fn password_hash_verifies_and_rejects() {
    let hash = hash_password("hunter2", "0123456789abcdef").unwrap();
    assert!(hash.starts_with("$pbkdf2-sha256$"));
    assert_eq!(verify_password("hunter2", &hash).unwrap(), true);
    assert_eq!(verify_password("hunter3", &hash).unwrap(), false);
    // the same password and salt always give the same hash
    assert_eq!(hash, hash_password("hunter2", "0123456789abcdef").unwrap());
    // a string that is no PHC hash cannot be verified against
    assert!(verify_password("hunter2", "not-a-hash").is_err());
    // a salt the hashing refuses: too short
    assert!(hash_password("hunter2", "ab").is_err());
    assert!(HashFunction::hash_password("pw".to_owned(), "0123456789abcdef".to_owned()).is_ok());
}

#[test]
fn session_token_round_trips() {
    let claims = Claims { sub: "42".to_owned(), exp: 4102444800 };
    let token = claims.to_jwt("signing-key-for-tests").unwrap();
    let meta = Meta { jwt: Some(token) };
    let back = Claims::from_meta(&meta, "signing-key-for-tests").unwrap().unwrap();
    assert_eq!(back.sub, "42");
    assert_eq!(back.exp, 4102444800);
}

#[test]
fn session_token_rejects_wrong_secret() {
    let claims = Claims { sub: "42".to_owned(), exp: 4102444800 };
    let token = claims.to_jwt("signing-key-for-tests").unwrap();
    let meta = Meta { jwt: Some(token) };
    assert!(Claims::from_meta(&meta, "other-secret").is_err());
    let garbage = Meta { jwt: Some("no.token.here".to_owned()) };
    assert!(Claims::from_meta(&garbage, "signing-key-for-tests").is_err());
    // no token at all is not an error: the caller is simply not logged in
    assert!(Claims::from_meta(&Meta { jwt: None }, "signing-key-for-tests").unwrap().is_none());
}

#[test]
fn claims_from_user_last_fourteen_days() {
    let u = user_with_password(123, "pw");
    let c = Claims::from_user(&u, 1000);
    assert_eq!(c.sub, "123");
    assert_eq!(c.exp, 1000 + SESSION_LIFETIME_SECONDS);
}

#[test]
fn login_decides_each_case() {
    let u = user_with_password(7, "correct horse");
    let token = login(Some(&u), "correct horse", 1000, "signing-key-for-tests").unwrap();
    assert!(!token.is_empty());
    assert_eq!(
        login(Some(&u), "wrong", 1000, "signing-key-for-tests"),
        Err(RpcError::IncorrectLoginInfo)
    );
    assert_eq!(
        login(None, "correct horse", 1000, "signing-key-for-tests"),
        Err(RpcError::IncorrectLoginInfo)
    );
    let mut broken = user_with_password(8, "pw");
    broken.password = "garbage".to_owned();
    assert_eq!(
        login(Some(&broken), "pw", 1000, "signing-key-for-tests"),
        Err(RpcError::UnknownError)
    );
}

#[test]
fn registration_tokens_are_single_use() {
    let mut reg = Register::new();
    assert!(!reg.contains("t1"));
    reg.put_user("t1".to_owned(), user_with_password(1, "pw"));
    assert!(reg.contains("t1"));
    let identity = register_identity(reg.get_user("t1")).unwrap();
    assert_eq!(identity.firstname, "Ada");
    assert_eq!(identity.lastname, "Lovelace");
    let taken = reg.take_user("t1").unwrap();
    assert_eq!(taken.id, 1);
    // the token is spent
    assert!(reg.take_user("t1").is_none());
    assert!(matches!(
        register_identity(reg.get_user("t1")),
        Err(RpcError::RegistrationTokenUsed)
    ));
}

#[test]
fn department_email_appends_the_domain() {
    let dpmt = Department {
        id: "1".to_owned(),
        name: "UFR DROIT".to_owned(),
        domain: "u-cergy.fr".to_owned(),
    };
    assert_eq!(department_email("jean", &dpmt), "jean@u-cergy.fr");
}

#[test]
fn rpc_errors_carry_codes_and_messages() {
    assert_eq!(RpcError::UnknownError.code(), 0);
    assert_eq!(RpcError::IncorrectLoginInfo.code(), 1);
    assert_eq!(RpcError::Unimplemented.code(), 2);
    assert_eq!(RpcError::AlreadyRegistered.code(), 3);
    assert_eq!(RpcError::RegistrationTokenUsed.code(), 4);
    assert_eq!(RpcError::IncorrectLoginInfo.message(), "incorrect login information");
    assert_eq!(RpcError::RegistrationTokenUsed.message(), "the token was already used");
    assert_eq!(RpcError::UnknownError.message(), "unknown error");
}

#[test]
fn separate_names_recases_and_splits() {
    assert_eq!(
        separate_names("JOHN SMITH"),
        Some(("Smith".to_owned(), "John".to_owned()))
    );
    assert_eq!(
        separate_names("JEAN DE LA FONTAINE"),
        Some(("Fontaine".to_owned(), "Jean De La".to_owned()))
    );
    // a name with no space cannot be split
    assert_eq!(separate_names("MONONYM"), None);
    assert_eq!(separate_names(""), None);
}

#[test]
fn verification_token_is_extracted_from_the_login_page() {
    let page = "<html><form><input name=\"__RequestVerificationToken\" \
                type=\"hidden\" value=\"abc123XYZ\"></form></html>";
    assert_eq!(extract_verification_token(page).unwrap(), "abc123XYZ");
    // no marker, no token
    assert_eq!(extract_verification_token("<html></html>"), None);
    // an empty value is no token
    let empty = "<input name=\"__RequestVerificationToken\" value=\"\">";
    assert_eq!(extract_verification_token(empty), None);
    // the value attribute must follow the marker
    let before = "value=\"tok\" <input name=\"__RequestVerificationToken\">";
    assert_eq!(extract_verification_token(before), None);
}

#[test]
fn integers_render_in_decimal() {
    assert_eq!(u64_to_string(0), "0");
    assert_eq!(u64_to_string(10), "10");
    assert_eq!(u64_to_string(18446744073709551615), "18446744073709551615");
    assert_eq!(i64_to_string(42), "42");
    assert_eq!(i64_to_string(-7), "-7");
    assert_eq!(i64_to_string(i64::MIN), "-9223372036854775808");
}

#[test]
fn string_equality_compares_characters() {
    assert!(str_eq("héllo", "héllo"));
    assert!(!str_eq("héllo", "hello"));
    assert!(!str_eq("abc", "abcd"));
    assert!(str_eq("", ""));
}
