use customer_auth::account::{
    check_if_registerd, get_user_details, login, login_reply, register, register_after_lookup,
    register_reply, user_details_reply, user_details_step, CustomerDetails, DetailsStep,
    LoginVerdict, RegisterStep, grant_login, login_granted, registration, details_after_check, ServiceFault,
};
use customer_auth::credentials::{check_password, hash_password};
use customer_auth::role::UserRole;
use customer_auth::store::{AttrValue, Field, Item, StoreError};
use customer_auth::token::{
    check_user_role, claims_json, get_sesion_token, get_token, role_from_claim, ClaimFields, Claims,
    TokenError,
};

fn details(username: &str, password: &str, role: UserRole) -> CustomerDetails {
    CustomerDetails { id: 17, username: username.to_string(), password: password.to_string(), role }
}

fn text<'a>(f: &'a Field) -> (&'a str, &'a str) {
    match &f.value {
        AttrValue::S(v) | AttrValue::N(v) => (f.name.as_str(), v.as_str()),
        _ => panic!("not a text attribute"),
    }
}

fn signed(claims: serde_json::Map<String, serde_json::Value>) -> String {
    jsonwebtoken::encode(
        &jsonwebtoken::Header::default(),
        &serde_json::Value::Object(claims),
        &jsonwebtoken::EncodingKey::from_secret(b"JWT_SECRET_KEY"),
    )
    .unwrap()
}

fn claims_with_role(role: Option<&str>) -> serde_json::Map<String, serde_json::Value> {
    let mut m = serde_json::Map::new();
    m.insert("sub".to_string(), serde_json::Value::from("alice"));
    m.insert("exp".to_string(), serde_json::Value::from(10000000000u64));
    if let Some(r) = role {
        m.insert("role".to_string(), serde_json::Value::from(r));
    }
    m
}

#[test]
fn hashing_and_checking_passwords() {
    let h = hash_password("hunter2").unwrap();
    assert_eq!(h.len(), 60);
    assert_ne!(h, "hunter2");
    assert_eq!(check_password("hunter2", &h), Some(true));
    assert_eq!(check_password("hunter3", &h), Some(false));
    assert_eq!(check_password("hunter2", "not a hash"), None);
}

#[test]
fn registration_item() {
    let d = details("alice", "s3cret", UserRole::Admin);
    let reg = register(&d).ok().expect("hashing works");
    assert_eq!(reg.lookup.table, "customer_login_details");
    assert_eq!(text(&reg.lookup.key.fields[0]), ("username", "alice"));
    let fs = &reg.store.item.fields;
    assert_eq!(reg.store.table, "customer_login_details");
    assert_eq!(fs.len(), 4);
    assert_eq!(text(&fs[0]), ("id", "17"));
    assert!(matches!(fs[0].value, AttrValue::N(_)));
    assert_eq!(text(&fs[1]), ("username", "alice"));
    assert_eq!(fs[2].name, "password");
    assert_eq!(text(&fs[3]), ("role", "Admin"));
    let (_, hash) = text(&fs[2]);
    assert_eq!(bcrypt::verify("s3cret", hash).unwrap(), true);
}

#[test]
fn registration_steps() {
    assert!(check_if_registerd(&Ok(Some(Item { fields: Vec::new() }))));
    assert!(!check_if_registerd(&Ok(None)));
    assert!(!check_if_registerd(&Err(StoreError)));
    let d = details("bob", "pw", UserRole::User);
    let reg = register(&d).ok().unwrap();
    match register_after_lookup(reg.store, &Ok(Some(Item { fields: Vec::new() }))) {
        RegisterStep::Done(r) => assert_eq!((r.status, r.body.as_str()), (409, "User already exists")),
        RegisterStep::Store(_) => panic!(),
    }
    for lookup in [Ok(None), Err(StoreError)] {
        let reg = register(&d).ok().unwrap();
        match register_after_lookup(reg.store, &lookup) {
            RegisterStep::Store(p) => assert_eq!(p.item.fields.len(), 4),
            RegisterStep::Done(_) => panic!(),
        }
    }
    let r = register_reply(&Ok(()));
    assert_eq!((r.status, r.body.as_str()), (200, "Registered successfully"));
    let r = register_reply(&Err(StoreError));
    assert_eq!((r.status, r.body.as_str()), (500, "Error in registering"));
}

#[test]
fn registered_password_logs_in() {
    let secret = "top secret";
    let d = details("carol", "pa55", UserRole::User);
    let q = login(&d);
    assert_eq!(q.table, "customer_login_details");
    assert_eq!(text(&q.key.fields[0]), ("username", "carol"));
    let reg = register(&d).ok().unwrap();
    let stored = Ok(Some(reg.store.item));
    assert!(matches!(login_reply(&d, &stored), Ok(LoginVerdict::Granted)));
    let (reply, token) = grant_login(&d.username, secret).ok().unwrap();
    assert_eq!((reply.status, reply.body.as_str()), (200, "Login successful"));
    assert_eq!(token, get_token("carol".to_string(), secret).ok().unwrap());
    let wrong = details("carol", "other", UserRole::User);
    match login_reply(&wrong, &stored) {
        Ok(LoginVerdict::Denied(r)) => assert_eq!((r.status, r.body.as_str()), (401, "Invalid password")),
        _ => panic!(),
    }
}

#[test]
fn login_denials_and_faults() {
    let d = details("dave", "pw", UserRole::User);
    match login_reply(&d, &Ok(None)) {
        Ok(LoginVerdict::Denied(r)) => assert_eq!((r.status, r.body.as_str()), (401, "Invalid username")),
        _ => panic!(),
    }
    match login_reply(&d, &Err(StoreError)) {
        Ok(LoginVerdict::Denied(r)) => assert_eq!((r.status, r.body.as_str()), (500, "Error in login")),
        _ => panic!(),
    }
    let no_password = Item { fields: vec![Field { name: "username".to_string(), value: AttrValue::S("dave".to_string()) }] };
    assert!(matches!(login_reply(&d, &Ok(Some(no_password))), Err(ServiceFault::MissingAttribute)));
    let bad_hash = Item { fields: vec![Field { name: "password".to_string(), value: AttrValue::S("pw".to_string()) }] };
    assert!(matches!(login_reply(&d, &Ok(Some(bad_hash))), Err(ServiceFault::BadStoredHash)));
}

#[test]
fn claims_text_and_token() {
    let c = Claims { sub: "al\"ice".to_string(), exp: 10000000000 };
    assert_eq!(claims_json(&c), "{\"sub\":\"al\\\"ice\",\"exp\":10000000000}");
    let token = get_token("alice".to_string(), "k1").ok().unwrap();
    let expected = jsonwebtoken::encode(
        &jsonwebtoken::Header::default(),
        &serde_json::value::RawValue::from_string("{\"sub\":\"alice\",\"exp\":10000000000}".to_string()).unwrap(),
        &jsonwebtoken::EncodingKey::from_secret(b"k1"),
    )
    .unwrap();
    assert_eq!(token, expected);
    let data = jsonwebtoken::decode::<serde_json::Value>(
        &token,
        &jsonwebtoken::DecodingKey::from_secret(b"k1"),
        &jsonwebtoken::Validation::new(jsonwebtoken::Algorithm::HS256),
    )
    .unwrap();
    assert_eq!(data.claims["sub"], "alice");
    assert_eq!(data.claims["exp"], 10000000000u64);
    assert_ne!(token, get_token("alice".to_string(), "k2").ok().unwrap());
}

#[test]
fn role_check_answers() {
    let fields = |sub: Option<&str>, exp: Option<u64>, role: Option<&str>| ClaimFields {
        sub: sub.map(str::to_string),
        exp,
        role: role.map(str::to_string),
    };
    assert_eq!(role_from_claim(&Ok(fields(Some("a"), Some(1), Some("Admin")))), Ok(UserRole::Admin));
    assert_eq!(role_from_claim(&Ok(fields(Some("a"), Some(1), Some("User")))), Ok(UserRole::User));
    assert_eq!(role_from_claim(&Ok(fields(Some("a"), Some(1), Some("Root")))), Err("Invalid role"));
    assert_eq!(role_from_claim(&Ok(fields(Some("a"), Some(1), None))), Err("Error in decoding token"));
    assert_eq!(role_from_claim(&Ok(fields(None, Some(1), Some("Admin")))), Err("Error in decoding token"));
    assert_eq!(role_from_claim(&Ok(fields(Some("a"), None, Some("Admin")))), Err("Error in decoding token"));
    assert_eq!(role_from_claim(&Err(TokenError)), Err("Error in decoding token"));

    assert_eq!(check_user_role(&signed(claims_with_role(Some("Admin")))), Ok(UserRole::Admin));
    assert_eq!(check_user_role(&signed(claims_with_role(Some("User")))), Ok(UserRole::User));
    assert_eq!(check_user_role(&signed(claims_with_role(Some("Guest")))), Err("Invalid role"));
    assert_eq!(check_user_role(&signed(claims_with_role(None))), Err("Error in decoding token"));
    assert_eq!(check_user_role("garbage"), Err("Error in decoding token"));
    assert_eq!(check_user_role(""), Err("Error in decoding token"));
    // a token issued by login carries no role claim, and is signed with another key
    let issued = get_token("alice".to_string(), "other key").ok().unwrap();
    assert_eq!(check_user_role(&issued), Err("Error in decoding token"));
}

#[test]
fn session_token() {
    assert_eq!(get_sesion_token(Some("abc".to_string())), "abc");
    assert_eq!(get_sesion_token(None), "");
}

#[test]
fn details_steps() {
    match user_details_step(UserRole::User, "5") {
        DetailsStep::Done(r) => assert_eq!((r.status, r.body.as_str()), (403, "You are not authorized to view this page")),
        DetailsStep::Fetch(_) => panic!(),
    }
    match user_details_step(UserRole::Admin, "5") {
        DetailsStep::Fetch(q) => {
            assert_eq!(q.table, "customer_login_details");
            assert_eq!(q.key.fields.len(), 1);
            assert_eq!(q.key.fields[0].name, "id");
            assert!(matches!(&q.key.fields[0].value, AttrValue::N(n) if n == "5"));
        }
        DetailsStep::Done(_) => panic!(),
    }
    let admin = signed(claims_with_role(Some("Admin")));
    assert!(matches!(get_user_details(Some(admin), "9"), Ok(DetailsStep::Fetch(_))));
    let user = signed(claims_with_role(Some("User")));
    assert!(matches!(get_user_details(Some(user), "9"), Ok(DetailsStep::Done(_))));
    assert_eq!(get_user_details(None, "9").err(), Some("Error in decoding token"));
}

#[test]
fn details_replies() {
    let item = Item {
        fields: vec![
            Field { name: "username".to_string(), value: AttrValue::S("erin".to_string()) },
            Field { name: "role".to_string(), value: AttrValue::S("Admin".to_string()) },
        ],
    };
    let r = user_details_reply(&Ok(Some(item)));
    assert_eq!((r.status, r.body.as_str()), (200, "Username: erin, Role: Admin"));
    let r = user_details_reply(&Ok(None));
    assert_eq!((r.status, r.body.as_str()), (404, "User not found"));
    let r = user_details_reply(&Err(StoreError));
    assert_eq!((r.status, r.body.as_str()), (500, "Error in fetching user details"));
}

#[test]
fn registration_from_a_hash_outcome() {
    let d = details("frank", "pw", UserRole::User);
    assert!(matches!(registration(&d, None), Err(ServiceFault::HashFailed)));
    let reg = registration(&d, Some("$2b$12$abc".to_string())).ok().unwrap();
    assert_eq!(text(&reg.store.item.fields[2]), ("password", "$2b$12$abc"));
    assert_eq!(text(&reg.store.item.fields[3]), ("role", "User"));
}

#[test]
fn granted_login_replies() {
    let (r, t) = login_granted(Ok("tok".to_string())).ok().unwrap();
    assert_eq!((r.status, r.body.as_str(), t.as_str()), (200, "Login successful", "tok"));
    assert!(matches!(login_granted(Err(TokenError)), Err(ServiceFault::TokenFailed)));
}

#[test]
fn stored_hash_format() {
    let h = hash_password("pw").unwrap();
    assert!(h.starts_with("$2b$12$"));
}

#[test]
fn details_step_follows_the_checked_role() {
    match details_after_check(Ok(UserRole::User), "3") {
        Ok(DetailsStep::Done(r)) => assert_eq!(r.status, 403),
        _ => panic!(),
    }
    assert!(matches!(details_after_check(Ok(UserRole::Admin), "3"), Ok(DetailsStep::Fetch(_))));
    assert_eq!(details_after_check(Err("Invalid role"), "3").err(), Some("Invalid role"));
    let guest = signed(claims_with_role(Some("Guest")));
    assert_eq!(get_user_details(Some(guest), "9").err(), Some("Invalid role"));
}

#[test]
fn registered_account_logs_in_in_any_attribute_order() {
    let d = details("gina", "pw", UserRole::Admin);
    let mut reg = register(&d).ok().unwrap();
    reg.store.item.fields.reverse();
    assert!(matches!(login_reply(&d, &Ok(Some(reg.store.item))), Ok(LoginVerdict::Granted)));
}

#[test]
fn role_check_needs_sub_and_integer_exp() {
    let mut no_sub = claims_with_role(Some("Admin"));
    no_sub.remove("sub");
    assert_eq!(check_user_role(&signed(no_sub)), Err("Error in decoding token"));
    let mut float_exp = claims_with_role(Some("Admin"));
    float_exp.insert("exp".to_string(), serde_json::Value::from(1.0e10));
    assert_eq!(check_user_role(&signed(float_exp)), Err("Error in decoding token"));
    let mut string_sub = claims_with_role(Some("Admin"));
    string_sub.insert("sub".to_string(), serde_json::Value::from(5));
    assert_eq!(check_user_role(&signed(string_sub)), Err("Error in decoding token"));
}

#[test]
fn issued_token_reads_back_under_its_key() {
    let token = get_token("heidi".to_string(), "key").ok().unwrap();
    let data = jsonwebtoken::decode::<serde_json::Value>(
        &token,
        &jsonwebtoken::DecodingKey::from_secret(b"key"),
        &jsonwebtoken::Validation::new(jsonwebtoken::Algorithm::HS256),
    )
    .unwrap();
    assert_eq!(data.header.alg, jsonwebtoken::Algorithm::HS256);
    assert_eq!(data.claims["sub"], "heidi");
    assert_eq!(data.claims["exp"], 10000000000u64);
    assert!(data.claims.get("role").is_none());
}
