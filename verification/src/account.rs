//! User accounts in the `customer_login_details` table: registration, login,
//! and the admin-only view of a user's details.

use vstd::prelude::*;
use crate::credentials::{
    bcrypt_prefix, bcrypt_verify_result, check_password, hash_password, PASSWORD_HASH_COST,
};
use crate::reply::{
    is_reply, reply, Reply, CONFLICT, FORBIDDEN, INTERNAL_SERVER_ERROR, NOT_FOUND, OK,
    UNAUTHORIZED,
};
use crate::role::{law_role_name_roundtrip, role_name, role_of_name, UserRole};
use crate::store::{
    distinct_names, find_field, get_string, is_number_field, is_string_field, lemma_find_distinct,
    number_field, string_attr, string_field, string_key, AttrValue, Field, Item, KeyRequest,
    PutItemRequest, StoreError,
};
use crate::text::{decimal, decimal_string};
use crate::token::{
    check_user_role, claims_json_spec, get_sesion_token, get_token, is_decoding_error,
    checked_role_name, issued_claims, jwt_hs256_claims, jwt_hs256_token, role_check_key, session_token_view, TokenError,
    TOKEN_EXPIRY,
};

verus! {

/// What a client sends to register or log in.
pub struct CustomerDetails {
    pub id: usize,
    pub username: String,
    pub password: String,
    pub role: UserRole,
}

pub struct CustomerDetailsView {
    pub id: usize,
    pub username: Seq<char>,
    pub password: Seq<char>,
    pub role: UserRole,
}

impl View for CustomerDetails {
    type V = CustomerDetailsView;

    open spec fn view(&self) -> CustomerDetailsView {
        CustomerDetailsView {
            id: self.id,
            username: self.username@,
            password: self.password@,
            role: self.role,
        }
    }
}

/// The table of accounts.
pub open spec fn login_table() -> Seq<char> {
    "customer_login_details"@
}

/// The stored password hash of an account item (its third attribute).
pub open spec fn account_hash(fs: Seq<Field>) -> Seq<char> {
    match fs[2].value {
        AttrValue::S(s) => s@,
        _ => Seq::empty(),
    }
}

/// The attributes of the account item for `d`, in order: the id as a decimal
/// number, the user name, the password hash, and the role's name.
pub open spec fn is_account_fields(fs: Seq<Field>, d: CustomerDetailsView) -> bool {
    &&& fs.len() == 4
    &&& is_number_field(fs[0], "id"@, decimal(d.id as nat))
    &&& is_string_field(fs[1], "username"@, d.username)
    &&& is_string_field(fs[2], "password"@, account_hash(fs))
    &&& is_string_field(fs[3], "role"@, role_name(d.role))
}

/// `fs` holds, in any order and under distinct names, the attributes of the
/// account item for `d` with password hash `hash` (as the store may hand them
/// back).
pub open spec fn account_attrs(fs: Seq<Field>, d: CustomerDetailsView, hash: Seq<char>) -> bool {
    &&& distinct_names(fs)
    &&& exists|i: int|
        0 <= i < fs.len() && #[trigger] is_number_field(fs[i], "id"@, decimal(d.id as nat))
    &&& exists|i: int| 0 <= i < fs.len() && #[trigger] is_string_field(fs[i], "username"@, d.username)
    &&& exists|i: int| 0 <= i < fs.len() && #[trigger] is_string_field(fs[i], "password"@, hash)
    &&& exists|i: int| 0 <= i < fs.len() && #[trigger] is_string_field(fs[i], "role"@, role_name(d.role))
}

/// The account item written for `d` holds its attributes under distinct names.
pub proof fn lemma_written_account_attrs(fs: Seq<Field>, d: CustomerDetailsView)
    requires
        is_account_fields(fs, d),
    ensures
        account_attrs(fs, d, account_hash(fs)),
{
    reveal_strlit("id");
    reveal_strlit("username");
    reveal_strlit("password");
    reveal_strlit("role");
    assert("id"@.len() == 2 && "username"@.len() == 8 && "password"@.len() == 8 && "role"@.len() == 4);
    assert("username"@[0] == 'u' && "password"@[0] == 'p');
    assert(is_number_field(fs[0], "id"@, decimal(d.id as nat)));
    assert(is_string_field(fs[1], "username"@, d.username));
    assert(is_string_field(fs[2], "password"@, account_hash(fs)));
    assert(is_string_field(fs[3], "role"@, role_name(d.role)));
}

/// A read of the account of `username`.
pub open spec fn is_username_request(q: KeyRequest, username: Seq<char>) -> bool {
    q.table@ == login_table() && q.key.fields@.len() == 1 && is_string_field(
        q.key.fields@[0],
        "username"@,
        username,
    )
}

/// A registration in progress: the read that tells whether the user exists,
/// and the write that stores the account.
pub struct Registration {
    pub lookup: KeyRequest,
    pub store: PutItemRequest,
}

/// `reg` registers `d` with the stored password hash `hash`: it looks the
/// user name up, and stores the account item.
pub open spec fn is_registration_with(reg: Registration, d: CustomerDetailsView, hash: Seq<char>) -> bool {
    &&& is_username_request(reg.lookup, d.username)
    &&& reg.store.table@ == login_table()
    &&& is_account_fields(reg.store.item.fields@, d)
    &&& account_attrs(reg.store.item.fields@, d, hash)
    &&& account_hash(reg.store.item.fields@) == hash
}

/// `reg` registers `d` with a 60-character bcrypt hash at the services' cost
/// that bcrypt accepts `d`'s password against.
pub open spec fn is_registration(reg: Registration, d: CustomerDetailsView) -> bool {
    let hash = account_hash(reg.store.item.fields@);
    &&& is_registration_with(reg, d, hash)
    &&& hash.len() == 60
    &&& hash.subrange(0, 7) == bcrypt_prefix(PASSWORD_HASH_COST as nat)
    &&& bcrypt_verify_result(d.password, hash) == Some(true)
}

/// Where a request is given up: the stored data or an outside library let the
/// service down.
pub enum ServiceFault {
    /// The password could not be hashed.
    HashFailed,
    /// A stored item lacks an attribute the service reads.
    MissingAttribute,
    /// The stored password hash is not a usable bcrypt hash.
    BadStoredHash,
    /// No token could be issued.
    TokenFailed,
    /// The session token was not accepted.
    RoleCheckFailed,
}

/// The read of the account of `username`.
pub fn account_lookup(username: &String) -> (q: KeyRequest)
    ensures
        is_username_request(q, username@),
{
    KeyRequest {
        table: String::from_str("customer_login_details"),
        key: string_key("username", username.clone()),
    }
}

/// The registration of `details` once its password is hashed (`None`: the
/// hashing failed).
pub fn registration(details: &CustomerDetails, hash: Option<String>) -> (r: Result<
    Registration,
    ServiceFault,
>)
    ensures
        match hash {
            None => r matches Err(ServiceFault::HashFailed),
            Some(h) => r matches Ok(reg) && is_registration_with(reg, details@, h@),
        },
{
    let hash = match hash {
        Some(h) => h,
        None => return Err(ServiceFault::HashFailed),
    };
    let ghost h = hash@;
    let mut fields: Vec<Field> = Vec::new();
    fields.push(number_field("id", decimal_string(details.id as u64)));
    fields.push(string_field("username", details.username.clone()));
    fields.push(string_field("password", hash));
    fields.push(string_field("role", details.role.to_string()));
    assert(account_hash(fields@) == h);
    proof {
        lemma_written_account_attrs(fields@, details@);
    }
    Ok(
        Registration {
            lookup: account_lookup(&details.username),
            store: PutItemRequest {
                table: String::from_str("customer_login_details"),
                item: Item { fields },
            },
        },
    )
}

/// `POST /register`: hashes the password and prepares the account item and the
/// existence check; fails only where hashing fails.
pub fn register(details: &CustomerDetails) -> (r: Result<Registration, ServiceFault>)
    ensures
        r matches Ok(reg) ==> is_registration(reg, details@),
        r matches Err(e) ==> e is HashFailed,
{
    let hash = hash_password(details.password.as_str());
    registration(details, hash)
}

/// Whether the existence check found an account; a failed check counts as
/// not found.
pub fn check_if_registerd(lookup: &Result<Option<Item>, StoreError>) -> (r: bool)
    ensures
        r == (lookup matches Ok(Some(_))),
{
    match lookup {
        Ok(Some(_)) => true,
        _ => false,
    }
}

/// The next step of a registration.
pub enum RegisterStep {
    Done(Reply),
    Store(PutItemRequest),
}

/// After the existence check: a taken user name is refused, else the account
/// write `store` goes ahead.
pub fn register_after_lookup(store: PutItemRequest, lookup: &Result<Option<Item>, StoreError>) -> (r:
    RegisterStep)
    ensures
        lookup matches Ok(Some(_)) ==> (r matches RegisterStep::Done(rep) && is_reply(
            rep,
            CONFLICT,
            "User already exists"@,
        )),
        !(lookup matches Ok(Some(_))) ==> r == RegisterStep::Store(store),
{
    if check_if_registerd(lookup) {
        RegisterStep::Done(reply(CONFLICT, "User already exists"))
    } else {
        RegisterStep::Store(store)
    }
}

/// The reply once the store has answered the account write.
pub fn register_reply(stored: &Result<(), StoreError>) -> (r: Reply)
    ensures
        stored is Ok ==> is_reply(r, OK, "Registered successfully"@),
        stored is Err ==> is_reply(r, INTERNAL_SERVER_ERROR, "Error in registering"@),
{
    match stored {
        Ok(_) => reply(OK, "Registered successfully"),
        Err(_) => reply(INTERNAL_SERVER_ERROR, "Error in registering"),
    }
}

/// `POST /login`: the read of the account.
pub fn login(details: &CustomerDetails) -> (q: KeyRequest)
    ensures
        is_username_request(q, details.username@),
{
    account_lookup(&details.username)
}

/// How a login ends, given the password sent and the account read.
pub enum LoginDecision {
    StoreFailed,
    UnknownUser,
    MissingPassword,
    BadStoredHash,
    WrongPassword,
    Granted,
}

/// The account read as plain values: `Err(())` for a failed read.
pub open spec fn lookup_view(l: Result<Option<Item>, StoreError>) -> Result<Option<Seq<Field>>, ()> {
    match l {
        Ok(Some(item)) => Ok(Some(item.fields@)),
        Ok(None) => Ok(None),
        Err(_) => Err(()),
    }
}

/// A login is granted exactly when the account exists and bcrypt accepts the
/// password against its stored hash.
pub open spec fn login_decision(password: Seq<char>, lookup: Result<Option<Seq<Field>>, ()>) -> LoginDecision {
    match lookup {
        Err(_) => LoginDecision::StoreFailed,
        Ok(None) => LoginDecision::UnknownUser,
        Ok(Some(fs)) => match string_attr(fs, "password"@) {
            None => LoginDecision::MissingPassword,
            Some(hash) => match bcrypt_verify_result(password, hash) {
                None => LoginDecision::BadStoredHash,
                Some(false) => LoginDecision::WrongPassword,
                Some(true) => LoginDecision::Granted,
            },
        },
    }
}

/// What a login comes to once the account read is back.
pub enum LoginVerdict {
    Granted,
    Denied(Reply),
}

/// The verdict once the account read is back: denied with the matching reply,
/// granted where bcrypt accepts the password, or given up where the stored
/// account cannot be checked.
pub fn login_reply(details: &CustomerDetails, lookup: &Result<Option<Item>, StoreError>) -> (r:
    Result<LoginVerdict, ServiceFault>)
    ensures
        match login_decision(details.password@, lookup_view(*lookup)) {
            LoginDecision::StoreFailed => r matches Ok(LoginVerdict::Denied(rep)) && is_reply(
                rep,
                INTERNAL_SERVER_ERROR,
                "Error in login"@,
            ),
            LoginDecision::UnknownUser => r matches Ok(LoginVerdict::Denied(rep)) && is_reply(
                rep,
                UNAUTHORIZED,
                "Invalid username"@,
            ),
            LoginDecision::WrongPassword => r matches Ok(LoginVerdict::Denied(rep)) && is_reply(
                rep,
                UNAUTHORIZED,
                "Invalid password"@,
            ),
            LoginDecision::MissingPassword => r matches Err(ServiceFault::MissingAttribute),
            LoginDecision::BadStoredHash => r matches Err(ServiceFault::BadStoredHash),
            LoginDecision::Granted => r matches Ok(LoginVerdict::Granted),
        },
        r matches Ok(LoginVerdict::Granted) ==> (lookup matches Ok(Some(item)) && (string_attr(
            item.fields@,
            "password"@,
        ) matches Some(h) && bcrypt_verify_result(details.password@, h) == Some(true))),
        (lookup matches Ok(Some(item)) && (string_attr(item.fields@, "password"@) matches Some(h)
            && bcrypt_verify_result(details.password@, h) == Some(false))) ==> (r matches Ok(
            LoginVerdict::Denied(rep),
        ) && rep.status == 401 && rep.body@ == "Invalid password"@),
{
    proof {
        if let Ok(Some(item)) = lookup {
            law_login_granted_exactly_for_accepted_password(details.password@, item.fields@);
        }
    }
    match lookup {
        Err(_) => Ok(LoginVerdict::Denied(reply(INTERNAL_SERVER_ERROR, "Error in login"))),
        Ok(None) => Ok(LoginVerdict::Denied(reply(UNAUTHORIZED, "Invalid username"))),
        Ok(Some(item)) => {
            let stored = match get_string(&item.fields, "password") {
                Some(s) => s,
                None => return Err(ServiceFault::MissingAttribute),
            };
            match check_password(details.password.as_str(), stored.as_str()) {
                None => Err(ServiceFault::BadStoredHash),
                Some(false) => Ok(LoginVerdict::Denied(reply(UNAUTHORIZED, "Invalid password"))),
                Some(true) => Ok(LoginVerdict::Granted),
            }
        },
    }
}

/// A login against an account read back is granted exactly when the account
/// holds a string password hash that bcrypt accepts the sent password against,
/// and refused as a wrong password exactly when bcrypt rejects it.
pub proof fn law_login_granted_exactly_for_accepted_password(password: Seq<char>, fs: Seq<Field>)
    ensures
        (login_decision(password, Ok(Some(fs))) == LoginDecision::Granted) == (string_attr(
            fs,
            "password"@,
        ) matches Some(h) && bcrypt_verify_result(password, h) == Some(true)),
        (login_decision(password, Ok(Some(fs))) == LoginDecision::WrongPassword) == (string_attr(
            fs,
            "password"@,
        ) matches Some(h) && bcrypt_verify_result(password, h) == Some(false)),
{
}

/// The answer to a granted login once the token is issued (or not).
pub fn login_granted(token: Result<String, TokenError>) -> (r: Result<(Reply, String), ServiceFault>)
    ensures
        match token {
            Ok(t) => r matches Ok((rep, t2)) && is_reply(rep, OK, "Login successful"@) && t2 == t,
            Err(_) => r matches Err(ServiceFault::TokenFailed),
        },
{
    match token {
        Ok(t) => Ok((reply(OK, "Login successful"), t)),
        Err(_) => Err(ServiceFault::TokenFailed),
    }
}

/// A granted login: the success reply and the token for the session, issued
/// to `username` and signed with `jwt_secret`; this always succeeds, and the
/// token read back with the same key carries the user name.
pub fn grant_login(username: &String, jwt_secret: &str) -> (r: Result<(Reply, String), ServiceFault>)
    ensures
        r is Ok,
        r matches Ok((rep, token)) ==> is_reply(rep, OK, "Login successful"@) && token@
            == jwt_hs256_token(claims_json_spec(username@, TOKEN_EXPIRY as nat), jwt_secret@),
        r matches Ok((rep, token)) ==> jwt_hs256_claims(token@, jwt_secret@) == issued_claims(
            username@,
        ),
        r matches Err(e) ==> e is TokenFailed,
{
    login_granted(get_token(username.clone(), jwt_secret))
}

/// The account read at login is the one registration writes: the same table,
/// keyed by the user name that the stored item holds.
pub proof fn law_login_reads_registered_account(
    reg: Registration,
    d: CustomerDetailsView,
    q: KeyRequest,
)
    requires
        is_registration(reg, d),
        is_username_request(q, d.username),
    ensures
        q.table@ == reg.store.table@,
        string_attr(q.key.fields@, "username"@) == Some(d.username),
        string_attr(reg.store.item.fields@, "username"@) == Some(d.username),
{
    let fs = reg.store.item.fields@;
    let i = choose|i: int| 0 <= i < fs.len() && #[trigger] is_string_field(fs[i], "username"@, d.username);
    lemma_find_distinct(fs, i);
    reveal_with_fuel(find_field, 1);
}

/// A registered password logs in: against an account item holding, in any
/// order, the attributes registration wrote with a hash that bcrypt accepts
/// the password against, the same password is granted.
pub proof fn law_registered_password_logs_in(fs: Seq<Field>, d: CustomerDetailsView, hash: Seq<char>)
    requires
        account_attrs(fs, d, hash),
        bcrypt_verify_result(d.password, hash) == Some(true),
    ensures
        login_decision(d.password, Ok(Some(fs))) == LoginDecision::Granted,
{
    let i = choose|i: int| 0 <= i < fs.len() && #[trigger] is_string_field(fs[i], "password"@, hash);
    lemma_find_distinct(fs, i);
}

/// What registration stores logs in with the registered password.
pub proof fn law_registration_logs_in(reg: Registration, d: CustomerDetailsView)
    requires
        is_registration(reg, d),
    ensures
        login_decision(d.password, Ok(Some(reg.store.item.fields@))) == LoginDecision::Granted,
{
    law_registered_password_logs_in(reg.store.item.fields@, d, account_hash(reg.store.item.fields@));
}

/// The next step of a details request.
pub enum DetailsStep {
    Done(Reply),
    Fetch(KeyRequest),
}

/// Only an admin may read user details: the read of account `user_id` by its
/// numeric id for an admin, a refusal for anyone else.
pub open spec fn details_step_ok(s: DetailsStep, role: UserRole, user_id: Seq<char>) -> bool {
    match role {
        UserRole::Admin => s matches DetailsStep::Fetch(q) && q.table@ == login_table()
            && q.key.fields@.len() == 1 && is_number_field(q.key.fields@[0], "id"@, user_id),
        UserRole::User => s matches DetailsStep::Done(rep) && is_reply(
            rep,
            FORBIDDEN,
            "You are not authorized to view this page"@,
        ),
    }
}

/// The step of a details request for a caller with `role`.
pub fn user_details_step(role: UserRole, user_id: &str) -> (s: DetailsStep)
    ensures
        details_step_ok(s, role, user_id@),
{
    match role {
        UserRole::Admin => {
            let mut fields: Vec<Field> = Vec::new();
            fields.push(number_field("id", String::from_str(user_id)));
            DetailsStep::Fetch(
                KeyRequest {
                    table: String::from_str("customer_login_details"),
                    key: Item { fields },
                },
            )
        },
        UserRole::User => DetailsStep::Done(
            reply(FORBIDDEN, "You are not authorized to view this page"),
        ),
    }
}

/// The answer of a details request once the role check has answered
/// `checked`: its error, or the step for the checked role.
pub fn details_after_check(checked: Result<UserRole, &'static str>, user_id: &str) -> (r: Result<
    DetailsStep,
    &'static str,
>)
    ensures
        match checked {
            Ok(role) => r matches Ok(s) && details_step_ok(s, role, user_id@),
            Err(e) => r == Err::<DetailsStep, &str>(e),
        },
{
    match checked {
        Ok(role) => Ok(user_details_step(role, user_id)),
        Err(e) => Err(e),
    }
}

/// The answer `r` of a details request whose session token has the role
/// claim `c` under the role check's key: only a role that the token names
/// gets a step, and that step is the one for that role; the errors are the
/// role check's.
pub open spec fn user_details_result(
    c: Option<(Option<Seq<char>>, Option<u64>, Option<Seq<char>>)>,
    r: Result<DetailsStep, &str>,
    user_id: Seq<char>,
) -> bool {
    &&& checked_role_name(c) is None ==> is_decoding_error(r)
    &&& r matches Ok(s) ==> (checked_role_name(c) matches Some(n) && (role_of_name(n) matches Some(
        role,
    ) && details_step_ok(s, role, user_id)))
    &&& r matches Err(e) ==> is_decoding_error(r) || (e@ == "Invalid role"@ && (checked_role_name(
        c,
    ) matches Some(n) && role_of_name(n) is None))
    &&& (checked_role_name(c) matches Some(n) && role_of_name(n) is None) ==> r is Err
}

/// `POST /getuserdetails/{user_id}`: checks the role carried by the session's
/// token (none gives the empty token) and takes the step for that role; the
/// role check's error where the token is not accepted.
pub fn get_user_details(session_token: Option<String>, user_id: &str) -> (r: Result<
    DetailsStep,
    &'static str,
>)
    ensures
        user_details_result(
            jwt_hs256_claims(session_token_view(session_token), role_check_key()),
            r,
            user_id@,
        ),
        !session_token_view(session_token).contains('.') ==> is_decoding_error(r),
{
    let token = get_sesion_token(session_token);
    let checked = check_user_role(token.as_str());
    proof {
        if let Ok(role) = checked {
            law_role_name_roundtrip(role);
        }
    }
    details_after_check(checked, user_id)
}

/// The body that shows a user: `Username: <name>, Role: <role>`.
pub open spec fn details_body(username: Seq<char>, role: Seq<char>) -> Seq<char> {
    "Username: "@ + username + ", Role: "@ + role
}

/// The details body shows the stored user name in full right after
/// `Username: `, then `, Role: ` and the stored role in full.
pub proof fn law_details_body_shows_name_and_role(username: Seq<char>, role: Seq<char>)
    ensures
        details_body(username, role).len() == 10 + (username.len() as int) + 8 + (role.len() as int),
        details_body(username, role).subrange(0, 10) == "Username: "@,
        details_body(username, role).subrange(10, 10 + (username.len() as int)) == username,
        details_body(username, role).subrange(10 + (username.len() as int), 18 + (username.len() as int))
            == ", Role: "@,
        details_body(username, role).subrange(
            18 + (username.len() as int),
            18 + (username.len() as int) + (role.len() as int),
        ) == role,
{
    reveal_strlit("Username: ");
    reveal_strlit(", Role: ");
    let b = details_body(username, role);
    assert("Username: "@.len() == 10 && ", Role: "@.len() == 8);
    assert(b.subrange(0, 10) =~= "Username: "@);
    assert(b.subrange(10, 10 + (username.len() as int)) =~= username);
    assert(b.subrange(10 + (username.len() as int), 18 + (username.len() as int)) =~= ", Role: "@);
    assert(b.subrange(18 + (username.len() as int), 18 + (username.len() as int) + (role.len() as int)) =~= role);
}

/// A store answer that a details read can handle: a stored account must hold
/// a string `username` and a string `role`.
pub open spec fn details_read_ok(got: Result<Option<Item>, StoreError>) -> bool {
    got matches Ok(Some(item)) ==> (string_attr(item.fields@, "username"@) is Some && string_attr(
        item.fields@,
        "role"@,
    ) is Some)
}

/// The reply once the account read is back; a stored account must hold a
/// string `username` and `role` (`get_string` tells).
pub fn user_details_reply(got: &Result<Option<Item>, StoreError>) -> (r: Reply)
    requires
        details_read_ok(*got),
    ensures
        got matches Err(_) ==> is_reply(r, INTERNAL_SERVER_ERROR, "Error in fetching user details"@),
        got matches Ok(None) ==> is_reply(r, NOT_FOUND, "User not found"@),
        got matches Ok(Some(item)) ==> is_reply(
            r,
            OK,
            details_body(
                string_attr(item.fields@, "username"@)->0,
                string_attr(item.fields@, "role"@)->0,
            ),
        ),
        got matches Ok(Some(item)) ==> r.body@ == "Username: "@ + string_attr(
            item.fields@,
            "username"@,
        )->0 + ", Role: "@ + string_attr(item.fields@, "role"@)->0,
{
    match got {
        Ok(Some(item)) => {
            let username = get_string(&item.fields, "username");
            let role = get_string(&item.fields, "role");
            match (username, role) {
                (Some(u), Some(role)) => {
                    let mut body = String::from_str("Username: ");
                    body.append(u.as_str());
                    body.append(", Role: ");
                    body.append(role.as_str());
                    Reply { status: OK, body }
                },
                _ => {
                    proof {
                        assert(false);
                    }
                    reply(INTERNAL_SERVER_ERROR, "Error in fetching user details")
                },
            }
        },
        Ok(None) => reply(NOT_FOUND, "User not found"),
        Err(_) => reply(INTERNAL_SERVER_ERROR, "Error in fetching user details"),
    }
}

} // verus!
