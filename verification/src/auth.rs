//! The administrator's account: passwords, logins and the guard against guessing.
//!
//! There is one account, made once. A login is answered with a session, which a cookie carries.

use argon2::password_hash::{PasswordHash, PasswordHasher, PasswordVerifier, SaltString};
use argon2::Argon2;
use subtle::ConstantTimeEq;
use vstd::prelude::*;
use vstd::string::*;
use vstd::utf8::*;

use crate::db::{AdminAccount, SessionState};
use crate::reply;
use crate::reply::{
    db_error_reply, DbResult, Reply, BAD_REQUEST, FORBIDDEN, INTERNAL_SERVER_ERROR, OK,
    TOO_MANY_REQUESTS, UNAUTHORIZED,
};
use crate::text;
use crate::text::{chars_of, decimal_text, trim};

verus! {

/// The name of the cookie that carries a session.
pub const SESSION_COOKIE: &'static str = "session";

/// The fewest characters that a password may have.
pub const MIN_PASSWORD_CHARS: usize = 8;

#[verifier::external_type_specification]
#[verifier::external_body]
pub struct ExPasswordHashError(argon2::password_hash::Error);

/// The text of the hash of a password under a salt, or `None` where there is none: what argon2's
/// `Argon2::hash_password` gives with its default parameters.
pub uninterp spec fn argon2_hash(password: Seq<char>, salt: Seq<char>) -> Option<Seq<char>>;

/// Whether a password is the one that a hash was made of: what argon2's
/// `Argon2::verify_password` finds. A text that is no hash matches no password.
pub uninterp spec fn argon2_verifies(password: Seq<char>, hash: Seq<char>) -> bool;

/// A character of the B64 notation.
pub open spec fn b64_char(c: char) -> bool {
    'A' <= c <= 'Z' || 'a' <= c <= 'z' || '0' <= c <= '9' || c == '+' || c == '/'
}

/// A text in B64 notation.
pub open spec fn b64_text(s: Seq<char>) -> bool {
    forall|i: int| 0 <= i < s.len() ==> b64_char(#[trigger] s[i])
}

/// A new salt: sixteen bytes in B64 notation, which takes twenty-two characters. The last one
/// holds two bits.
pub open spec fn salt_shape(salt: Seq<char>) -> bool {
    &&& salt.len() == 22
    &&& b64_text(salt)
    &&& salt[21] == 'A' || salt[21] == 'Q' || salt[21] == 'g' || salt[21] == 'w'
}

/// Whether a password is short enough to be hashed: less than four gibibytes.
pub open spec fn hashable(password: Seq<char>) -> bool {
    encode_utf8(password).len() <= u32::MAX
}

/// argon2's `SaltString::generate` on the operating system's random number generator: a new
/// salt of sixteen random bytes, in B64 notation. It panics where that generator fails.
#[verifier::external_body]
fn generate_salt() -> (r: String)
    ensures
        salt_shape(r@),
{
    SaltString::generate(&mut rand_core::OsRng).to_string()
}

/// Whether a number of lanes is given at a place in a text, as `p=`.
pub open spec fn lanes_at(s: Seq<char>, place: int) -> bool {
    0 <= place && place + 2 <= s.len() && s[place] == 'p' && s[place + 1] == '='
}

/// Whether the number of lanes given at a place in a text has nine digits or more.
pub open spec fn many_lanes_at(s: Seq<char>, place: int) -> bool {
    &&& lanes_at(s, place)
    &&& place + 11 <= s.len()
    &&& forall|j: int| place + 2 <= j < place + 11 ==> '0' <= #[trigger] s[j] <= '9'
}

/// Whether a hash asks for a number of lanes, its parameter `p`, of at most eight digits. Of
/// several numbers the last counts. More lanes than that are never allowed, and their number need
/// not fit the arithmetic that finds so.
pub open spec fn lanes_fit(hash: Seq<char>) -> bool {
    forall|place: int| #[trigger]
        many_lanes_at(hash, place) ==> exists|later: int|
            place < later && #[trigger] lanes_at(hash, later)
}

/// A whole number in decimal notation, without leading zeros.
pub open spec fn whole_number(s: Seq<char>) -> bool {
    &&& s.len() >= 1
    &&& forall|i: int| 0 <= i < s.len() ==> '0' <= #[trigger] s[i] <= '9'
    &&& s.len() > 1 ==> s[0] != '0'
}

/// A parameter that a hash may name: a cost, which is a number, or bytes in B64 notation.
pub open spec fn hash_parameter(name: Seq<char>, value: Seq<char>) -> bool {
    ||| (name == "m"@ || name == "t"@ || name == "p"@) && whole_number(value)
    ||| (name == "keyid"@ || name == "data"@) && b64_text(value)
}

/// Parameters as a hash lists them, with commas between them.
pub open spec fn listed_parameters(parameters: Seq<(Seq<char>, Seq<char>)>) -> Seq<char>
    decreases parameters.len(),
{
    if parameters.len() == 0 {
        seq![]
    } else {
        let (name, value) = parameters.last();
        let before = listed_parameters(parameters.drop_last());
        (if parameters.len() == 1 {
            before
        } else {
            before + ","@
        }) + name + "="@ + value
    }
}

/// The parts of a hash.
pub ghost struct HashParts {
    /// The form of Argon2.
    pub form: Seq<char>,
    /// The version, as it stands in the hash. It may be left out.
    pub version: Seq<char>,
    /// The parameters, as names and values. They may be left out.
    pub parameters: Seq<(Seq<char>, Seq<char>)>,
    pub salt: Seq<char>,
    pub output: Seq<char>,
}

impl HashParts {
    /// Whether a hash can have these parts.
    pub open spec fn wf(self) -> bool {
        &&& self.form == "argon2d"@ || self.form == "argon2i"@ || self.form == "argon2id"@
        &&& self.version.len() == 0 || self.version == "$v=16"@ || self.version == "$v=19"@
        &&& forall|i: int|
            0 <= i < self.parameters.len() ==> hash_parameter(
                (#[trigger] self.parameters[i]).0,
                self.parameters[i].1,
            )
        &&& 11 <= self.salt.len() <= 64
        &&& b64_text(self.salt)
        &&& 14 <= self.output.len() <= 86
        &&& b64_text(self.output)
    }

    /// The hash with these parts.
    pub open spec fn text(self) -> Seq<char> {
        "$"@ + self.form + self.version + (if self.parameters.len() == 0 {
            seq![]
        } else {
            "$"@ + listed_parameters(self.parameters)
        }) + "$"@ + self.salt + "$"@ + self.output
    }
}

/// Whether a text is a hash: it has the parts of one, in their notation.
pub open spec fn well_formed_hash(s: Seq<char>) -> bool {
    exists|parts: HashParts| #[trigger] parts.wf() && s == parts.text()
}

/// Whether a hash under a salt settles which passwords are right: those with the same hash under
/// that salt.
pub open spec fn settles(salt: Seq<char>, hash: Seq<char>) -> bool {
    &&& lanes_fit(hash)
    &&& forall|other: Seq<char>| #[trigger]
        argon2_verifies(other, hash) == (argon2_hash(other, salt) == Some(hash))
}

/// argon2's `Argon2::hash_password` with its default parameters, on the salt that
/// `SaltString::from_b64` reads. The hash names one lane. `Argon2::verify_password` hashes what
/// it is given under the salt and the parameters in the hash, so it finds a password right where
/// that gives the same hash. On a salt as `SaltString::generate` makes them, hashing fails for
/// nothing but a password that is too long.
#[verifier::external_body]
fn argon2_hash_password(password: &str, salt: &str) -> (r: Result<
    String,
    argon2::password_hash::Error,
>)
    ensures
        argon2_hash(password@, salt@) == match r {
            Ok(hash) => Some(hash@),
            Err(_) => None,
        },
        r matches Ok(hash) ==> settles(salt@, hash@),
        salt_shape(salt@) ==> (r is Ok <==> hashable(password@)),
{
    let salt = SaltString::from_b64(salt)?;
    Argon2::default().hash_password(password.as_bytes(), &salt).map(|hash| hash.to_string())
}

/// argon2's `Argon2::verify_password`, on the hash that `PasswordHash::new` reads. It finds no
/// password right for a text that is not a hash of Argon2 with its salt and output. It panics in checked builds on a number of
/// lanes that is too large to be multiplied by eight, and takes the memory that the hash asks
/// for: where the machine has less, the process ends.
#[verifier::external_body]
fn argon2_verify_password(password: &str, hash: &str) -> (r: Result<
    (),
    argon2::password_hash::Error,
>)
    requires
        lanes_fit(hash@),
    ensures
        r is Ok == argon2_verifies(password@, hash@),
        r is Ok ==> well_formed_hash(hash@),
{
    let parsed = PasswordHash::new(hash)?;
    Argon2::default().verify_password(password.as_bytes(), &parsed)
}

/// subtle's `ct_eq` on the bytes of two strings: whether they are equal, found in a time that
/// does not depend on where they differ.
#[verifier::external_body]
pub(crate) fn constant_time_eq(a: &str, b: &str) -> (r: bool)
    ensures
        r == (a@ == b@),
{
    bool::from(a.as_bytes().ct_eq(b.as_bytes()))
}

/// Whether a hash asks for a number of lanes of at most eight digits.
fn has_few_lanes(hash: &str) -> (r: bool)
    ensures
        r == lanes_fit(hash@),
{
    let chars = chars_of(hash);
    let n: usize = chars.len();
    let mut i: usize = n;
    while i > 0
        invariant
            chars@ == hash@,
            n == chars@.len(),
            i <= n,
            forall|place: int| i <= place ==> !#[trigger] lanes_at(hash@, place),
        decreases i,
    {
        i = i - 1;
        if n - i >= 2 && chars[i] == 'p' && chars[i + 1] == '=' {
            assert(lanes_at(hash@, i as int));
            let mut k: usize = i + 2;
            while k < n && k - i < 11 && '0' <= chars[k] && chars[k] <= '9'
                invariant
                    chars@ == hash@,
                    n == chars@.len(),
                    i + 2 <= k <= n,
                    k - i <= 11,
                    forall|j: int| i + 2 <= j < k ==> '0' <= #[trigger] hash@[j] <= '9',
                decreases n - k,
            {
                k = k + 1;
            }
            let few = k - i < 11;
            proof {
                if few {
                    if many_lanes_at(hash@, i as int) {
                        assert('0' <= hash@[k as int] <= '9');
                    }
                    assert(lanes_fit(hash@));
                } else {
                    assert(many_lanes_at(hash@, i as int));
                }
            }
            return few;
        }
    }
    true
}

/// Whether a password is the one that a hash was made of. A hash that asks for more lanes than
/// are ever allowed was made of none.
pub open spec fn password_matches(password: Seq<char>, hash: Seq<char>) -> bool {
    lanes_fit(hash) && argon2_verifies(password, hash)
}

/// Whether hashing a password under some new salt gives `hashed`: a hash, or none where the
/// password is too long. The hash settles which passwords are right.
pub open spec fn newly_hashed(password: Seq<char>, hashed: Option<Seq<char>>) -> bool {
    &&& hashed is Some <==> hashable(password)
    &&& exists|salt: Seq<char>|
        salt_shape(salt) && #[trigger] argon2_hash(password, salt) == hashed && (
        hashed matches Some(hash) ==> settles(salt, hash))
}

/// The text of a hash, if there is one.
pub open spec fn hash_view(hashed: Result<String, ()>) -> Option<Seq<char>> {
    match hashed {
        Ok(hash) => Some(hash@),
        Err(_) => None,
    }
}

/// The hash of a password under a given salt.
pub fn hash_with_salt(password: &str, salt: &str) -> (r: Result<String, ()>)
    ensures
        argon2_hash(password@, salt@) == hash_view(r),
        r matches Ok(hash) ==> settles(salt@, hash@) && password_matches(password@, hash@),
        salt_shape(salt@) ==> (r is Ok <==> hashable(password@)),
{
    match argon2_hash_password(password, salt) {
        Ok(hash) => Ok(hash),
        Err(_) => Err(()),
    }
}

/// The hash of a password under a new random salt: what hashing under a salt of that shape gives,
/// and an error exactly where the password is too long to be hashed.
pub fn hash_password(password: &str) -> (r: Result<String, ()>)
    ensures
        newly_hashed(password@, hash_view(r)),
        r is Ok <==> hashable(password@),
        r matches Ok(hash) ==> password_matches(password@, hash@),
{
    let salt = generate_salt();
    hash_with_salt(password, salt.as_str())
}

/// Whether `password` is the one that `hash` was made of. No password is that of a text that is
/// no hash.
pub fn verify_password(password: &str, hash: &str) -> (r: bool)
    ensures
        r == password_matches(password@, hash@),
        r ==> well_formed_hash(hash@),
{
    if !has_few_lanes(hash) {
        return false;
    }
    match argon2_verify_password(password, hash) {
        Ok(_) => true,
        Err(_) => false,
    }
}

/// How often in a row a login may fail before logins are locked.
pub const MAX_FAILURES: u32 = 5;

/// How long logins stay locked, in nanoseconds: five minutes.
pub const LOCKOUT: u64 = 300_000_000_000;

pub const NANOS_PER_SECOND: u64 = 1_000_000_000;

/// The guard against guessing the one account's password. Times are in nanoseconds of a clock
/// that never runs backwards.
#[derive(Clone, Copy, Debug, PartialEq, Eq, Structural)]
pub struct LoginGuardState {
    /// How many logins have failed since the last success or lock.
    pub failures: u32,
    /// Until when logins are locked. A lock may end after the last time that the clock can show.
    pub locked_until: Option<u128>,
}

/// The guard at start-up.
pub fn login_guard() -> (r: LoginGuardState)
    ensures
        r == fresh_guard(),
        r.wf(),
{
    LoginGuardState { failures: 0, locked_until: None }
}

/// The guard at start-up, and after every success.
pub open spec fn fresh_guard() -> LoginGuardState {
    LoginGuardState { failures: 0, locked_until: None }
}

/// The guard after a login has failed at `now`.
pub open spec fn failed_guard(guard: LoginGuardState, now: u64) -> LoginGuardState {
    if guard.failures + 1 >= MAX_FAILURES {
        LoginGuardState { failures: 0, locked_until: Some((now + LOCKOUT) as u128) }
    } else {
        LoginGuardState { failures: (guard.failures + 1) as u32, ..guard }
    }
}

impl LoginGuardState {
    /// The count of failures stays below the one that locks, and no lock is set for longer than
    /// locks last.
    pub open spec fn wf(self) -> bool {
        &&& self.failures < MAX_FAILURES
        &&& self.locked_until matches Some(until) ==> until <= u64::MAX + LOCKOUT
    }

    /// For how many more whole seconds logins are locked at `now`, if they are.
    pub open spec fn lock_left(self, now: u64) -> Option<u64> {
        match self.locked_until {
            Some(until) => if until > now {
                Some(((until - now) / NANOS_PER_SECOND as int) as u64)
            } else {
                None
            },
            None => None,
        }
    }

    /// For how many more whole seconds logins are locked at `now`, if they are.
    pub fn check_locked(&self, now: u64) -> (r: Option<u64>)
        requires
            self.wf(),
        ensures
            r == self.lock_left(now),
    {
        match self.locked_until {
            Some(until) => if until > now as u128 {
                Some(((until - now as u128) / NANOS_PER_SECOND as u128) as u64)
            } else {
                None
            },
            None => None,
        }
    }

    /// Notes that a login has failed at `now`. The failure that makes `MAX_FAILURES` locks
    /// logins and starts the count anew.
    pub fn record_failure(&mut self, now: u64)
        requires
            old(self).wf(),
        ensures
            *final(self) == failed_guard(*old(self), now),
            final(self).wf(),
    {
        self.failures = self.failures + 1;
        if self.failures >= MAX_FAILURES {
            self.locked_until = Some(now as u128 + LOCKOUT as u128);
            self.failures = 0;
        }
    }

    /// Notes that a login has succeeded.
    pub fn record_success(&mut self)
        ensures
            *final(self) == fresh_guard(),
            final(self).wf(),
    {
        self.failures = 0;
        self.locked_until = None;
    }
}

/// A cookie that carries a session.
#[derive(Debug)]
pub struct SessionCookie {
    pub name: String,
    pub value: String,
    /// Scripts cannot read it.
    pub http_only: bool,
    /// It is sent with requests from the monitor's own pages only.
    pub same_site_strict: bool,
    /// It is sent over HTTPS only.
    pub secure: bool,
    pub path: String,
    pub max_age_days: i64,
}

/// How long a browser keeps the cookie.
pub const COOKIE_DAYS: i64 = 30;

/// Whether `cookie` is the one that carries the session `token`.
pub open spec fn carries(cookie: SessionCookie, token: Seq<char>, secure: bool) -> bool {
    &&& cookie.name@ == SESSION_COOKIE@
    &&& cookie.value@ == token
    &&& cookie.http_only
    &&& cookie.same_site_strict
    &&& cookie.secure == secure
    &&& cookie.path@ == "/"@
    &&& cookie.max_age_days == COOKIE_DAYS
}

/// The cookie that carries the session `token`.
pub fn session_cookie(token: String, secure: bool) -> (r: SessionCookie)
    ensures
        carries(r, token@, secure),
{
    SessionCookie {
        name: SESSION_COOKIE.to_owned(),
        value: token,
        http_only: true,
        same_site_strict: true,
        secure,
        path: "/".to_owned(),
        max_age_days: COOKIE_DAYS,
    }
}

/// What has just happened to a request that needs an administrator.
#[derive(Debug)]
pub enum GateEvent {
    /// It came in, with the session cookie's value if it has one.
    Received(Option<String>),
    /// Its session was looked up.
    SessionChecked(DbResult<SessionState>),
}

/// What to do next with a request that needs an administrator.
#[derive(Debug)]
pub enum GateAction {
    LookUpSession(String),
    Admit,
    /// Answer with a bare status.
    Refuse(u16),
}

/// What is done with a request that needs an administrator: it is let through on a live session
/// and on nothing else.
pub open spec fn gate_step(event: GateEvent, action: GateAction) -> bool {
    match event {
        GateEvent::Received(Some(token)) => action matches GateAction::LookUpSession(t) && t@
            == token@,
        GateEvent::Received(None) => action == GateAction::Refuse(UNAUTHORIZED),
        GateEvent::SessionChecked(Ok(SessionState::Live)) => action is Admit,
        GateEvent::SessionChecked(_) => action == GateAction::Refuse(UNAUTHORIZED),
    }
}

/// Decides what to do next with a request that needs an administrator.
pub fn require_admin(event: GateEvent) -> (r: GateAction)
    ensures
        gate_step(event, r),
{
    match event {
        GateEvent::Received(Some(token)) => GateAction::LookUpSession(token),
        GateEvent::Received(None) => GateAction::Refuse(UNAUTHORIZED),
        GateEvent::SessionChecked(Ok(SessionState::Live)) => GateAction::Admit,
        GateEvent::SessionChecked(_) => GateAction::Refuse(UNAUTHORIZED),
    }
}

/// Whether the account is still to be made.
#[derive(Clone, Copy, Debug, PartialEq, Eq, Structural)]
pub struct SetupStatus {
    pub needs_setup: bool,
}

/// Tells whether the account is still to be made, given whether there is one.
pub fn setup_status(found: DbResult<bool>) -> (r: Result<SetupStatus, Reply>)
    ensures
        match found {
            Ok(f) => r matches Ok(status) && status.needs_setup == !f,
            Err(_) => r matches Err(answer) && answer@ == reply::db_error(),
        },
{
    match found {
        Ok(f) => Ok(SetupStatus { needs_setup: !f }),
        Err(_) => Err(db_error_reply()),
    }
}

/// A name and a password.
#[derive(Debug)]
pub struct Credentials {
    pub username: String,
    pub password: String,
}

/// What has just happened to a request to make the account.
#[derive(Debug)]
pub enum SetupEvent {
    /// It was looked up whether there is an account.
    AdminChecked(DbResult<bool>),
    /// The account was stored.
    AdminCreated(DbResult<()>),
    /// A session was stored, under this token.
    SessionCreated(DbResult<String>),
}

/// What to do next with a request to make the account.
#[derive(Debug)]
pub enum SetupAction {
    CreateAdmin { username: String, password_hash: String },
    CreateSession,
    Respond(Reply),
    Welcome(Reply, SessionCookie),
}

impl SetupAction {
    /// Whether the request is answered so, without a session.
    pub open spec fn responds(self, answer: (u16, Seq<char>)) -> bool {
        self matches SetupAction::Respond(r) && r@ == answer
    }
}

/// Whether an account may have this name and password: a name that is not blank, and a password
/// of at least eight characters.
pub open spec fn acceptable(payload: Credentials) -> bool {
    text::trimmed(payload.username@).len() > 0 && payload.password@.len() >= MIN_PASSWORD_CHARS
}

/// What follows from hashing the password of an account to be made.
pub open spec fn setup_hashed_step(
    payload: Credentials,
    hashed: Option<Seq<char>>,
    action: SetupAction,
) -> bool {
    match hashed {
        Some(hash) => action matches SetupAction::CreateAdmin { username, password_hash }
            && username@ == text::trimmed(payload.username@) && password_hash@ == hash,
        None => action.responds((INTERNAL_SERVER_ERROR, "hash error"@)),
    }
}

/// What is done with a request to make the account: it is made once, and never again.
pub open spec fn setup_step(
    payload: Credentials,
    cookie_secure: bool,
    event: SetupEvent,
    action: SetupAction,
) -> bool {
    match event {
        SetupEvent::AdminChecked(Ok(true)) => action.responds(
            (FORBIDDEN, "管理員帳號已經建立過了"@),
        ),
        SetupEvent::AdminChecked(Err(_)) => action.responds(reply::db_error()),
        SetupEvent::AdminChecked(Ok(false)) => if acceptable(payload) {
            exists|hashed: Option<Seq<char>>| #[trigger]
                newly_hashed(payload.password@, hashed) && setup_hashed_step(
                    payload,
                    hashed,
                    action,
                )
        } else {
            action.responds((BAD_REQUEST, "帳號不可為空，密碼至少 8 個字元"@))
        },
        SetupEvent::AdminCreated(Err(_)) => action.responds(reply::db_error()),
        SetupEvent::AdminCreated(Ok(_)) => action is CreateSession,
        SetupEvent::SessionCreated(Err(_)) => action.responds(
            (INTERNAL_SERVER_ERROR, "session error"@),
        ),
        SetupEvent::SessionCreated(Ok(token)) => action matches SetupAction::Welcome(r, cookie)
            && r@ == (OK, "帳號建立成功"@) && carries(cookie, token@, cookie_secure),
    }
}

/// Decides what follows from hashing the password of an account to be made.
pub fn setup_hashed(payload: &Credentials, hashed: Result<String, ()>) -> (r: SetupAction)
    ensures
        setup_hashed_step(*payload, hash_view(hashed), r),
{
    match hashed {
        Ok(hash) => SetupAction::CreateAdmin {
            username: trim(payload.username.as_str()).to_owned(),
            password_hash: hash,
        },
        Err(_) => SetupAction::Respond(reply::reply(INTERNAL_SERVER_ERROR, "hash error")),
    }
}

/// Decides what to do next with a request to make the account.
pub fn setup(payload: &Credentials, cookie_secure: bool, event: SetupEvent) -> (r: SetupAction)
    ensures
        setup_step(*payload, cookie_secure, event, r),
{
    match event {
        SetupEvent::AdminChecked(Ok(true)) => SetupAction::Respond(
            reply::reply(FORBIDDEN, "管理員帳號已經建立過了"),
        ),
        SetupEvent::AdminChecked(Err(_)) => SetupAction::Respond(db_error_reply()),
        SetupEvent::AdminChecked(Ok(false)) => {
            let username = trim(payload.username.as_str());
            if username.is_empty() || payload.password.as_str().unicode_len() < MIN_PASSWORD_CHARS {
                SetupAction::Respond(
                    reply::reply(BAD_REQUEST, "帳號不可為空，密碼至少 8 個字元"),
                )
            } else {
                let hashed = hash_password(payload.password.as_str());
                assert(newly_hashed(payload.password@, hash_view(hashed)));
                setup_hashed(payload, hashed)
            }
        },
        SetupEvent::AdminCreated(Err(_)) => SetupAction::Respond(db_error_reply()),
        SetupEvent::AdminCreated(Ok(_)) => SetupAction::CreateSession,
        SetupEvent::SessionCreated(Err(_)) => SetupAction::Respond(
            reply::reply(INTERNAL_SERVER_ERROR, "session error"),
        ),
        SetupEvent::SessionCreated(Ok(token)) => SetupAction::Welcome(
            reply::reply(OK, "帳號建立成功"),
            session_cookie(token, cookie_secure),
        ),
    }
}

/// What has just happened to a login.
#[derive(Debug)]
pub enum LoginEvent {
    /// It came in. Logins are locked for so many more seconds, if they are.
    Received(Option<u64>),
    /// The account was looked up.
    AdminLoaded(DbResult<Option<AdminAccount>>),
    /// A session was stored, under this token.
    SessionCreated(DbResult<String>),
}

/// What to do next with a login.
#[derive(Debug)]
pub enum LoginAction {
    LoadAdmin,
    /// Tell the guard whether the name and password are the account's.
    Settle(bool),
    CreateSession,
    Respond(Reply),
    Welcome(Reply, SessionCookie),
}

impl LoginAction {
    /// Whether the login is answered so, without a session.
    pub open spec fn responds(self, answer: (u16, Seq<char>)) -> bool {
        self matches LoginAction::Respond(r) && r@ == answer
    }
}

/// Whether a name and a password are those of an account.
pub open spec fn credentials_match(payload: Credentials, account: AdminAccount) -> bool {
    payload.username@ == account.username@ && password_matches(
        payload.password@,
        account.password_hash@,
    )
}

/// Whether the name and the password are those of the account. The name is compared in constant
/// time.
pub fn check_credentials(payload: &Credentials, account: &AdminAccount) -> (r: bool)
    ensures
        r == credentials_match(*payload, *account),
{
    constant_time_eq(payload.username.as_str(), account.username.as_str()) && verify_password(
        payload.password.as_str(),
        account.password_hash.as_str(),
    )
}

/// What follows from comparing a login with the account, and what it does to the guard: a wrong
/// name or password counts as a failure, a right one clears the guard.
pub open spec fn login_judged_step(
    before: LoginGuardState,
    after: LoginGuardState,
    now: u64,
    matched: bool,
    action: LoginAction,
) -> bool {
    if matched {
        after == fresh_guard() && action is CreateSession
    } else {
        after == failed_guard(before, now) && action.responds((UNAUTHORIZED, "帳號或密碼錯誤"@))
    }
}

/// Decides what follows from comparing a login with the account, and keeps the guard.
pub fn login_judged(guard: &mut LoginGuardState, now: u64, matched: bool) -> (r: LoginAction)
    requires
        old(guard).wf(),
    ensures
        login_judged_step(*old(guard), *final(guard), now, matched, r),
        final(guard).wf(),
{
    if matched {
        guard.record_success();
        LoginAction::CreateSession
    } else {
        guard.record_failure(now);
        LoginAction::Respond(reply::reply(UNAUTHORIZED, "帳號或密碼錯誤"))
    }
}

/// What is done with a login: while logins are locked it is turned away and nothing is compared,
/// else its name and password are held against the account's.
pub open spec fn login_step(
    payload: Credentials,
    cookie_secure: bool,
    event: LoginEvent,
    action: LoginAction,
) -> bool {
    match event {
        LoginEvent::Received(Some(secs)) => action.responds(
            (
                TOO_MANY_REQUESTS,
                "登入失敗次數過多，請 "@ + text::decimal(secs as nat) + " 秒後再試"@,
            ),
        ),
        LoginEvent::Received(None) => action is LoadAdmin,
        LoginEvent::AdminLoaded(Ok(Some(account))) => action == LoginAction::Settle(
            credentials_match(payload, account),
        ),
        LoginEvent::AdminLoaded(Ok(None)) => action.responds((FORBIDDEN, "尚未建立管理員帳號"@)),
        LoginEvent::AdminLoaded(Err(_)) => action.responds(reply::db_error()),
        LoginEvent::SessionCreated(Err(_)) => action.responds(
            (INTERNAL_SERVER_ERROR, "session error"@),
        ),
        LoginEvent::SessionCreated(Ok(token)) => action matches LoginAction::Welcome(r, cookie)
            && r@ == (OK, "登入成功"@) && carries(cookie, token@, cookie_secure),
    }
}

/// Decides what to do next with a login. Comparing takes long, so the guard has no part in it;
/// `login_judged` tells it afterwards.
pub fn login(payload: &Credentials, cookie_secure: bool, event: LoginEvent) -> (r: LoginAction)
    ensures
        login_step(*payload, cookie_secure, event, r),
{
    match event {
        LoginEvent::Received(Some(secs)) => {
            let body = "登入失敗次數過多，請 ".to_owned().concat(
                decimal_text(secs).as_str(),
            ).concat(" 秒後再試");
            LoginAction::Respond(Reply { status: TOO_MANY_REQUESTS, body })
        },
        LoginEvent::Received(None) => LoginAction::LoadAdmin,
        LoginEvent::AdminLoaded(Ok(Some(account))) => LoginAction::Settle(
            check_credentials(payload, &account),
        ),
        LoginEvent::AdminLoaded(Ok(None)) => LoginAction::Respond(
            reply::reply(FORBIDDEN, "尚未建立管理員帳號"),
        ),
        LoginEvent::AdminLoaded(Err(_)) => LoginAction::Respond(db_error_reply()),
        LoginEvent::SessionCreated(Err(_)) => LoginAction::Respond(
            reply::reply(INTERNAL_SERVER_ERROR, "session error"),
        ),
        LoginEvent::SessionCreated(Ok(token)) => LoginAction::Welcome(
            reply::reply(OK, "登入成功"),
            session_cookie(token, cookie_secure),
        ),
    }
}

/// What a logout comes to: the session to remove, if the request carries one, and the answer.
/// The cookie is removed in any case.
pub fn logout(cookie: Option<String>) -> (r: (Option<String>, Reply))
    ensures
        r.0 == cookie,
        r.1@ == (OK, "已登出"@),
{
    (cookie, reply::reply(OK, "已登出"))
}

/// A request to change the password.
#[derive(Debug)]
pub struct ChangePassword {
    pub current_password: String,
    pub new_password: String,
}

/// What has just happened to a request to change the password.
#[derive(Debug)]
pub enum PasswordEvent {
    /// The account was looked up.
    AdminLoaded(DbResult<Option<AdminAccount>>),
    /// The new hash was stored.
    Updated(DbResult<()>),
}

/// What to do next with a request to change the password.
#[derive(Debug)]
pub enum PasswordAction {
    /// Store this hash.
    UpdatePassword(String),
    Respond(Reply),
}

impl PasswordAction {
    /// Whether the request is answered so.
    pub open spec fn responds(self, answer: (u16, Seq<char>)) -> bool {
        self matches PasswordAction::Respond(r) && r@ == answer
    }
}

/// Why a change of password is refused, if it is: the current one must be given once more, and
/// the new one must be long enough.
pub open spec fn change_refusal(payload: ChangePassword, current_given: bool) -> Option<
    (u16, Seq<char>),
> {
    if !current_given {
        Some((UNAUTHORIZED, "目前密碼不正確"@))
    } else if payload.new_password@.len() < MIN_PASSWORD_CHARS {
        Some((BAD_REQUEST, "新密碼至少 8 個字元"@))
    } else {
        None
    }
}

/// Refuses a change of password, if it is to be refused, given whether the current one is right.
pub fn refuse_change(payload: &ChangePassword, current_given: bool) -> (r: Option<Reply>)
    ensures
        match change_refusal(*payload, current_given) {
            Some(answer) => r matches Some(refusal) && refusal@ == answer,
            None => r is None,
        },
{
    if !current_given {
        Some(reply::reply(UNAUTHORIZED, "目前密碼不正確"))
    } else if payload.new_password.as_str().unicode_len() < MIN_PASSWORD_CHARS {
        Some(reply::reply(BAD_REQUEST, "新密碼至少 8 個字元"))
    } else {
        None
    }
}

/// What follows from hashing a new password.
pub open spec fn password_hashed_step(hashed: Option<Seq<char>>, action: PasswordAction) -> bool {
    match hashed {
        Some(hash) => action matches PasswordAction::UpdatePassword(stored) && stored@ == hash,
        None => action.responds((INTERNAL_SERVER_ERROR, "hash error"@)),
    }
}

/// Decides what follows from hashing a new password.
pub fn password_hashed(hashed: Result<String, ()>) -> (r: PasswordAction)
    ensures
        password_hashed_step(hash_view(hashed), r),
{
    match hashed {
        Ok(hash) => PasswordAction::UpdatePassword(hash),
        Err(_) => PasswordAction::Respond(reply::reply(INTERNAL_SERVER_ERROR, "hash error")),
    }
}

/// What is done with a request to change the password: the current one must be given once more,
/// and the new one must be long enough.
pub open spec fn password_step(
    payload: ChangePassword,
    event: PasswordEvent,
    action: PasswordAction,
) -> bool {
    match event {
        PasswordEvent::AdminLoaded(Ok(Some(account))) => match change_refusal(
            payload,
            password_matches(payload.current_password@, account.password_hash@),
        ) {
            Some(answer) => action.responds(answer),
            None => exists|hashed: Option<Seq<char>>| #[trigger]
                newly_hashed(payload.new_password@, hashed) && password_hashed_step(hashed, action),
        },
        PasswordEvent::AdminLoaded(Ok(None)) => action.responds(
            (FORBIDDEN, "尚未建立管理員帳號"@),
        ),
        PasswordEvent::AdminLoaded(Err(_)) => action.responds(reply::db_error()),
        PasswordEvent::Updated(Err(_)) => action.responds(reply::db_error()),
        PasswordEvent::Updated(Ok(_)) => action.responds((OK, "密碼已更新"@)),
    }
}

/// Decides what to do next with a request to change the password.
pub fn change_password(payload: &ChangePassword, event: PasswordEvent) -> (r: PasswordAction)
    ensures
        password_step(*payload, event, r),
{
    match event {
        PasswordEvent::AdminLoaded(Ok(Some(account))) => {
            let current_given = verify_password(
                payload.current_password.as_str(),
                account.password_hash.as_str(),
            );
            match refuse_change(payload, current_given) {
                Some(refusal) => PasswordAction::Respond(refusal),
                None => {
                    let hashed = hash_password(payload.new_password.as_str());
                    assert(newly_hashed(payload.new_password@, hash_view(hashed)));
                    password_hashed(hashed)
                },
            }
        },
        PasswordEvent::AdminLoaded(Ok(None)) => PasswordAction::Respond(
            reply::reply(FORBIDDEN, "尚未建立管理員帳號"),
        ),
        PasswordEvent::AdminLoaded(Err(_)) => PasswordAction::Respond(db_error_reply()),
        PasswordEvent::Updated(Err(_)) => PasswordAction::Respond(db_error_reply()),
        PasswordEvent::Updated(Ok(_)) => PasswordAction::Respond(
            reply::reply(OK, "密碼已更新"),
        ),
    }
}

} // verus!
