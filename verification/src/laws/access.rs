//! Who may do what, and what they are told, item by item.

use vstd::prelude::*;

use crate::auth;
use crate::auth::{
    ChangePassword, Credentials, GateAction, GateEvent, LoginAction, LoginEvent, LoginGuardState,
    PasswordAction, PasswordEvent, SessionCookie, SetupAction, SetupEvent,
};
use crate::db::{AdminAccount, SessionState};
use crate::laws::pages;
use crate::reply::DbFailure;
use crate::text;

verus! {

/// The cookie of a session carries its token, is kept from scripts and from other sites, is sent
/// over HTTPS only where that is asked for, and lasts thirty days.
pub proof fn law_session_cookies(cookie: SessionCookie, token: Seq<char>, secure: bool)
    ensures
        auth::carries(cookie, token, secure) <==> cookie.name@ == "session"@ && cookie.value@
            == token && cookie.http_only && cookie.same_site_strict && cookie.secure == secure
            && cookie.path@ == "/"@ && cookie.max_age_days == 30,
{
}

/// How a request that needs an administrator is dealt with at each step: it is let in on a live
/// session and turned away in every other case.
pub proof fn law_steps_of_the_gate(
    token: String,
    state: SessionState,
    failure: DbFailure,
    action: GateAction,
)
    ensures
        auth::gate_step(GateEvent::Received(Some(token)), action) ==> (
        action matches GateAction::LookUpSession(asked) && asked@ == token@),
        auth::gate_step(GateEvent::Received(None), action) ==> (
        action matches GateAction::Refuse(status) && status == 401),
        auth::gate_step(GateEvent::SessionChecked(Ok(state)), action) ==> {
            &&& state == SessionState::Live <==> action is Admit
            &&& state != SessionState::Live ==> (action matches GateAction::Refuse(status) && status
                == 401)
        },
        auth::gate_step(GateEvent::SessionChecked(Err(failure)), action) ==> (
        action matches GateAction::Refuse(status) && status == 401),
{
}

/// An account may be made exactly where the name is not blank and the password has eight
/// characters or more.
pub proof fn law_acceptable_accounts(payload: Credentials)
    ensures
        auth::acceptable(payload) <==> !pages::blank(payload.username@) && payload.password@.len()
            >= 8,
{
    pages::law_blank_texts(payload.username@);
}

/// How a request to make the account is dealt with at each step, and every answer that it can get.
pub proof fn law_steps_of_the_setup(
    payload: Credentials,
    cookie_secure: bool,
    failure: DbFailure,
    token: String,
    action: SetupAction,
)
    ensures
        auth::setup_step(
            payload,
            cookie_secure,
            SetupEvent::AdminChecked(Ok(true)),
            action,
        ) ==> (action matches SetupAction::Respond(r) && r.status == 403 && r.body@
            == "管理員帳號已經建立過了"@),
        auth::setup_step(
            payload,
            cookie_secure,
            SetupEvent::AdminChecked(Err(failure)),
            action,
        ) ==> (action matches SetupAction::Respond(r) && r.status == 500 && r.body@ == "db error"@),
        auth::setup_step(payload, cookie_secure, SetupEvent::AdminChecked(Ok(false)), action) ==> {
            let refused = pages::blank(payload.username@) || payload.password@.len() < 8;
            &&& refused ==> (action matches SetupAction::Respond(r) && r.status == 400 && r.body@
                == "帳號不可為空，密碼至少 8 個字元"@)
            &&& !refused && auth::hashable(payload.password@) ==> (
            action matches SetupAction::CreateAdmin { username, password_hash } && username@
                == text::trimmed(payload.username@) && auth::lanes_fit(password_hash@)
                && auth::argon2_verifies(payload.password@, password_hash@))
            &&& !refused && !auth::hashable(payload.password@) ==> (
            action matches SetupAction::Respond(r) && r.status == 500 && r.body@ == "hash error"@)
        },
        auth::setup_step(
            payload,
            cookie_secure,
            SetupEvent::AdminCreated(Err(failure)),
            action,
        ) ==> (action matches SetupAction::Respond(r) && r.status == 500 && r.body@ == "db error"@),
        auth::setup_step(payload, cookie_secure, SetupEvent::AdminCreated(Ok(())), action)
            ==> action is CreateSession,
        auth::setup_step(
            payload,
            cookie_secure,
            SetupEvent::SessionCreated(Err(failure)),
            action,
        ) ==> (action matches SetupAction::Respond(r) && r.status == 500 && r.body@
            == "session error"@),
        auth::setup_step(
            payload,
            cookie_secure,
            SetupEvent::SessionCreated(Ok(token)),
            action,
        ) ==> (action matches SetupAction::Welcome(r, cookie) && r.status == 200 && r.body@
            == "帳號建立成功"@ && cookie.name@ == "session"@ && cookie.value@ == token@
            && cookie.http_only && cookie.same_site_strict && cookie.secure == cookie_secure),
{
    law_acceptable_accounts(payload);
}

/// What follows from hashing a password, for an account to be made and for a change of password:
/// the hash is stored as it is, and a failure is told.
pub proof fn law_hashes_are_stored(
    payload: Credentials,
    hash: Seq<char>,
    setup_action: SetupAction,
    password_action: PasswordAction,
)
    ensures
        auth::setup_hashed_step(payload, Some(hash), setup_action) ==> (
        setup_action matches SetupAction::CreateAdmin { username, password_hash } && username@
            == text::trimmed(payload.username@) && password_hash@ == hash),
        auth::setup_hashed_step(payload, None, setup_action) ==> (
        setup_action matches SetupAction::Respond(r) && r.status == 500 && r.body@
            == "hash error"@),
        auth::password_hashed_step(Some(hash), password_action) ==> (
        password_action matches PasswordAction::UpdatePassword(stored) && stored@ == hash),
        auth::password_hashed_step(None, password_action) ==> (
        password_action matches PasswordAction::Respond(r) && r.status == 500 && r.body@
            == "hash error"@),
{
}

/// A hash is read as it stands, and a failure as none.
pub proof fn law_hash_view(hash: String)
    ensures
        auth::hash_view(Ok(hash)) == Some(hash@),
        auth::hash_view(Err(())) is None,
{
}

/// A name and a password are the account's exactly where the name is the same, character by
/// character, and the password is right for the hash.
pub proof fn law_credentials(payload: Credentials, account: AdminAccount)
    ensures
        auth::credentials_match(payload, account) <==> payload.username@ == account.username@
            && auth::lanes_fit(account.password_hash@) && auth::argon2_verifies(
            payload.password@,
            account.password_hash@,
        ),
        auth::password_matches(payload.password@, account.password_hash@) <==> auth::lanes_fit(
            account.password_hash@,
        ) && auth::argon2_verifies(payload.password@, account.password_hash@),
{
}

/// Whether `p=` stands at a place in a text, and nine digits behind it.
pub open spec fn nine_digits_of_lanes(s: Seq<char>, place: int) -> bool {
    0 <= place && place + 11 <= s.len() && s[place] == 'p' && s[place + 1] == '=' && forall|j: int|
        place + 2 <= j < place + 11 ==> '0' <= #[trigger] s[j] && s[j] <= '9'
}

/// A hash is set aside for its lanes exactly where nine digits stand behind the last `p=` in it.
pub proof fn law_hashes_set_aside(hash: Seq<char>)
    ensures
        !auth::lanes_fit(hash) <==> exists|place: int| #[trigger]
            nine_digits_of_lanes(hash, place) && forall|later: int|
                place < later && later + 1 < hash.len() && #[trigger] hash[later] == 'p'
                    ==> hash[later + 1] != '=',
{
    if !auth::lanes_fit(hash) {
        let place = choose|place: int| #[trigger]
            auth::many_lanes_at(hash, place) && !exists|later: int|
                place < later && #[trigger] auth::lanes_at(hash, later);
        assert(nine_digits_of_lanes(hash, place));
        assert forall|later: int|
            place < later && later + 1 < hash.len() && #[trigger] hash[later] == 'p' implies hash[
        later + 1] != '=' by {
            assert(!auth::lanes_at(hash, later));
        }
    }
    if exists|place: int| #[trigger]
        nine_digits_of_lanes(hash, place) && forall|later: int|
            place < later && later + 1 < hash.len() && #[trigger] hash[later] == 'p' ==> hash[later
                + 1] != '=' {
        let place = choose|place: int| #[trigger]
            nine_digits_of_lanes(hash, place) && forall|later: int|
                place < later && later + 1 < hash.len() && #[trigger] hash[later] == 'p' ==> hash[
                later + 1] != '=';
        assert(auth::many_lanes_at(hash, place));
        assert forall|later: int| place < later implies !#[trigger] auth::lanes_at(hash, later) by {
            if later + 1 < hash.len() {
                assert(hash[later] == 'p' ==> hash[later + 1] != '=');
            }
        }
    }
}

/// How a login is dealt with at each step, and every answer that it can get.
pub proof fn law_steps_of_a_login(
    payload: Credentials,
    account: AdminAccount,
    cookie_secure: bool,
    secs: u64,
    failure: DbFailure,
    token: String,
    action: LoginAction,
)
    ensures
        auth::login_step(payload, cookie_secure, LoginEvent::Received(Some(secs)), action) ==> (
        action matches LoginAction::Respond(r) && r.status == 429 && r.body@
            == "登入失敗次數過多，請 "@ + text::decimal(secs as nat) + " 秒後再試"@),
        auth::login_step(payload, cookie_secure, LoginEvent::Received(None), action)
            ==> action is LoadAdmin,
        auth::login_step(
            payload,
            cookie_secure,
            LoginEvent::AdminLoaded(Ok(Some(account))),
            action,
        ) ==> (action matches LoginAction::Settle(matched) && (matched <==> payload.username@
            == account.username@ && auth::lanes_fit(account.password_hash@)
            && auth::argon2_verifies(payload.password@, account.password_hash@))),
        auth::login_step(payload, cookie_secure, LoginEvent::AdminLoaded(Ok(None)), action) ==> (
        action matches LoginAction::Respond(r) && r.status == 403 && r.body@
            == "尚未建立管理員帳號"@),
        auth::login_step(
            payload,
            cookie_secure,
            LoginEvent::AdminLoaded(Err(failure)),
            action,
        ) ==> (action matches LoginAction::Respond(r) && r.status == 500 && r.body@ == "db error"@),
        auth::login_step(
            payload,
            cookie_secure,
            LoginEvent::SessionCreated(Err(failure)),
            action,
        ) ==> (action matches LoginAction::Respond(r) && r.status == 500 && r.body@
            == "session error"@),
        auth::login_step(
            payload,
            cookie_secure,
            LoginEvent::SessionCreated(Ok(token)),
            action,
        ) ==> (action matches LoginAction::Welcome(r, cookie) && r.status == 200 && r.body@
            == "登入成功"@ && cookie.name@ == "session"@ && cookie.value@ == token@
            && cookie.http_only && cookie.same_site_strict && cookie.secure == cookie_secure),
{
}

/// What follows from comparing a login with the account. A right one is granted a session and
/// clears the guard. A wrong one is refused and counts; the fifth in a row locks logins for five
/// minutes.
pub proof fn law_judged_logins(
    before: LoginGuardState,
    after: LoginGuardState,
    now: u64,
    matched: bool,
    action: LoginAction,
)
    requires
        before.wf(),
        auth::login_judged_step(before, after, now, matched, action),
    ensures
        matched ==> action is CreateSession && after.failures == 0 && after.locked_until is None,
        !matched ==> (action matches LoginAction::Respond(r) && r.status == 401 && r.body@
            == "帳號或密碼錯誤"@),
        !matched && before.failures < 4 ==> after.failures == before.failures + 1
            && after.locked_until == before.locked_until,
        !matched && before.failures == 4 ==> after.failures == 0 && (
        after.locked_until matches Some(until) && until == now + 300_000_000_000),
{
}

/// The guard starts without failures and without a lock.
pub proof fn law_fresh_guard()
    ensures
        auth::fresh_guard().failures == 0,
        auth::fresh_guard().locked_until is None,
{
}

/// Logins are locked exactly until the lock ends, and the whole seconds left are told, rounded
/// down.
pub proof fn law_seconds_left(guard: LoginGuardState, now: u64)
    requires
        guard.wf(),
    ensures
        guard.lock_left(now) is Some <==> (guard.locked_until matches Some(until) && until > now),
        guard.lock_left(now) matches Some(secs) ==> (guard.locked_until matches Some(until) && secs
            * 1_000_000_000 <= until - now < (secs + 1) * 1_000_000_000),
{
}

/// Why a change of password is refused: the current one is wrong, or else the new one has fewer
/// than eight characters.
pub proof fn law_refused_changes(payload: ChangePassword, current_given: bool)
    ensures
        !current_given ==> auth::change_refusal(payload, current_given) == Some(
            (401u16, "目前密碼不正確"@),
        ),
        current_given && payload.new_password@.len() < 8 ==> auth::change_refusal(
            payload,
            current_given,
        ) == Some((400u16, "新密碼至少 8 個字元"@)),
        current_given && payload.new_password@.len() >= 8 ==> auth::change_refusal(
            payload,
            current_given,
        ) is None,
{
}

/// How a request to change the password is dealt with at each step, and every answer that it can
/// get.
pub proof fn law_steps_of_a_password_change(
    payload: ChangePassword,
    account: AdminAccount,
    failure: DbFailure,
    action: PasswordAction,
)
    ensures
        auth::password_step(payload, PasswordEvent::AdminLoaded(Ok(Some(account))), action) ==> {
            let right = auth::lanes_fit(account.password_hash@) && auth::argon2_verifies(
                payload.current_password@,
                account.password_hash@,
            );
            let long = payload.new_password@.len() >= 8;
            &&& !right ==> (action matches PasswordAction::Respond(r) && r.status == 401 && r.body@
                == "目前密碼不正確"@)
            &&& right && !long ==> (action matches PasswordAction::Respond(r) && r.status == 400
                && r.body@ == "新密碼至少 8 個字元"@)
            &&& right && long && auth::hashable(payload.new_password@) ==> (
            action matches PasswordAction::UpdatePassword(hash) && auth::lanes_fit(hash@)
                && auth::argon2_verifies(payload.new_password@, hash@))
            &&& right && long && !auth::hashable(payload.new_password@) ==> (
            action matches PasswordAction::Respond(r) && r.status == 500 && r.body@
                == "hash error"@)
        },
        auth::password_step(payload, PasswordEvent::AdminLoaded(Ok(None)), action) ==> (
        action matches PasswordAction::Respond(r) && r.status == 403 && r.body@
            == "尚未建立管理員帳號"@),
        auth::password_step(payload, PasswordEvent::AdminLoaded(Err(failure)), action) ==> (
        action matches PasswordAction::Respond(r) && r.status == 500 && r.body@ == "db error"@),
        auth::password_step(payload, PasswordEvent::Updated(Err(failure)), action) ==> (
        action matches PasswordAction::Respond(r) && r.status == 500 && r.body@ == "db error"@),
        auth::password_step(payload, PasswordEvent::Updated(Ok(())), action) ==> (
        action matches PasswordAction::Respond(r) && r.status == 200 && r.body@ == "密碼已更新"@),
{
}

} // verus!
