use vps_monitor::auth::{
    change_password, check_credentials, hash_password, hash_with_salt, login, login_guard,
    login_judged, logout, password_hashed, refuse_change, require_admin, session_cookie, setup,
    setup_hashed, setup_status, verify_password, ChangePassword, Credentials, GateAction,
    GateEvent, LoginAction, LoginEvent, LoginGuardState, PasswordAction, PasswordEvent,
    SetupAction, SetupEvent, MAX_FAILURES, SESSION_COOKIE,
};
use vps_monitor::db::{create_admin, AdminAccount, SessionState};
use vps_monitor::moment::Moment;
use vps_monitor::reply::{DbFailure, Reply};

const SECOND: u64 = 1_000_000_000;

fn credentials(username: &str, password: &str) -> Credentials {
    Credentials {
        username: username.to_string(),
        password: password.to_string(),
    }
}

fn account(username: &str, hash: &str) -> AdminAccount {
    create_admin(username, hash, &Moment { secs: 0, nanos: 0 })
}

fn shows(reply: &Reply, status: u16, body: &str) {
    assert_eq!((reply.status, reply.body.as_str()), (status, body));
}

fn setup_answer(action: SetupAction, status: u16, body: &str) {
    match action {
        SetupAction::Respond(reply) => shows(&reply, status, body),
        other => panic!("{other:?}"),
    }
}

fn login_answer(action: LoginAction, status: u16, body: &str) {
    match action {
        LoginAction::Respond(reply) => shows(&reply, status, body),
        other => panic!("{other:?}"),
    }
}

fn password_answer(action: PasswordAction, status: u16, body: &str) {
    match action {
        PasswordAction::Respond(reply) => shows(&reply, status, body),
        other => panic!("{other:?}"),
    }
}

#[test]
fn a_hash_verifies_its_password_alone() {
    let hash = hash_password("correct horse").unwrap();
    assert!(hash.starts_with("$argon2id$v=19$m=19456,t=2,p=1$"));
    assert!(verify_password("correct horse", &hash));
    assert!(!verify_password("correct horsE", &hash));
    assert!(!verify_password("", &hash));
    assert_ne!(hash, hash_password("correct horse").unwrap());
}

#[test]
fn a_hash_is_made_under_a_new_salt_of_sixteen_bytes() {
    let hash = hash_password("correct horse").unwrap();
    let salt = hash.split('$').nth(4).unwrap();
    assert_eq!(salt.len(), 22);
    assert!(salt
        .chars()
        .all(|c| c.is_ascii_alphanumeric() || c == '+' || c == '/'));
    assert!(matches!(salt.chars().last(), Some('A' | 'Q' | 'g' | 'w')));
    assert_eq!(hash_with_salt("correct horse", salt), Ok(hash.clone()));
    let other = hash_password("correct horse").unwrap();
    assert_ne!(other.split('$').nth(4).unwrap(), salt);
}

#[test]
fn a_hash_is_settled_by_password_and_salt() {
    let salt = "c2FsdHNhbHRzYWx0";
    let hash = hash_with_salt("password", salt).unwrap();
    assert_eq!(hash, hash_with_salt("password", salt).unwrap());
    assert_ne!(hash, hash_with_salt("passwort", salt).unwrap());
    assert_ne!(hash, hash_with_salt("password", "c2FsdHNhbHRzYWx1").unwrap());
    assert!(hash.contains(salt));
    assert!(hash_with_salt("password", "not a salt").is_err());
    assert!(hash_with_salt("password", "").is_err());
}

#[test]
fn what_is_no_hash_verifies_nothing() {
    assert!(!verify_password("password", ""));
    assert!(!verify_password("password", "password"));
    assert!(!verify_password("password", "$argon2id$v=19$m=19456,t=2,p=1$short"));
    assert!(!verify_password("$argon2id$", "$argon2id$"));
    let hash = hash_password("password").unwrap();
    let cut = hash.rfind('$').unwrap();
    assert!(!verify_password("password", &hash[..cut]));
    assert!(!verify_password("password", &hash[..cut + 1]));
    assert!(!verify_password("password", &format!("{hash}$")));
    assert!(!verify_password("password", &hash.replace("v=19", "v=20")));
    assert!(!verify_password("password", &hash.replace("t=2", "t=02")));
    assert!(!verify_password("password", &hash.replace("t=2", "x=2")));
    assert!(!verify_password("password", &hash[1..]));
    assert!(!verify_password("password", &hash.replace("argon2id", "scrypt")));
    assert!(!verify_password("password", &format!(" {hash}")));
}

#[test]
fn a_hash_of_too_many_lanes_verifies_nothing() {
    let hash = hash_password("password").unwrap();
    assert!(verify_password("password", &hash));
    for lanes in ["16777216", "99999999", "100000000", "536870912", "4294967295", "99999999999"] {
        let text = hash.replace("p=1", &format!("p={lanes}"));
        assert!(text.contains(lanes));
        assert!(!verify_password("password", &text));
    }
}

#[test]
fn of_several_numbers_of_lanes_the_last_counts() {
    let hash = hash_password("password").unwrap();
    for before in ["1", "7", "999999999", "4294967295"] {
        let text = hash.replace("p=1", &format!("p={before},p=1"));
        assert!(verify_password("password", &text));
        assert!(!verify_password("passwort", &text));
        let text = hash.replace("p=1", &format!("p=1,p={before}"));
        assert_eq!(verify_password("password", &text), before == "1");
    }
}

#[test]
fn a_hash_may_leave_out_its_version_and_parameters() {
    let hash = hash_password("password").unwrap();
    let short = hash.replace("$v=19$m=19456,t=2,p=1", "");
    assert_eq!(short.matches('$').count(), 3);
    assert!(verify_password("password", &short));
    assert!(!verify_password("passwort", &short));
    assert!(verify_password("password", &hash.replace("$v=19", "")));
}

#[test]
fn any_password_of_ordinary_length_is_hashed() {
    for password in ["", "x", "密碼", &"long ".repeat(10_000)] {
        let hash = hash_password(password).unwrap();
        assert!(verify_password(password, &hash));
        assert!(hash_with_salt(password, "AAAAAAAAAAAAAAAAAAAAAw").is_ok());
    }
}

#[test]
fn name_and_password_must_both_be_right() {
    let account = account("admin", &hash_password("longenough").unwrap());
    assert!(check_credentials(&credentials("admin", "longenough"), &account));
    assert!(!check_credentials(&credentials("Admin", "longenough"), &account));
    assert!(!check_credentials(&credentials("admin ", "longenough"), &account));
    assert!(!check_credentials(&credentials("admi", "longenough"), &account));
    assert!(!check_credentials(&credentials("admin", "longenougH"), &account));
}

#[test]
fn fewer_than_five_failures_do_not_lock() {
    let mut guard = login_guard();
    for n in 1..MAX_FAILURES {
        guard.record_failure(n as u64);
        assert_eq!(guard.failures, n);
        assert_eq!(guard.check_locked(n as u64), None);
    }
}

#[test]
fn five_failures_lock_for_five_minutes() {
    let mut guard = login_guard();
    for _ in 0..5 {
        guard.record_failure(10 * SECOND);
    }
    assert_eq!(
        guard,
        LoginGuardState {
            failures: 0,
            locked_until: Some(310_000_000_000)
        }
    );
    assert_eq!(guard.check_locked(10 * SECOND), Some(300));
    assert_eq!(guard.check_locked(10 * SECOND + 1), Some(299));
    assert_eq!(guard.check_locked(309 * SECOND), Some(1));
    assert_eq!(guard.check_locked(310 * SECOND - 1), Some(0));
    assert_eq!(guard.check_locked(310 * SECOND), None);
}

#[test]
fn a_lock_may_outlast_the_clock() {
    let mut guard = login_guard();
    for _ in 0..5 {
        guard.record_failure(u64::MAX);
    }
    assert_eq!(guard.locked_until, Some(u64::MAX as u128 + 300_000_000_000));
    assert_eq!(guard.check_locked(u64::MAX), Some(300));
    assert_eq!(guard.check_locked(0), Some(18_446_744_373));
}

#[test]
fn a_success_clears_the_guard() {
    let mut guard = login_guard();
    for _ in 0..4 {
        guard.record_failure(0);
    }
    guard.record_success();
    assert_eq!(guard, login_guard());
    guard.record_failure(0);
    assert_eq!(guard.failures, 1);
    assert_eq!(guard.check_locked(0), None);
}

#[test]
fn the_session_cookie_is_kept_from_scripts_and_other_sites() {
    for secure in [false, true] {
        let cookie = session_cookie("abc".to_string(), secure);
        assert_eq!(cookie.name, "session");
        assert_eq!(cookie.name, SESSION_COOKIE);
        assert_eq!(cookie.value, "abc");
        assert!(cookie.http_only && cookie.same_site_strict);
        assert_eq!(cookie.secure, secure);
        assert_eq!(cookie.path, "/");
        assert_eq!(cookie.max_age_days, 30);
    }
}

#[test]
fn only_live_sessions_are_admitted() {
    match require_admin(GateEvent::Received(Some("abc".to_string()))) {
        GateAction::LookUpSession(token) => assert_eq!(token, "abc"),
        other => panic!("{other:?}"),
    }
    assert!(matches!(
        require_admin(GateEvent::SessionChecked(Ok(SessionState::Live))),
        GateAction::Admit
    ));
    for event in [
        GateEvent::Received(None),
        GateEvent::SessionChecked(Ok(SessionState::Ended)),
        GateEvent::SessionChecked(Ok(SessionState::Unknown)),
        GateEvent::SessionChecked(Err(DbFailure)),
    ] {
        assert!(matches!(require_admin(event), GateAction::Refuse(401)));
    }
}

#[test]
fn the_page_asks_whether_there_is_an_account() {
    assert!(setup_status(Ok(false)).unwrap().needs_setup);
    assert!(!setup_status(Ok(true)).unwrap().needs_setup);
    shows(&setup_status(Err(DbFailure)).unwrap_err(), 500, "db error");
}

#[test]
fn the_account_is_made_once() {
    let payload = credentials("admin", "longenough");
    setup_answer(
        setup(&payload, false, SetupEvent::AdminChecked(Ok(true))),
        403,
        "管理員帳號已經建立過了",
    );
    setup_answer(
        setup(&payload, false, SetupEvent::AdminChecked(Err(DbFailure))),
        500,
        "db error",
    );
}

#[test]
fn an_account_needs_a_name_and_eight_characters() {
    for (name, password, accepted) in [
        ("admin", "12345678", true),
        (" admin ", "12345678", true),
        ("admin", "密碼密碼密碼密碼", true),
        ("admin", "1234567", false),
        ("admin", "密碼密碼密碼密", false),
        ("", "12345678", false),
        (" \u{3000}\t", "12345678", false),
    ] {
        let payload = credentials(name, password);
        let action = setup(&payload, false, SetupEvent::AdminChecked(Ok(false)));
        if accepted {
            assert!(matches!(action, SetupAction::CreateAdmin { .. }));
        } else {
            setup_answer(action, 400, "帳號不可為空，密碼至少 8 個字元");
        }
    }
}

#[test]
fn the_account_is_set_up_step_by_step() {
    let payload = credentials("  bob\t", "longenough");
    setup_answer(
        setup_hashed(&payload, Err(())),
        500,
        "hash error",
    );
    match setup_hashed(&payload, Ok("h".to_string())) {
        SetupAction::CreateAdmin {
            username,
            password_hash,
        } => assert_eq!((username.as_str(), password_hash.as_str()), ("bob", "h")),
        other => panic!("{other:?}"),
    }
    setup_answer(
        setup(&payload, true, SetupEvent::AdminCreated(Err(DbFailure))),
        500,
        "db error",
    );
    assert!(matches!(
        setup(&payload, true, SetupEvent::AdminCreated(Ok(()))),
        SetupAction::CreateSession
    ));
    setup_answer(
        setup(&payload, true, SetupEvent::SessionCreated(Err(DbFailure))),
        500,
        "session error",
    );
    match setup(&payload, true, SetupEvent::SessionCreated(Ok("tok".to_string()))) {
        SetupAction::Welcome(reply, cookie) => {
            shows(&reply, 200, "帳號建立成功");
            assert_eq!(cookie.value, "tok");
            assert!(cookie.secure);
        }
        other => panic!("{other:?}"),
    }
}

fn made_account(payload: &Credentials) -> AdminAccount {
    match setup(payload, false, SetupEvent::AdminChecked(Ok(false))) {
        SetupAction::CreateAdmin {
            username,
            password_hash,
        } => account(&username, &password_hash),
        other => panic!("{other:?}"),
    }
}

#[test]
fn whoever_made_the_account_can_log_in() {
    let payload = credentials(" bob ", "longenough");
    let stored = made_account(&payload);
    assert!(check_credentials(&credentials("bob", "longenough"), &stored));
    assert!(!check_credentials(&payload, &stored));
    assert!(!check_credentials(&credentials("bob", "longenougH"), &stored));
}

#[test]
fn logins_are_decided_step_by_step() {
    let payload = credentials("admin", "longenough");
    assert!(matches!(
        login(&payload, false, LoginEvent::Received(None)),
        LoginAction::LoadAdmin
    ));
    login_answer(
        login(&payload, false, LoginEvent::Received(Some(0))),
        429,
        "登入失敗次數過多，請 0 秒後再試",
    );
    login_answer(
        login(&payload, false, LoginEvent::AdminLoaded(Ok(None))),
        403,
        "尚未建立管理員帳號",
    );
    login_answer(
        login(&payload, false, LoginEvent::AdminLoaded(Err(DbFailure))),
        500,
        "db error",
    );
    login_answer(
        login(&payload, false, LoginEvent::SessionCreated(Err(DbFailure))),
        500,
        "session error",
    );
    match login(&payload, false, LoginEvent::SessionCreated(Ok("tok".to_string()))) {
        LoginAction::Welcome(reply, cookie) => {
            shows(&reply, 200, "登入成功");
            assert_eq!(cookie.value, "tok");
            assert!(!cookie.secure);
        }
        other => panic!("{other:?}"),
    }
}

fn attempt(payload: &Credentials, account: AdminAccount, guard: &mut LoginGuardState) -> LoginAction {
    match login(payload, false, LoginEvent::AdminLoaded(Ok(Some(account)))) {
        LoginAction::Settle(matched) => login_judged(guard, 7, matched),
        other => panic!("{other:?}"),
    }
}

#[test]
fn only_the_password_opens_a_session() {
    let made = credentials("admin", "longenough");
    let mut guard = login_guard();
    for (name, password) in [("admin", "longenougH"), ("Admin", "longenough"), ("admin", "")] {
        let failures = guard.failures;
        login_answer(
            attempt(&credentials(name, password), made_account(&made), &mut guard),
            401,
            "帳號或密碼錯誤",
        );
        assert_eq!(guard.failures, failures + 1);
    }
    assert!(matches!(
        attempt(&made, made_account(&made), &mut guard),
        LoginAction::CreateSession
    ));
    assert_eq!(guard, login_guard());
}

#[test]
fn guessing_is_locked_out() {
    let payload = credentials("admin", "guess");
    let mut guard = login_guard();
    let arrives = |guard: &LoginGuardState, now: u64| {
        login(&payload, false, LoginEvent::Received(guard.check_locked(now)))
    };
    for n in 1..=5u64 {
        assert!(matches!(arrives(&guard, n * SECOND), LoginAction::LoadAdmin));
        login_answer(
            login_judged(&mut guard, n * SECOND, false),
            401,
            "帳號或密碼錯誤",
        );
    }
    login_answer(
        arrives(&guard, 5 * SECOND),
        429,
        "登入失敗次數過多，請 300 秒後再試",
    );
    login_answer(
        arrives(&guard, 65 * SECOND),
        429,
        "登入失敗次數過多，請 240 秒後再試",
    );
    assert!(matches!(arrives(&guard, 305 * SECOND), LoginAction::LoadAdmin));
}

#[test]
fn a_right_login_forgets_the_wrong_ones() {
    let mut guard = login_guard();
    for _ in 0..4 {
        login_judged(&mut guard, 0, false);
    }
    assert_eq!(guard.failures, 4);
    assert!(matches!(
        login_judged(&mut guard, 0, true),
        LoginAction::CreateSession
    ));
    assert_eq!(guard, login_guard());
    for _ in 0..4 {
        login_judged(&mut guard, 0, false);
        assert_eq!(guard.check_locked(0), None);
    }
    login_judged(&mut guard, 0, false);
    assert_eq!(guard.check_locked(0), Some(300));
}

#[test]
fn a_logout_removes_the_session() {
    let (session, reply) = logout(Some("abc".to_string()));
    assert_eq!(session, Some("abc".to_string()));
    shows(&reply, 200, "已登出");
    let (session, reply) = logout(None);
    assert_eq!(session, None);
    shows(&reply, 200, "已登出");
}

fn change(current: &str, new: &str) -> ChangePassword {
    ChangePassword {
        current_password: current.to_string(),
        new_password: new.to_string(),
    }
}

#[test]
fn passwords_are_changed_step_by_step() {
    let payload = change("longenough", "newpassword");
    password_answer(
        change_password(&payload, PasswordEvent::AdminLoaded(Ok(None))),
        403,
        "尚未建立管理員帳號",
    );
    password_answer(
        change_password(&payload, PasswordEvent::AdminLoaded(Err(DbFailure))),
        500,
        "db error",
    );
    password_answer(password_hashed(Err(())), 500, "hash error");
    match password_hashed(Ok("n".to_string())) {
        PasswordAction::UpdatePassword(hash) => assert_eq!(hash, "n"),
        other => panic!("{other:?}"),
    }
    password_answer(
        change_password(&payload, PasswordEvent::Updated(Err(DbFailure))),
        500,
        "db error",
    );
    password_answer(
        change_password(&payload, PasswordEvent::Updated(Ok(()))),
        200,
        "密碼已更新",
    );
}

#[test]
fn a_change_of_password_needs_the_current_one_and_eight_characters() {
    shows(&refuse_change(&change("x", "newpassword"), false).unwrap(), 401, "目前密碼不正確");
    shows(&refuse_change(&change("x", "short"), false).unwrap(), 401, "目前密碼不正確");
    shows(&refuse_change(&change("x", "1234567"), true).unwrap(), 400, "新密碼至少 8 個字元");
    shows(&refuse_change(&change("x", "密碼密碼"), true).unwrap(), 400, "新密碼至少 8 個字元");
    assert!(refuse_change(&change("x", "12345678"), true).is_none());
    assert!(refuse_change(&change("x", "密碼密碼密碼密碼"), true).is_none());
}

#[test]
fn a_changed_password_is_the_accounts() {
    let former = || made_account(&credentials("admin", "longenough"));
    let loaded = || PasswordEvent::AdminLoaded(Ok(Some(former())));
    password_answer(
        change_password(&change("wrong", "newpassword"), loaded()),
        401,
        "目前密碼不正確",
    );
    password_answer(
        change_password(&change("longenough", "short"), loaded()),
        400,
        "新密碼至少 8 個字元",
    );
    match change_password(&change("longenough", "newpassword"), loaded()) {
        PasswordAction::UpdatePassword(hash) => {
            let account = account("admin", &hash);
            assert!(check_credentials(&credentials("admin", "newpassword"), &account));
            assert!(!check_credentials(&credentials("admin", "longenough"), &account));
        }
        other => panic!("{other:?}"),
    }
}
