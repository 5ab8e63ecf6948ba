use vps_monitor::agents::{
    create_agent, delete_agent, list_agents, rotate_agent_token, AgentIdBody, CreateAction,
    CreateAgent, CreateEvent,
};
use vps_monitor::db::{register_agent, valid_id, ServerStatus};
use vps_monitor::figure::Figure;
use vps_monitor::moment::Moment;
use vps_monitor::reply::{DbFailure, Reply};

fn request(id: &str, name: &str) -> CreateAgent {
    CreateAgent {
        id: id.to_string(),
        name: name.to_string(),
    }
}

fn shows(reply: &Reply, status: u16, body: &str) {
    assert_eq!((reply.status, reply.body.as_str()), (status, body));
}

fn create_answer(action: CreateAction, status: u16, body: &str) {
    match action {
        CreateAction::Respond(reply) => shows(&reply, status, body),
        other => panic!("{other:?}"),
    }
}

#[test]
fn machines_are_registered_under_acceptable_ids() {
    for id in ["", "  ", "a b", "機器"] {
        create_answer(
            create_agent(&request(id, "x"), CreateEvent::Received),
            400,
            "id 只能是英數字、'.'、'_'、'-'，最長 64 字元",
        );
    }
    match create_agent(&request("  oracle-tokyo\n", "x"), CreateEvent::Received) {
        CreateAction::LookUpToken { id } => {
            assert_eq!(id, "oracle-tokyo");
            assert!(valid_id(&id));
        }
        other => panic!("{other:?}"),
    }
}

#[test]
fn an_id_is_registered_once() {
    let p = request("nas", "NAS");
    create_answer(
        create_agent(&p, CreateEvent::TokenLookedUp(Ok(Some("t".to_string())))),
        409,
        "這個 id 已經存在了",
    );
    create_answer(
        create_agent(&p, CreateEvent::TokenLookedUp(Err(DbFailure))),
        500,
        "db error",
    );
}

#[test]
fn a_blank_name_gives_way_to_the_id() {
    for (name, expected) in [("NAS 一", "NAS 一"), (" NAS ", " NAS "), ("", "nas"), (" \t", "nas")] {
        let p = request(" nas ", name);
        match create_agent(&p, CreateEvent::TokenLookedUp(Ok(None))) {
            CreateAction::Create { id, name } => {
                assert_eq!((id.as_str(), name.as_str()), ("nas", expected));
            }
            other => panic!("{other:?}"),
        }
        match create_agent(&p, CreateEvent::Created(Ok("tok".to_string()))) {
            CreateAction::Issue(credential) => {
                assert_eq!(credential.id, "nas");
                assert_eq!(credential.name, expected);
                assert_eq!(credential.token, "tok");
            }
            other => panic!("{other:?}"),
        }
    }
    create_answer(
        create_agent(&request("nas", ""), CreateEvent::Created(Err(DbFailure))),
        500,
        "db error",
    );
}

#[test]
fn administrators_see_tokens() {
    let now = Moment { secs: 1_000, nanos: 0 };
    let mut first: ServerStatus<f32, f64> = register_agent("a", "A", "tok", &now);
    first.traffic_limit = Figure::Measured(500.0);
    first.traffic_reset_day = 12;
    let mut second: ServerStatus<f32, f64> =
        register_agent("b", "B", "tok", &Moment { secs: 0, nanos: 0 });
    second.token = None;
    let items = list_agents(&vec![first, second], &now);
    assert_eq!(items.len(), 2);
    assert_eq!(items[0].id, "a");
    assert_eq!(items[0].name, "A");
    assert_eq!(items[0].token, "tok");
    assert_eq!(items[0].last_seen, now);
    assert!(items[0].online);
    assert!(matches!(items[0].traffic_limit, Figure::Measured(x) if x == 500.0));
    assert!(matches!(items[0].traffic_notify_percent, Figure::Count(80)));
    assert_eq!(items[0].traffic_reset_day, 12);
    assert_eq!(items[1].token, "");
    assert!(!items[1].online);
}

#[test]
fn a_new_token_is_issued_with_its_id() {
    let body = || AgentIdBody {
        id: "nas".to_string(),
    };
    let issued = rotate_agent_token(body(), Ok("tok".to_string())).unwrap();
    assert_eq!((issued.id.as_str(), issued.token.as_str()), ("nas", "tok"));
    let refused = rotate_agent_token(body(), Err(DbFailure)).unwrap_err();
    shows(&refused, 500, "db error");
}

#[test]
fn removals_are_answered() {
    shows(&delete_agent(Ok(())), 200, "deleted");
    shows(&delete_agent(Err(DbFailure)), 500, "db error");
}
