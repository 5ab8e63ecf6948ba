//! The registration of machines. A machine must be registered before its agent can report.

use vstd::prelude::*;
use vstd::string::*;

use crate::api;
use crate::api::is_online;
use crate::db;
use crate::db::{valid_id, ServerStatus};
use crate::figure::Figure;
use crate::moment::Moment;
use crate::reply;
use crate::reply::{db_error_reply, outcome_reply, DbResult, Reply, BAD_REQUEST, CONFLICT};
use crate::text;
use crate::text::trim;

verus! {

/// A request to register a machine.
#[derive(Debug)]
pub struct CreateAgent {
    pub id: String,
    pub name: String,
}

/// What a machine's agent needs to report.
#[derive(Debug)]
pub struct AgentCredential {
    pub id: String,
    pub name: String,
    pub token: String,
}

/// What has just happened to a request to register a machine.
#[derive(Debug)]
pub enum CreateEvent {
    Received,
    /// The token registered under the id was looked up.
    TokenLookedUp(DbResult<Option<String>>),
    /// The machine was stored, with this token.
    Created(DbResult<String>),
}

/// What to do next with a request to register a machine.
#[derive(Debug)]
pub enum CreateAction {
    LookUpToken { id: String },
    Create { id: String, name: String },
    Respond(Reply),
    Issue(AgentCredential),
}

impl CreateAction {
    /// Whether the request is answered so.
    pub open spec fn responds(self, answer: (u16, Seq<char>)) -> bool {
        self matches CreateAction::Respond(r) && r@ == answer
    }
}

/// The id asked for.
pub open spec fn asked_id(payload: CreateAgent) -> Seq<char> {
    text::trimmed(payload.id@)
}

/// The name asked for: the id where the name is blank.
pub open spec fn asked_name(payload: CreateAgent) -> Seq<char> {
    if text::trimmed(payload.name@).len() == 0 {
        asked_id(payload)
    } else {
        payload.name@
    }
}

/// What is done with a request to register a machine: an id is registered once.
pub open spec fn create_step(
    payload: CreateAgent,
    event: CreateEvent,
    action: CreateAction,
) -> bool {
    match event {
        CreateEvent::Received => if db::id_shape(asked_id(payload)) {
            action matches CreateAction::LookUpToken { id } && id@ == asked_id(payload)
        } else {
            action.responds(
                (BAD_REQUEST, "id 只能是英數字、'.'、'_'、'-'，最長 64 字元"@),
            )
        },
        CreateEvent::TokenLookedUp(Ok(Some(_))) => action.responds(
            (CONFLICT, "這個 id 已經存在了"@),
        ),
        CreateEvent::TokenLookedUp(Ok(None)) => action matches CreateAction::Create { id, name }
            && id@ == asked_id(payload) && name@ == asked_name(payload),
        CreateEvent::TokenLookedUp(Err(_)) => action.responds(reply::db_error()),
        CreateEvent::Created(Ok(token)) => action matches CreateAction::Issue(credential)
            && credential.id@ == asked_id(payload) && credential.name@ == asked_name(payload)
            && credential.token@ == token@,
        CreateEvent::Created(Err(_)) => action.responds(reply::db_error()),
    }
}

fn name_for(payload: &CreateAgent) -> (r: String)
    ensures
        r@ == asked_name(*payload),
{
    if trim(payload.name.as_str()).is_empty() {
        trim(payload.id.as_str()).to_owned()
    } else {
        payload.name.clone()
    }
}

/// Decides what to do next with a request to register a machine.
pub fn create_agent(payload: &CreateAgent, event: CreateEvent) -> (r: CreateAction)
    ensures
        create_step(*payload, event, r),
{
    let id = trim(payload.id.as_str());
    match event {
        CreateEvent::Received => if valid_id(id) {
            CreateAction::LookUpToken { id: id.to_owned() }
        } else {
            CreateAction::Respond(
                reply::reply(
                    BAD_REQUEST,
                    "id 只能是英數字、'.'、'_'、'-'，最長 64 字元",
                ),
            )
        },
        CreateEvent::TokenLookedUp(Ok(Some(_))) => CreateAction::Respond(
            reply::reply(CONFLICT, "這個 id 已經存在了"),
        ),
        CreateEvent::TokenLookedUp(Ok(None)) => CreateAction::Create {
            id: id.to_owned(),
            name: name_for(payload),
        },
        CreateEvent::TokenLookedUp(Err(_)) => CreateAction::Respond(db_error_reply()),
        CreateEvent::Created(Ok(token)) => CreateAction::Issue(
            AgentCredential { id: id.to_owned(), name: name_for(payload), token },
        ),
        CreateEvent::Created(Err(_)) => CreateAction::Respond(db_error_reply()),
    }
}

/// A machine as administrators see it.
#[derive(Debug)]
pub struct AgentListItem<D> {
    pub id: String,
    pub name: String,
    /// The token, or nothing where the machine has none.
    pub token: String,
    pub last_seen: Moment,
    pub online: bool,
    pub traffic_limit: Figure<D>,
    pub traffic_notify_percent: Figure<D>,
    pub traffic_reset_day: i64,
}

/// Whether `item` is what administrators see of a machine.
pub open spec fn lists<S, D>(
    item: AgentListItem<D>,
    row: db::ServerRow<S, D>,
    now: Moment,
) -> bool {
    &&& item.id@ == row.id
    &&& item.name@ == row.name
    &&& item.token@ == match row.token {
        Some(token) => token,
        None => seq![],
    }
    &&& item.last_seen == row.last_seen
    &&& item.online == api::online(now, row.last_seen)
    &&& item.traffic_limit == row.traffic_limit
    &&& item.traffic_notify_percent == row.traffic_notify_percent
    &&& item.traffic_reset_day == row.traffic_reset_day
}

fn list_item<S, D: Copy>(s: &ServerStatus<S, D>, now: &Moment) -> (r: AgentListItem<D>)
    requires
        now.wf(),
        s.last_seen.wf(),
    ensures
        lists(r, s@, *now),
{
    let token = match &s.token {
        Some(token) => token.clone(),
        None => String::new(),
    };
    AgentListItem {
        id: s.id.clone(),
        name: s.name.clone(),
        token,
        last_seen: s.last_seen,
        online: is_online(now, &s.last_seen),
        traffic_limit: s.traffic_limit.copy(),
        traffic_notify_percent: s.traffic_notify_percent.copy(),
        traffic_reset_day: s.traffic_reset_day,
    }
}

/// The machines as administrators see them, in the order given.
pub fn list_agents<S, D: Copy>(servers: &Vec<ServerStatus<S, D>>, now: &Moment) -> (r: Vec<
    AgentListItem<D>,
>)
    requires
        now.wf(),
        forall|i: int| 0 <= i < servers@.len() ==> (#[trigger] servers@[i]).last_seen.wf(),
    ensures
        r@.len() == servers@.len(),
        forall|i: int| 0 <= i < r@.len() ==> lists(#[trigger] r@[i], servers@[i]@, *now),
{
    let mut out: Vec<AgentListItem<D>> = Vec::new();
    let n: usize = servers.len();
    let mut i: usize = 0;
    while i < n
        invariant
            now.wf(),
            n == servers@.len(),
            i <= n,
            out@.len() == i,
            forall|j: int| 0 <= j < n ==> (#[trigger] servers@[j]).last_seen.wf(),
            forall|j: int| 0 <= j < i ==> lists(#[trigger] out@[j], servers@[j]@, *now),
        decreases n - i,
    {
        out.push(list_item(&servers[i], now));
        i = i + 1;
    }
    out
}

/// A request about one machine.
#[derive(Debug)]
pub struct AgentIdBody {
    pub id: String,
}

/// A machine's new token.
#[derive(Debug)]
pub struct RotatedToken {
    pub id: String,
    pub token: String,
}

/// Answers a request for a new token, given the token that was stored.
pub fn rotate_agent_token(payload: AgentIdBody, rotated: DbResult<String>) -> (r: Result<
    RotatedToken,
    Reply,
>)
    ensures
        match rotated {
            Ok(token) => r matches Ok(issued) && issued.id == payload.id && issued.token == token,
            Err(_) => r matches Err(answer) && answer@ == reply::db_error(),
        },
{
    match rotated {
        Ok(token) => Ok(RotatedToken { id: payload.id, token }),
        Err(_) => Err(db_error_reply()),
    }
}

/// Answers a request to remove a machine.
pub fn delete_agent(done: DbResult<()>) -> (r: Reply)
    ensures
        r@ == reply::outcome(done, "deleted"@),
{
    outcome_reply(done, "deleted")
}

} // verus!
