use vstd::prelude::*;
use vstd::string::*;
use crate::error::ClientError;
use crate::gen::{TaskInfo, TaskKind};
use crate::text::{decimal_digits, natural_text};

verus! {

/// The HTTP methods that the order API is called with.
#[derive(Debug, Clone, Copy, PartialEq, Eq, Structural)]
pub enum HttpMethod {
    Get,
    Post,
    Delete,
}

/// A request as plain values.
pub struct RequestPlanView {
    pub method: HttpMethod,
    pub url: Seq<char>,
    pub content_type: Option<Seq<char>>,
    pub body: Option<Seq<char>>,
}

/// The request that a task stands for. A request has a content type
/// exactly if it has a body.
#[derive(Debug)]
pub struct RequestPlan {
    pub method: HttpMethod,
    pub url: String,
    /// The value of the `Content-Type` header, where one is sent.
    pub content_type: Option<String>,
    pub body: Option<String>,
}

impl View for RequestPlan {
    type V = RequestPlanView;

    open spec fn view(&self) -> RequestPlanView {
        RequestPlanView {
            method: self.method,
            url: self.url@,
            content_type: match self.content_type {
                Some(t) => Some(t@),
                None => None,
            },
            body: match self.body {
                Some(b) => Some(b@),
                None => None,
            },
        }
    }
}

/// What the transport reports of one request.
#[derive(Debug)]
pub enum Exchange {
    /// The request could not be sent, or no response arrived.
    SendFailed,
    /// A response arrived, but its body could not be read as text.
    BodyUnreadable,
    /// A response arrived, with any status, and this is its body.
    Text(String),
}

/// How a task ends: its outcome, and the seconds that the worker pauses
/// before it records the outcome.
#[derive(Debug)]
pub struct Completion {
    pub outcome: Result<String, ClientError>,
    pub pause_secs: u64,
}

/// The counts of a run.
#[derive(Debug, Clone, Copy, PartialEq, Eq, Structural)]
pub struct Tally {
    pub success: usize,
    pub failed: usize,
}

/// The method that a kind of task is sent with.
pub open spec fn method_of(kind: TaskKind) -> HttpMethod {
    match kind {
        TaskKind::Add => HttpMethod::Post,
        TaskKind::GetOne => HttpMethod::Get,
        TaskKind::GetAll => HttpMethod::Get,
        TaskKind::Remove => HttpMethod::Delete,
    }
}

/// Returns the method that a kind of task is sent with.
pub fn http_method(kind: TaskKind) -> (method: HttpMethod)
    ensures
        method == method_of(kind),
{
    match kind {
        TaskKind::Add => HttpMethod::Post,
        TaskKind::GetOne => HttpMethod::Get,
        TaskKind::GetAll => HttpMethod::Get,
        TaskKind::Remove => HttpMethod::Delete,
    }
}

/// A plan, or the error in its place, as plain values.
pub open spec fn plan_view(plan: Result<RequestPlan, ClientError>) -> Result<
    RequestPlanView,
    ClientError,
> {
    match plan {
        Ok(p) => Ok(p@),
        Err(e) => Err(e),
    }
}

/// The content type of a body of JSON text.
pub open spec fn json_content_type() -> Seq<char> {
    "application/json"@
}

/// The request that adds the orders of `task`, where `encoded` is what the
/// JSON encoder made of its body: a POST to the URL of the task with the
/// JSON text as its body. Where the task has no JSON text, nothing is sent
/// and the task fails with the serialization error.
pub open spec fn planned_add(task: &TaskInfo, encoded: Option<String>) -> Result<
    RequestPlanView,
    ClientError,
> {
    match task.spec_json_string(encoded) {
        Ok(json) => Ok(
            RequestPlanView {
                method: HttpMethod::Post,
                url: task.endpoint_url@,
                content_type: Some(json_content_type()),
                body: Some(json@),
            },
        ),
        Err(error) => Err(error),
    }
}

/// The request with `method` to the URL of `task`, without a body.
pub open spec fn planned_plain(task: &TaskInfo, method: HttpMethod) -> RequestPlanView {
    RequestPlanView { method, url: task.endpoint_url@, content_type: None, body: None }
}

/// The request that `task` stands for by its kind, where `encoded` is what
/// the JSON encoder made of its body: an add task is posted with its JSON
/// text, a get task is fetched and a remove task deleted without a body.
pub open spec fn planned(task: &TaskInfo, encoded: Option<String>) -> Result<
    RequestPlanView,
    ClientError,
> {
    match task.kind {
        TaskKind::Add => planned_add(task, encoded),
        TaskKind::GetOne => Ok(planned_plain(task, HttpMethod::Get)),
        TaskKind::GetAll => Ok(planned_plain(task, HttpMethod::Get)),
        TaskKind::Remove => Ok(planned_plain(task, HttpMethod::Delete)),
    }
}

/// An add task without JSON text ends with a serialization error, and no
/// request is planned for it.
pub proof fn unencodable_add_is_a_serialization_error(task: &TaskInfo, encoded: Option<String>)
    requires
        task.kind == TaskKind::Add,
        task.table_orders_request.is_none() || encoded.is_none(),
    ensures
        planned(task, encoded) == Err::<RequestPlanView, ClientError>(
            ClientError::SerializationError,
        ),
{
}

/// Plans a request with `method` to the URL of `task`, without a body.
fn plan_plain(task: &TaskInfo, method: HttpMethod) -> (plan: RequestPlan)
    ensures
        plan@ == planned_plain(task, method),
{
    RequestPlan { method, url: task.endpoint_url.clone(), content_type: None, body: None }
}

/// Plans the request that adds the orders of `task`, whatever its kind.
/// `encoded` is the JSON text of the body of the task, `None` where the
/// encoder failed.
pub fn plan_add_orders(task: &TaskInfo, encoded: Option<String>) -> (plan: Result<
    RequestPlan,
    ClientError,
>)
    ensures
        plan_view(plan) == planned_add(task, encoded),
{
    match task.get_table_order_request_json_string(encoded) {
        Ok(json) => Ok(
            RequestPlan {
                method: HttpMethod::Post,
                url: task.endpoint_url.clone(),
                content_type: Some(String::from_str("application/json")),
                body: Some(json),
            },
        ),
        Err(error) => Err(error),
    }
}

/// Plans the request that gets all orders of the table of `task`,
/// whatever its kind.
pub fn plan_get_all_orders(task: &TaskInfo) -> (plan: RequestPlan)
    ensures
        plan@ == planned_plain(task, HttpMethod::Get),
{
    plan_plain(task, HttpMethod::Get)
}

/// Plans the request that gets the order of `task`, whatever its kind.
pub fn plan_get_one_order(task: &TaskInfo) -> (plan: RequestPlan)
    ensures
        plan@ == planned_plain(task, HttpMethod::Get),
{
    plan_plain(task, HttpMethod::Get)
}

/// Plans the request that removes the order of `task`, whatever its kind.
pub fn plan_remove_order(task: &TaskInfo) -> (plan: RequestPlan)
    ensures
        plan@ == planned_plain(task, HttpMethod::Delete),
{
    plan_plain(task, HttpMethod::Delete)
}

/// Plans the request that `task` stands for by its kind. `encoded` is the
/// JSON text of the body of the task, `None` where the task has no body or
/// the encoder failed; it is read for add tasks only.
pub fn plan_request(task: &TaskInfo, encoded: Option<String>) -> (plan: Result<
    RequestPlan,
    ClientError,
>)
    ensures
        plan_view(plan) == planned(task, encoded),
        plan.is_ok() ==> plan.unwrap()@.method == method_of(task.kind),
{
    match task.kind {
        TaskKind::Add => plan_add_orders(task, encoded),
        TaskKind::GetOne => Ok(plan_get_one_order(task)),
        TaskKind::GetAll => Ok(plan_get_all_orders(task)),
        TaskKind::Remove => Ok(plan_remove_order(task)),
    }
}

/// How `task` ends after `exchange`: with the response text, after the
/// pause that the task carries, where a body was read; else at once with a
/// request error.
pub open spec fn completed(task: &TaskInfo, exchange: Exchange) -> Completion {
    match exchange {
        Exchange::Text(text) => Completion { outcome: Ok(text), pause_secs: task.delay_time },
        _ => Completion { outcome: Err(ClientError::RequestError), pause_secs: 0 },
    }
}

/// Decides how `task` ends after what the transport reported.
pub fn complete_request(task: &TaskInfo, exchange: Exchange) -> (completion: Completion)
    ensures
        completion == completed(task, exchange),
{
    match exchange {
        Exchange::Text(text) => Completion { outcome: Ok(text), pause_secs: task.delay_time },
        _ => Completion { outcome: Err(ClientError::RequestError), pause_secs: 0 },
    }
}

/// The pause of a task is the delay it was built with, whichever response
/// text it ends with.
pub proof fn pause_is_fixed_by_task(task: &TaskInfo, first: String, second: String)
    ensures
        completed(task, Exchange::Text(first)).pause_secs == task.delay_time,
        completed(task, Exchange::Text(second)).pause_secs == completed(
            task,
            Exchange::Text(first),
        ).pause_secs,
{
}

/// The number of successes among `outcomes`.
pub open spec fn successes(outcomes: Seq<Result<String, ClientError>>) -> nat
    decreases outcomes.len(),
{
    if outcomes.len() == 0 {
        0
    } else {
        successes(outcomes.drop_last()) + if outcomes.last().is_ok() {
            1nat
        } else {
            0nat
        }
    }
}

/// The number of failures among `outcomes`.
pub open spec fn failures(outcomes: Seq<Result<String, ClientError>>) -> nat
    decreases outcomes.len(),
{
    if outcomes.len() == 0 {
        0
    } else {
        failures(outcomes.drop_last()) + if outcomes.last().is_err() {
            1nat
        } else {
            0nat
        }
    }
}

/// Every outcome is counted once: as a success or as a failure.
pub proof fn tally_covers_every_outcome(outcomes: Seq<Result<String, ClientError>>)
    ensures
        successes(outcomes) + failures(outcomes) == outcomes.len(),
    decreases outcomes.len(),
{
    if outcomes.len() > 0 {
        tally_covers_every_outcome(outcomes.drop_last());
    }
}

/// Counts the successes and the failures among `outcomes`.
pub fn count_outcomes(outcomes: &Vec<Result<String, ClientError>>) -> (tally: Tally)
    ensures
        tally.success == successes(outcomes@),
        tally.failed == failures(outcomes@),
        tally.success + tally.failed == outcomes@.len(),
{
    let mut success: usize = 0;
    let mut i: usize = 0;
    while i < outcomes.len()
        invariant
            i <= outcomes@.len(),
            success == successes(outcomes@.take(i as int)),
            success <= i,
        decreases outcomes@.len() - i,
    {
        proof {
            assert(outcomes@.take(i + 1).drop_last() =~= outcomes@.take(i as int));
        }
        if outcomes[i].is_ok() {
            success = success + 1;
        }
        i = i + 1;
    }
    proof {
        assert(outcomes@.take(i as int) =~= outcomes@);
        tally_covers_every_outcome(outcomes@);
    }
    Tally { success, failed: outcomes.len() - success }
}

/// The line that reports the counts of a load run.
pub open spec fn report_text(success: nat, failed: nat) -> Seq<char> {
    "Loading test result -> SUCCESS:"@ + decimal_digits(success) + " / FAILED:"@ + decimal_digits(
        failed,
    )
}

/// Writes the line that reports the counts of a load run.
pub fn load_report(tally: &Tally) -> (line: String)
    ensures
        line@ == report_text(tally.success as nat, tally.failed as nat),
{
    let mut line = String::from_str("Loading test result -> SUCCESS:");
    let success = natural_text(tally.success as u64);
    line.append(success.as_str());
    line.append(" / FAILED:");
    let failed = natural_text(tally.failed as u64);
    line.append(failed.as_str());
    line
}

/// Writes the line shown for a single request that failed.
pub fn error_report(error: ClientError) -> (line: String)
    ensures
        line@ == "Error "@ + error.spec_message(),
{
    let mut line = String::from_str("Error ");
    let message = error.message();
    line.append(message.as_str());
    line
}

} // verus!
