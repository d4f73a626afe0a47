//! The agent status query: building the loopback request from a discovery
//! record, accepting the agent's JSON summary, and rendering the three-line
//! report. Every failure — no lock file, network trouble, a malformed or
//! incomplete response — collapses to the one fixed "Status unavailable"
//! message; nothing leaks error detail to the user.

use vstd::prelude::*;
use vstd::string::*;
use crate::lockfile::{spec_opt_str_view, spec_read_lock, read_lock, LockRecord};
use crate::text::{spec_dec, u64_to_string};

verus! {

/// One live summary from the agent: how many devices are connected, whether
/// the default storage database is healthy, and how many jobs are running.
pub struct StatusSummary {
    pub devices_connected: u64,
    pub default_db_ok: bool,
    pub jobs_running: u64,
}

impl View for StatusSummary {
    type V = (u64, bool, u64);

    open spec fn view(&self) -> (u64, bool, u64) {
        (self.devices_connected, self.default_db_ok, self.jobs_running)
    }
}

/// The view of an optional summary.
pub open spec fn spec_opt_summary_view(r: Option<StatusSummary>) -> Option<(u64, bool, u64)> {
    match r {
        Option::None => Option::None,
        Option::Some(s) => Option::Some(s@),
    }
}

/// What JSON parsing finds in the given response body: `None` when the text
/// is not a JSON document; otherwise the `devicesConnected`, `defaultDbOk`
/// and `jobsRunning` fields, each where it is present with its expected
/// primitive type.
pub uninterp spec fn summary_fields_of(s: Seq<char>) -> Option<
    (Option<u64>, Option<bool>, Option<u64>),
>;

/// Relies on `serde_json::from_str::<Value>`, `Value::get`, `Value::as_u64`
/// and `Value::as_bool`: which summary fields a text parses to is a
/// function of the text alone.
#[verifier::external_body]
fn parse_summary_fields(txt: &str) -> (r: Option<(Option<u64>, Option<bool>, Option<u64>)>)
    ensures
        r == summary_fields_of(txt@),
{
    match serde_json::from_str::<serde_json::Value>(txt) {
        Ok(v) => Some((
            v.get("devicesConnected").and_then(|x| x.as_u64()),
            v.get("defaultDbOk").and_then(|x| x.as_bool()),
            v.get("jobsRunning").and_then(|x| x.as_u64()),
        )),
        Err(_) => None,
    }
}

/// A response counts as a summary only when all three fields are present
/// with their expected types; anything less is malformed.
pub open spec fn spec_summary_from_fields(
    f: Option<(Option<u64>, Option<bool>, Option<u64>)>,
) -> Option<(u64, bool, u64)> {
    match f {
        Option::Some((Option::Some(d), Option::Some(ok), Option::Some(j))) => Option::Some(
            (d, ok, j),
        ),
        _ => Option::None,
    }
}

/// Accepts parsed response fields as a summary exactly when all three are
/// present.
pub fn summary_from_fields(fields: Option<(Option<u64>, Option<bool>, Option<u64>)>) -> (r: Option<
    StatusSummary,
>)
    ensures
        spec_opt_summary_view(r) == spec_summary_from_fields(fields),
{
    match fields {
        Some((Some(d), Some(ok), Some(j))) => Some(
            StatusSummary { devices_connected: d, default_db_ok: ok, jobs_running: j },
        ),
        _ => None,
    }
}

/// The three-line report for a summary: device count, default storage
/// health as `OK` / `Not OK`, running-job count.
pub open spec fn spec_render_status(d: u64, ok: bool, j: u64) -> Seq<char> {
    "Devices: "@ + spec_dec(d as nat) + "\nDefault DB: "@ + (if ok {
        "OK"@
    } else {
        "Not OK"@
    }) + "\nJobs running: "@ + spec_dec(j as nat)
}

/// Renders a summary as the three-line report.
pub fn render_status(s: &StatusSummary) -> (r: String)
    ensures
        r@ == spec_render_status(s.devices_connected, s.default_db_ok, s.jobs_running),
{
    let mut out: String = "Devices: ".to_owned();
    out.append(u64_to_string(s.devices_connected).as_str());
    out.append("\nDefault DB: ");
    if s.default_db_ok {
        out.append("OK");
    } else {
        out.append("Not OK");
    }
    out.append("\nJobs running: ");
    out.append(u64_to_string(s.jobs_running).as_str());
    proof {
        assert(out@ =~= spec_render_status(s.devices_connected, s.default_db_ok, s.jobs_running));
    }
    out
}

/// The one fixed failure message.
pub open spec fn spec_unavailable() -> Seq<char> {
    "Status unavailable"@
}

/// The fixed message shown whenever the agent cannot be reached or answers
/// with anything but a well-formed summary.
pub fn unavailable_message() -> (r: String)
    ensures
        r@ == spec_unavailable(),
{
    "Status unavailable".to_owned()
}

/// What the report says for a given response body (`None` where the network
/// call failed or answered non-2xx): the rendered summary, or the fixed
/// unavailable message for every malformed or incomplete body.
pub open spec fn spec_status_message(resp: Option<Seq<char>>) -> Seq<char> {
    match resp {
        Option::None => spec_unavailable(),
        Option::Some(s) => match spec_summary_from_fields(summary_fields_of(s)) {
            Option::None => spec_unavailable(),
            Option::Some((d, ok, j)) => spec_render_status(d, ok, j),
        },
    }
}

/// Turns the agent's response body, if any, into the report text.
pub fn status_message(response: Option<String>) -> (r: String)
    ensures
        r@ == spec_status_message(spec_opt_str_view(response)),
{
    match response {
        None => unavailable_message(),
        Some(body) => match summary_from_fields(parse_summary_fields(body.as_str())) {
            None => unavailable_message(),
            Some(s) => render_status(&s),
        },
    }
}

/// The loopback URL of the agent's summary endpoint for a given port.
pub open spec fn spec_status_url(port: u16) -> Seq<char> {
    "http://127.0.0.1:"@ + spec_dec(port as nat) + "/system/summary"@
}

/// Builds the summary endpoint's URL.
pub fn status_url(port: u16) -> (r: String)
    ensures
        r@ == spec_status_url(port),
{
    let mut out: String = "http://127.0.0.1:".to_owned();
    out.append(u64_to_string(port as u64).as_str());
    out.append("/system/summary");
    proof {
        assert(out@ =~= spec_status_url(port));
    }
    out
}

/// The header that carries the auth token when one is required.
pub fn auth_header_name() -> (r: &'static str)
    ensures
        r@ == "X-Agent-Token"@,
{
    "X-Agent-Token"
}

/// A prepared status request: where to ask, and the token to attach —
/// attached only when it is non-empty.
pub struct StatusRequest {
    pub url: String,
    pub header_token: Option<String>,
}

/// Prepares the status request for a discovered record: the summary URL for
/// its port, and the auth token exactly when the record carries a non-empty
/// one.
pub fn status_request(rec: &LockRecord) -> (r: StatusRequest)
    ensures
        r.url@ == spec_status_url(rec.port),
        rec.token@.len() == 0 <==> r.header_token is None,
        r.header_token matches Some(t) ==> t@ == rec.token@,
{
    let url = status_url(rec.port);
    if rec.token.as_str().is_empty() {
        StatusRequest { url, header_token: None }
    } else {
        StatusRequest { url, header_token: Some(rec.token.clone()) }
    }
}

/// The whole status query for given lock-file contents and response body:
/// unavailable without a valid discovery record, otherwise whatever the
/// response renders to.
pub open spec fn spec_fetch_status(lock: Option<Seq<char>>, resp: Option<Seq<char>>) -> Seq<
    char,
> {
    if spec_read_lock(lock) is None {
        spec_unavailable()
    } else {
        spec_status_message(resp)
    }
}

/// The status query on given lock-file contents and agent response body
/// (`None` for an absent file, and for a failed network call). Total: every
/// failure renders as the fixed unavailable message.
pub fn fetch_status(lock_contents: Option<String>, response: Option<String>) -> (r: String)
    ensures
        r@ == spec_fetch_status(spec_opt_str_view(lock_contents), spec_opt_str_view(response)),
{
    match read_lock(lock_contents) {
        None => unavailable_message(),
        Some(_) => status_message(response),
    }
}

/// Law: whenever the summary says the default storage is unhealthy, the
/// report's middle line renders it as `Not OK`, whatever the two counts
/// around it are.
pub proof fn lemma_storage_not_ok_rendering(d: u64, j: u64)
    ensures
        spec_render_status(d, false, j) == "Devices: "@ + spec_dec(d as nat)
            + "\nDefault DB: Not OK\nJobs running: "@ + spec_dec(j as nat),
{
    reveal_strlit("\nDefault DB: ");
    reveal_strlit("Not OK");
    reveal_strlit("\nJobs running: ");
    reveal_strlit("\nDefault DB: Not OK\nJobs running: ");
    assert("\nDefault DB: "@ + "Not OK"@ + "\nJobs running: "@
        =~= "\nDefault DB: Not OK\nJobs running: "@);
    assert(spec_render_status(d, false, j) =~= "Devices: "@ + spec_dec(d as nat)
        + "\nDefault DB: Not OK\nJobs running: "@ + spec_dec(j as nat));
}

/// Law: the status query is repeatable — under the same agent state (the
/// same lock-file contents and the same response body) it renders the same
/// report.
pub proof fn lemma_fetch_status_repeatable(
    lock: Option<Seq<char>>,
    resp: Option<Seq<char>>,
    first: Seq<char>,
    second: Seq<char>,
)
    requires
        first == spec_fetch_status(lock, resp),
        second == spec_fetch_status(lock, resp),
    ensures
        first == second,
{
}

/// Law: with no lock file the status query reports exactly the fixed
/// unavailable message, whatever the network would have answered.
pub proof fn lemma_no_lock_means_unavailable(resp: Option<Seq<char>>)
    ensures
        spec_fetch_status(None, resp) == spec_unavailable(),
{
}

} // verus!
