//! Reading the agent's discovery record: a small JSON lock file holding the
//! port the agent listens on and the auth token it expects. Absence,
//! corruption and an explicit `port == 0` all mean "agent not available" and
//! collapse to `None`; nothing here is a hard error.

use vstd::prelude::*;

verus! {

/// A valid discovery record: the agent's loopback port (never 0) and its
/// auth token (empty means "no auth required").
pub struct LockRecord {
    pub port: u16,
    pub token: String,
}

impl View for LockRecord {
    type V = (u16, Seq<char>);

    open spec fn view(&self) -> (u16, Seq<char>) {
        (self.port, self.token@)
    }
}

/// The view of an optional owned string, for contracts over optional file
/// contents and response bodies.
pub open spec fn spec_opt_str_view(c: Option<String>) -> Option<Seq<char>> {
    match c {
        Option::None => Option::None,
        Option::Some(s) => Option::Some(s@),
    }
}

/// The view of an optional lock record.
pub open spec fn spec_opt_record_view(r: Option<LockRecord>) -> Option<(u16, Seq<char>)> {
    match r {
        Option::None => Option::None,
        Option::Some(rec) => Option::Some(rec@),
    }
}

/// What JSON parsing finds in the given lock-file text: `None` when the text
/// is not a JSON document; otherwise the `port` field where it is present as
/// an unsigned integer, and the `token` field where it is present as a
/// string.
pub uninterp spec fn lock_fields_of(s: Seq<char>) -> Option<(Option<u64>, Option<Seq<char>>)>;

/// Relies on `serde_json::from_str::<Value>`, `Value::get`, `Value::as_u64`
/// and `Value::as_str`: which `port` and `token` a text parses to is a
/// function of the text alone.
#[verifier::external_body]
fn parse_lock_fields(txt: &str) -> (r: Option<(Option<u64>, Option<String>)>)
    ensures
        r is Some <==> lock_fields_of(txt@) is Some,
        r matches Some(f) ==> f.0 == lock_fields_of(txt@)->Some_0.0,
        r matches Some(f) ==> (f.1 is Some <==> lock_fields_of(txt@)->Some_0.1 is Some),
        r matches Some(f) && f.1 matches Some(t) ==> t@ == lock_fields_of(txt@)->Some_0.1->Some_0,
{
    match serde_json::from_str::<serde_json::Value>(txt) {
        Ok(v) => Some((
            v.get("port").and_then(|x| x.as_u64()),
            v.get("token").and_then(|x| x.as_str()).map(|t| t.to_owned()),
        )),
        Err(_) => None,
    }
}

/// The port a parsed field pair yields: a missing or non-integer `port`
/// counts as 0, and the value is reduced to the 16 bits a port has (as the
/// narrowing to `u16` does).
pub open spec fn spec_effective_port(f: Option<(Option<u64>, Option<Seq<char>>)>) -> u64 {
    match f {
        Option::None => 0u64,
        Option::Some(g) => (match g.0 {
            Option::None => 0u64,
            Option::Some(p) => p,
        }) % 0x10000,
    }
}

/// The token a parsed field pair yields: a missing or non-string `token`
/// defaults to the empty string.
pub open spec fn spec_effective_token(f: Option<(Option<u64>, Option<Seq<char>>)>) -> Seq<char> {
    match f {
        Option::None => Seq::<char>::empty(),
        Option::Some(g) => match g.1 {
            Option::None => Seq::<char>::empty(),
            Option::Some(t) => t,
        },
    }
}

/// How parsed fields become a record: the record exists iff the effective
/// port is non-zero.
pub open spec fn spec_lock_from_fields(
    f: Option<(Option<u64>, Option<Seq<char>>)>,
) -> Option<(u16, Seq<char>)> {
    if spec_effective_port(f) == 0 {
        Option::None
    } else {
        Option::Some((spec_effective_port(f) as u16, spec_effective_token(f)))
    }
}

/// The view of parsed fields as the wrapper hands them out.
pub open spec fn spec_fields_view(
    f: Option<(Option<u64>, Option<String>)>,
) -> Option<(Option<u64>, Option<Seq<char>>)> {
    match f {
        Option::None => Option::None,
        Option::Some(g) => Option::Some(
            (
                g.0,
                match g.1 {
                    Option::None => Option::None,
                    Option::Some(t) => Option::Some(t@),
                },
            ),
        ),
    }
}

/// Builds the discovery record from parsed `port` and `token` fields:
/// `Some` exactly when the port, narrowed to 16 bits, is non-zero; the token
/// defaults to the empty string when absent.
pub fn lock_from_fields(fields: Option<(Option<u64>, Option<String>)>) -> (r: Option<LockRecord>)
    ensures
        spec_opt_record_view(r) == spec_lock_from_fields(spec_fields_view(fields)),
{
    match fields {
        None => None,
        Some((p, t)) => {
            let pv: u64 = match p {
                None => 0,
                Some(v) => v,
            };
            let narrowed: u64 = pv % 0x10000;
            let port: u16 = narrowed as u16;
            let token: String = match t {
                None => String::new(),
                Some(s) => s,
            };
            if port == 0 {
                None
            } else {
                Some(LockRecord { port, token })
            }
        },
    }
}

/// The whole lock-file read on given file contents: `None` for an absent or
/// unreadable file, for text that is no JSON document, and for a record
/// whose effective port is 0; otherwise the `(port, token)` pair.
pub open spec fn spec_read_lock(c: Option<Seq<char>>) -> Option<(u16, Seq<char>)> {
    match c {
        Option::None => Option::None,
        Option::Some(s) => spec_lock_from_fields(lock_fields_of(s)),
    }
}

/// Reads the discovery record out of the lock file's contents (`None` where
/// the file was absent or unreadable). Never fails: every problem collapses
/// to `None`, the steady state when the agent is not running.
pub fn read_lock(contents: Option<String>) -> (r: Option<LockRecord>)
    ensures
        spec_opt_record_view(r) == spec_read_lock(spec_opt_str_view(contents)),
{
    match contents {
        None => None,
        Some(txt) => {
            let fields = parse_lock_fields(txt.as_str());
            proof {
                assert(spec_fields_view(fields) == lock_fields_of(txt@));
            }
            lock_from_fields(fields)
        },
    }
}

/// Law: a lock file that is absent, that does not parse, or whose `port`
/// field is missing, not an unsigned integer, or 0 once narrowed to 16 bits,
/// yields no record.
pub proof fn lemma_invalid_lock_rejected(c: Option<Seq<char>>)
    requires
        c matches Some(s) ==> spec_effective_port(lock_fields_of(s)) == 0,
    ensures
        spec_read_lock(c) is None,
{
}

/// Law: contents whose effective port is non-zero yield exactly that port
/// and the parsed token, the token defaulting to the empty string when the
/// field is absent.
pub proof fn lemma_valid_lock_accepted(s: Seq<char>)
    requires
        spec_effective_port(lock_fields_of(s)) != 0,
    ensures
        spec_read_lock(Some(s)) == Some(
            (
                spec_effective_port(lock_fields_of(s)) as u16,
                spec_effective_token(lock_fields_of(s)),
            ),
        ),
        lock_fields_of(s) matches Some(g) && g.1 is None ==> spec_read_lock(
            Some(s),
        )->Some_0.1 == Seq::<char>::empty(),
{
}

} // verus!
