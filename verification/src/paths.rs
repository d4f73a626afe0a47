//! The fixed locations under the application-data root: the agent's lock
//! file, its data folder, and its logs folder. The root itself (the
//! platform's application-data directory) is resolved by the shell and
//! handed in as text.

use vstd::prelude::*;
use vstd::string::*;

verus! {

/// The lock file's path under the application-data root.
pub open spec fn spec_lock_file_path(root: Seq<char>) -> Seq<char> {
    root + "\\PLCLogger\\agent\\agent.lock.json"@
}

/// Where the agent's discovery record lives under the given root.
pub fn lock_file_path(root: &str) -> (r: String)
    ensures
        r@ == spec_lock_file_path(root@),
{
    let mut out: String = root.to_owned();
    out.append("\\PLCLogger\\agent\\agent.lock.json");
    out
}

/// The agent's data folder under the application-data root.
pub open spec fn spec_data_path(root: Seq<char>) -> Seq<char> {
    root + "\\PLCLogger\\agent"@
}

/// Where the agent keeps its data under the given root.
pub fn data_path(root: &str) -> (r: String)
    ensures
        r@ == spec_data_path(root@),
{
    let mut out: String = root.to_owned();
    out.append("\\PLCLogger\\agent");
    out
}

/// The agent's logs folder under the application-data root.
pub open spec fn spec_logs_path(root: Seq<char>) -> Seq<char> {
    root + "\\PLCLogger\\agent\\logs"@
}

/// Where the agent writes its logs under the given root.
pub fn logs_path(root: &str) -> (r: String)
    ensures
        r@ == spec_logs_path(root@),
{
    let mut out: String = root.to_owned();
    out.append("\\PLCLogger\\agent\\logs");
    out
}

} // verus!
