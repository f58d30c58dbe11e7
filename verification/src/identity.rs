//! Who this agent is on the bus: a fixed prefix and the host's name.

use vstd::prelude::*;
use vstd::string::*;
use crate::text::join;

verus! {

/// `hostname::get`, with the name turned into text: the host's name as the
/// system reports it at this moment, or nothing where the system call fails.
/// Nothing is claimed of the name itself.
#[verifier::external_body]
pub(crate) fn system_hostname() -> (name: Option<String>) {
    hostname::get().ok().map(|name| name.to_string_lossy().into_owned())
}

/// The bus identity of the agent on the host `hostname`.
pub open spec fn client_identity_spec(hostname: Seq<char>) -> Seq<char> {
    "protosuit-engine-client-"@ + hostname
}

/// The bus identity of the agent on the host `hostname`: the same host always
/// gets the same identity, so a restarted agent takes up its old session.
pub fn client_identity(hostname: &str) -> (id: String)
    ensures
        id@ == client_identity_spec(hostname@),
{
    join("protosuit-engine-client-", hostname)
}

} // verus!
