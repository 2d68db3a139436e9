//! The one isolated network that every runner's containers join.

use super::RunnerError;
use crate::config::DockerConfig;
use vstd::prelude::*;
use vstd::string::StringExecFns;

verus! {

/// A network the runtime listed under the deployment's network name.
#[derive(Debug)]
pub struct NetworkRecord {
    pub id: Option<String>,
}

/// How to create the deployment's network.
#[derive(Debug)]
pub struct NetworkRequest {
    pub name: String,
    /// Internally routed, with no outbound egress.
    pub internal: bool,
}

/// What to do about the deployment's network.
#[derive(Debug)]
pub enum NetworkPlan {
    Reuse(String),
    Create(NetworkRequest),
}

/// The name of the deployment's network.
pub open spec fn network_name(name_prefix: Seq<char>) -> Seq<char> {
    name_prefix + "network"@
}

/// The name under which the deployment's network is looked up and created.
pub fn network_name_of(cfg: &DockerConfig) -> (name: String)
    ensures
        name@ == network_name(cfg.name_prefix@),
{
    let mut name = cfg.name_prefix.clone();
    name.append("network");
    name
}

/// Decides how to obtain the network from what the runtime listed under its
/// name: none means creating an internal one, one means reusing it, and more
/// than one breaks the uniqueness of network names.
pub fn plan_network(cfg: &DockerConfig, listing: &Vec<NetworkRecord>) -> (r: Result<
    NetworkPlan,
    RunnerError,
>)
    ensures
        listing@.len() > 1 ==> r == Err::<NetworkPlan, RunnerError>(RunnerError::DuplicateNetworks),
        listing@.len() == 1 ==> match listing@[0].id {
            Some(id) => (r matches Ok(NetworkPlan::Reuse(got)) && got@ == id@),
            None => r == Err::<NetworkPlan, RunnerError>(RunnerError::MissingNetworkId),
        },
        listing@.len() == 0 ==> (r matches Ok(NetworkPlan::Create(req)) && req.name@ == network_name(
            cfg.name_prefix@,
        ) && req.internal),
{
    if listing.len() > 1 {
        return Err(RunnerError::DuplicateNetworks);
    }
    if listing.len() == 1 {
        return match &listing[0].id {
            Some(id) => Ok(NetworkPlan::Reuse(id.clone())),
            None => Err(RunnerError::MissingNetworkId),
        };
    }
    Ok(NetworkPlan::Create(NetworkRequest { name: network_name_of(cfg), internal: true }))
}

} // verus!
