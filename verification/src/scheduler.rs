//! The invocation scheduler: an inbound call is answered from the cache
//! when an instance is live, and otherwise a fresh container is started on
//! a random local port, announced under the function key, and reached by
//! its container name inside the compose network.

use vstd::prelude::*;

use crate::errors::Error;
use crate::text::{dec_str_of, push_char, u16_to_string};

verus! {

/// How long a started instance lives, and so how long its address is
/// cached, in seconds.
pub const TIMEOUT_DEFAULT_IN_SECONDS: u64 = 50;

/// Everything the container runtime needs to start one instance.
pub struct ContainerDetails {
    /// The port the function listens on inside the container.
    pub container_port: u16,
    /// The host port the container is published on.
    pub bind_port: u16,
    /// The name the container is created under; doubles as its DNS name
    /// inside the compose network.
    pub container_name: String,
    /// Seconds until the instance is reaped.
    pub timeout: u64,
    /// The network the container joins.
    pub docker_compose_network_host: String,
}

/// The published port derived from a random draw: always in [8000, 9000).
pub open spec fn spec_random_port(seed: u16) -> u16 {
    (8000 + (seed % 1000)) as u16
}

/// Pick the host port for a fresh instance from a random draw. Collisions
/// with a port already in use surface later, as a failed start.
pub fn random_port(seed: u16) -> (p: u16)
    ensures
        p == spec_random_port(seed),
        8000 <= p < 9000,
{
    8000 + (seed % 1000)
}

/// Assemble the start parameters for one instance: the function listens on
/// 8080, is published on the drawn port, and lives for the default timeout.
pub fn container_details(seed: u16, container_name: String, network: String) -> (d:
    ContainerDetails)
    ensures
        d.container_port == 8080,
        d.bind_port == spec_random_port(seed),
        d.container_name == container_name,
        d.timeout == TIMEOUT_DEFAULT_IN_SECONDS,
        d.docker_compose_network_host == network,
{
    ContainerDetails {
        container_port: 8080,
        bind_port: random_port(seed),
        container_name,
        timeout: TIMEOUT_DEFAULT_IN_SECONDS,
        docker_compose_network_host: network,
    }
}

/// Whether an invocation may proceed: a function that the catalog does not
/// hold for this namespace is answered with the not-registered error, and
/// only that case is an error.
pub fn check_function_status(registered: bool, name: &str) -> (r: Result<(), Error>)
    ensures
        registered <==> r is Ok,
        !registered ==> (r matches Err(Error::FunctionNotRegistered(n)) && n@ == name@),
{
    if registered {
        Ok(())
    } else {
        Err(Error::FunctionNotRegistered(name.to_owned()))
    }
}

/// The address a fresh instance is reached under: the container's DNS
/// name and the in-container port.
pub open spec fn spec_instance_address(container_name: Seq<char>, port: int) -> Seq<char> {
    container_name + seq![':'] + dec_str_of(port)
}

/// Render the address of a fresh instance, `<container-name>:<port>`.
pub fn instance_address(container_name: &str, container_port: u16) -> (r: String)
    ensures
        r@ == spec_instance_address(container_name@, container_port as int),
{
    let mut out: String = container_name.to_owned();
    push_char(&mut out, ':');
    let port = u16_to_string(container_port);
    out.append(port.as_str());
    proof {
        assert(out@ =~= spec_instance_address(container_name@, container_port as int));
    }
    out
}

/// The first step of ensure-running: reuse a cached address, or start a
/// container with the given details.
pub enum InvokeStep {
    /// An instance is live; call it at this address.
    UseCached(String),
    /// No instance is cached; start one.
    Start(ContainerDetails),
}

/// Decide whether the call needs a fresh container: a cached address wins,
/// and only a cache miss starts anything.
pub fn plan_start(cached: Option<String>, details: ContainerDetails) -> (r: InvokeStep)
    ensures
        match cached {
            Some(addr) => r matches InvokeStep::UseCached(a) && a@ == addr@,
            None => r matches InvokeStep::Start(d) && d == details,
        },
{
    match cached {
        Some(addr) => InvokeStep::UseCached(addr),
        None => InvokeStep::Start(details),
    }
}

/// Settle a cold start: a container that came up is served under its
/// instance address; one that did not fails the call with the
/// failed-to-start error naming the function.
pub fn after_run(run_ok: bool, name: &str, details: &ContainerDetails) -> (r: Result<
    String,
    Error,
>)
    ensures
        run_ok ==> (r matches Ok(addr) && addr@ == spec_instance_address(
            details.container_name@,
            details.container_port as int,
        )),
        !run_ok ==> (r matches Err(Error::FunctionFailedToStart(n)) && n@ == name@),
{
    if run_ok {
        Ok(instance_address(details.container_name.as_str(), details.container_port))
    } else {
        Err(Error::FunctionFailedToStart(name.to_owned()))
    }
}

} // verus!
