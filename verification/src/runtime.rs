//! The container runtime wrapper's decisions: the resource limits every
//! instance container is created with, the shape of a port binding, and
//! how the daemon's build stream is folded into a verdict. Driving the
//! daemon itself is the caller's work.

use vstd::prelude::*;

use crate::errors::RuntimeError;
use crate::scheduler::ContainerDetails;
use crate::text::str_eq_at;

verus! {

/// The memory cap of one instance container: 256 MB.
pub const SIZE_256_MB: u64 = 256 * 1024 * 1024;

/// The scheduling period containers are limited over, in microseconds.
pub const CPU_PERIOD_MICROS: u64 = 100000;

/// The CPU limit of a container, as the daemon takes it: the fixed period
/// and the quota for the given number of millicores (1000 is one core).
pub fn cpu_limits(milli_cpus: u64) -> (r: (u64, u64))
    requires
        milli_cpus <= u64::MAX / 100,
    ensures
        r.0 == CPU_PERIOD_MICROS,
        r.1 == milli_cpus * 100,
{
    (CPU_PERIOD_MICROS, milli_cpus * 100)
}

/// How many times a character occurs in a string.
pub open spec fn spec_count_char(s: Seq<char>, c: char) -> int
    decreases s.len(),
{
    if s.len() == 0 {
        0
    } else {
        spec_count_char(s.drop_last(), c) + if s.last() == c {
            1 as int
        } else {
            0 as int
        }
    }
}

pub proof fn lemma_count_char_zero(s: Seq<char>, c: char)
    requires
        forall|i: int| 0 <= i < s.len() ==> s[i] != c,
    ensures
        spec_count_char(s, c) == 0,
    decreases s.len(),
{
    if s.len() > 0 {
        lemma_count_char_zero(s.drop_last(), c);
    }
}

pub proof fn lemma_count_char_nonneg(s: Seq<char>, c: char)
    ensures
        spec_count_char(s, c) >= 0,
    decreases s.len(),
{
    if s.len() > 0 {
        lemma_count_char_nonneg(s.drop_last(), c);
    }
}

pub proof fn lemma_count_char_pos(s: Seq<char>, c: char, i: int)
    requires
        0 <= i < s.len(),
        s[i] == c,
    ensures
        spec_count_char(s, c) >= 1,
    decreases s.len(),
{
    lemma_count_char_nonneg(s.drop_last(), c);
    if i < s.len() - 1 {
        lemma_count_char_pos(s.drop_last(), c, i);
    }
}

pub proof fn lemma_count_char_two(s: Seq<char>, c: char, i: int, j: int)
    requires
        0 <= i < j < s.len(),
        s[i] == c,
        s[j] == c,
    ensures
        spec_count_char(s, c) >= 2,
    decreases s.len(),
{
    if j == s.len() - 1 {
        lemma_count_char_pos(s.drop_last(), c, i);
    } else {
        lemma_count_char_two(s.drop_last(), c, i, j);
        lemma_count_char_nonneg(s.drop_last(), c);
    }
}

/// Split a port binding of the form `HOST_PORT:CONTAINER_PORT` at its one
/// colon; a string with no colon or more than one is refused.
pub fn parse_port_binding(s: &str) -> (r: Option<(String, String)>)
    ensures
        match r {
            Some(parts) => {
                &&& parts.0@ + seq![':'] + parts.1@ == s@
                &&& !parts.0@.contains(':')
                &&& !parts.1@.contains(':')
            },
            None => spec_count_char(s@, ':') != 1,
        },
{
    let n: usize = s.unicode_len();
    let mut i: usize = 0;
    while i < n
        invariant
            i <= n,
            n == s@.len(),
            forall|k: int| 0 <= k < i ==> s@[k] != ':',
        decreases n - i,
    {
        if s.get_char(i) == ':' {
            // no second colon may follow
            let mut j: usize = i + 1;
            while j < n
                invariant
                    i < j <= n,
                    n == s@.len(),
                    s@[i as int] == ':',
                    forall|k: int| i < k < j ==> s@[k] != ':',
                decreases n - j,
            {
                if s.get_char(j) == ':' {
                    proof {
                        lemma_count_char_two(s@, ':', i as int, j as int);
                    }
                    return None;
                }
                j = j + 1;
            }
            let host = s.substring_char(0, i);
            let container = s.substring_char(i + 1, n);
            proof {
                assert(host@ + seq![':'] + container@ =~= s@);
                assert(forall|k: int| 0 <= k < host@.len() ==> host@[k] == s@[k]);
                assert(forall|k: int|
                    0 <= k < container@.len() ==> container@[k] == s@[k + i + 1]);
            }
            return Some((host.to_owned(), container.to_owned()));
        }
        i = i + 1;
    }
    proof {
        lemma_count_char_zero(s@, ':');
    }
    None
}

/// The creation parameters of one instance container, as they are handed
/// to the daemon.
pub struct ContainerRequest {
    /// The image to run: the function key.
    pub image: String,
    /// The memory cap in bytes.
    pub memory_bytes: u64,
    /// CPU period and quota, in microseconds.
    pub cpu_period: u64,
    pub cpu_quota: u64,
    /// The address the published port binds on.
    pub host_ip: String,
    /// The published host port and the in-container port it maps to.
    pub host_port: u16,
    pub container_port: u16,
    /// Whether the daemon removes the container when it exits.
    pub auto_remove: bool,
    /// The network the container joins.
    pub network: String,
}

/// Assemble the creation parameters for an instance: 256 MB of memory,
/// one core, the one port published on the loopback address, removal on
/// exit, joined to the given network.
pub fn container_request(image: String, details: &ContainerDetails) -> (r: ContainerRequest)
    ensures
        r.image == image,
        r.memory_bytes == SIZE_256_MB,
        r.cpu_period == CPU_PERIOD_MICROS,
        r.cpu_quota == CPU_PERIOD_MICROS,
        r.host_ip@ == "127.0.0.1"@,
        r.host_port == details.bind_port,
        r.container_port == details.container_port,
        r.auto_remove,
        r.network == details.docker_compose_network_host,
{
    let limits = cpu_limits(1000);
    ContainerRequest {
        image,
        memory_bytes: SIZE_256_MB,
        cpu_period: limits.0,
        cpu_quota: limits.1,
        host_ip: "127.0.0.1".to_owned(),
        host_port: details.bind_port,
        container_port: details.container_port,
        auto_remove: true,
        network: details.docker_compose_network_host.clone(),
    }
}

/// How the daemon's build stream ended.
pub enum BuildEvent {
    /// Every stream item arrived without an error.
    Completed,
    /// The daemon reported a build failure with this message.
    ServerError(String),
    /// The stream itself broke with this message.
    StreamError(String),
}

/// Fold the daemon's build stream into a verdict. When every item of the
/// stream arrived, the image stands; a daemon-reported failure and a
/// broken stream each fail the build, carrying the daemon's words.
pub fn build_outcome(ev: BuildEvent) -> (r: Result<(), RuntimeError>)
    ensures
        match ev {
            BuildEvent::Completed => r is Ok,
            BuildEvent::ServerError(m) => r matches Err(RuntimeError::Exec(t)) && t@
                == "Docker build error: "@ + m@,
            BuildEvent::StreamError(m) => r matches Err(RuntimeError::Exec(t)) && t@
                == "Build stream error: "@ + m@,
        },
{
    match ev {
        BuildEvent::Completed => Ok(()),
        BuildEvent::ServerError(m) => {
            let mut t: String = "Docker build error: ".to_owned();
            t.append(m.as_str());
            Err(RuntimeError::Exec(t))
        },
        BuildEvent::StreamError(m) => {
            let mut t: String = "Build stream error: ".to_owned();
            t.append(m.as_str());
            Err(RuntimeError::Exec(t))
        },
    }
}

} // verus!
