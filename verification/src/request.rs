//! The request model: what to run and how to detect completion.

use vstd::prelude::*;

verus! {

/// Keys of an environment mapping are pairwise distinct.
pub open spec fn env_keys_unique(env: Seq<(String, String)>) -> bool {
    forall|i: int, j: int| 0 <= i < j < env.len() ==> env[i].0@ != env[j].0@
}

/// An immutable description of one supervised invocation: the executable to
/// launch, its arguments and extra environment, and the TCP ports whose
/// reachability counts as completion.
pub struct RequestSpec {
    /// The executable to run; never empty.
    pub program: String,
    /// Command line arguments, passed positionally; may be empty.
    pub arguments: Vec<String>,
    /// Environment variables to set, merged into the ambient environment;
    /// keys are unique.
    pub environment: Vec<(String, String)>,
    /// TCP ports to poll as an exit condition; order is irrelevant. When
    /// empty, the supervisor simply waits for the child to exit.
    pub ports: Vec<u16>,
}

impl RequestSpec {
    /// The invariant every constructed request satisfies.
    pub open spec fn wf(self) -> bool {
        &&& self.program@.len() > 0
        &&& env_keys_unique(self.environment@)
    }

    /// Builds a request, rejecting exactly an empty program name or a
    /// duplicated environment key.
    pub fn new(
        program: String,
        arguments: Vec<String>,
        environment: Vec<(String, String)>,
        ports: Vec<u16>,
    ) -> (r: Option<RequestSpec>)
        ensures
            r is Some <==> (program@.len() > 0 && env_keys_unique(environment@)),
            r matches Some(spec) ==> {
                &&& spec.program == program
                &&& spec.arguments == arguments
                &&& spec.environment == environment
                &&& spec.ports == ports
                &&& spec.wf()
            },
    {
        if program.as_str().is_empty() {
            return None;
        }
        if !env_keys_distinct(&environment) {
            return None;
        }
        Some(RequestSpec { program, arguments, environment, ports })
    }

    /// Which detection strategy this request selects: wait-or-port-probe
    /// exactly when at least one port is configured.
    pub fn strategy(&self) -> (s: Strategy)
        ensures
            s == strategy_for(self.ports@),
    {
        if self.ports.len() == 0 {
            Strategy::WaitOnly
        } else {
            Strategy::WaitOrPortProbe
        }
    }
}

/// The two ways to wait for completion, selected once per invocation.
#[derive(Clone, Copy, PartialEq, Eq, Structural, Debug)]
pub enum Strategy {
    /// Block until the child exits and classify its exit status.
    WaitOnly,
    /// Poll exit status and port reachability on a fixed interval,
    /// terminating the child once a port answers.
    WaitOrPortProbe,
}

/// The strategy a port list selects: polling exactly when it is non-empty.
pub open spec fn strategy_for(ports: Seq<u16>) -> Strategy {
    if ports.len() == 0 {
        Strategy::WaitOnly
    } else {
        Strategy::WaitOrPortProbe
    }
}

/// Whether all environment keys are pairwise distinct.
pub fn env_keys_distinct(env: &Vec<(String, String)>) -> (b: bool)
    ensures
        b == env_keys_unique(env@),
{
    let n = env.len();
    let mut i: usize = 0;
    while i < n
        invariant
            i <= n,
            n == env@.len(),
            forall|p: int, q: int| 0 <= p < i && p < q < n ==> env@[p].0@ != env@[q].0@,
        decreases n - i,
    {
        let mut j: usize = i + 1;
        while j < n
            invariant
                i < j <= n,
                n == env@.len(),
                forall|q: int| i < q < j ==> env@[i as int].0@ != env@[q].0@,
            decreases n - j,
        {
            if env[i].0 == env[j].0 {
                assert(env@[i as int].0@ == env@[j as int].0@);
                return false;
            }
            j += 1;
        }
        i += 1;
    }
    true
}

} // verus!
