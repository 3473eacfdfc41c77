//! The greeting service of the data application: its greeting and the pod
//! name it reports.
use vstd::prelude::*;

verus! {

/// The greeting service.
#[derive(Debug)]
pub struct MyGreeter {}

impl Default for MyGreeter {
    fn default() -> (r: Self) {
        MyGreeter {  }
    }
}

/// The greeting for a name.
pub open spec fn greeting_for(name: Seq<char>) -> Seq<char> {
    "Hello "@ + name + "!"@
}

/// The pod name reported for a host name that may be unset.
pub open spec fn host_or_unknown(hostname: Option<String>) -> Seq<char> {
    match hostname {
        Some(h) => h@,
        None => "unknown"@,
    }
}

impl MyGreeter {
    /// Greets `name`.
    pub fn say_hello(&self, name: &str) -> (r: String)
        ensures
            r@ == greeting_for(name@),
    {
        proof {
            reveal_strlit("Hello ");
            reveal_strlit("!");
        }
        let mut message = String::from_str("Hello ");
        message.append(name);
        message.append("!");
        message
    }

    /// The pod name, read from the host name.
    pub fn get_pod_name(&self, hostname: Option<String>) -> (r: String)
        ensures
            r@ == host_or_unknown(hostname),
    {
        pod_name_or_unknown(hostname)
    }
}

/// The host name, or `unknown` when it is not set.
pub fn pod_name_or_unknown(hostname: Option<String>) -> (r: String)
    ensures
        r@ == host_or_unknown(hostname),
{
    proof {
        reveal_strlit("unknown");
    }
    match hostname {
        Some(h) => h,
        None => String::from_str("unknown"),
    }
}

} // verus!
