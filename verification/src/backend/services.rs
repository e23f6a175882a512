//! Backend service identities and ordering policies.

use vstd::prelude::*;
use crate::chars::str_eq;

verus! {

/// A managed backend service.
#[derive(Clone, Copy, Debug, PartialEq, Eq, Structural)]
pub enum BackendService {
    Core,
    SseEngine,
    Mitigator,
    Estimator,
    Combiner,
    Tranqu,
    Gateway,
}

/// The name of a backend service, as used on the command line and for its PID file.
pub open spec fn service_name(service: BackendService) -> Seq<char> {
    match service {
        BackendService::Core => "core"@,
        BackendService::SseEngine => "sse_engine"@,
        BackendService::Mitigator => "mitigator"@,
        BackendService::Estimator => "estimator"@,
        BackendService::Combiner => "combiner"@,
        BackendService::Tranqu => "tranqu"@,
        BackendService::Gateway => "gateway"@,
    }
}

/// Status order, consumed by the Manager.
pub open spec fn status_order() -> Seq<BackendService> {
    seq![
        BackendService::Core,
        BackendService::SseEngine,
        BackendService::Mitigator,
        BackendService::Estimator,
        BackendService::Combiner,
        BackendService::Tranqu,
        BackendService::Gateway,
    ]
}

/// Start order: dependencies first. Services stop in the reverse order.
pub open spec fn start_order() -> Seq<BackendService> {
    seq![
        BackendService::Gateway,
        BackendService::Tranqu,
        BackendService::Mitigator,
        BackendService::Estimator,
        BackendService::Combiner,
        BackendService::SseEngine,
        BackendService::Core,
    ]
}

/// The service a name denotes.
pub open spec fn named_service(name: Seq<char>) -> Option<BackendService> {
    if name == "core"@ {
        Some(BackendService::Core)
    } else if name == "sse_engine"@ {
        Some(BackendService::SseEngine)
    } else if name == "mitigator"@ {
        Some(BackendService::Mitigator)
    } else if name == "estimator"@ {
        Some(BackendService::Estimator)
    } else if name == "combiner"@ {
        Some(BackendService::Combiner)
    } else if name == "tranqu"@ {
        Some(BackendService::Tranqu)
    } else if name == "gateway"@ {
        Some(BackendService::Gateway)
    } else {
        None
    }
}

impl BackendService {
    /// The name of this service.
    pub fn name(self) -> (r: &'static str)
        ensures
            r@ == service_name(self),
    {
        match self {
            BackendService::Core => "core",
            BackendService::SseEngine => "sse_engine",
            BackendService::Mitigator => "mitigator",
            BackendService::Estimator => "estimator",
            BackendService::Combiner => "combiner",
            BackendService::Tranqu => "tranqu",
            BackendService::Gateway => "gateway",
        }
    }
}

/// The services in status order.
pub fn status_order_services() -> (r: Vec<BackendService>)
    ensures
        r@ == status_order(),
{
    let r = vec![
        BackendService::Core,
        BackendService::SseEngine,
        BackendService::Mitigator,
        BackendService::Estimator,
        BackendService::Combiner,
        BackendService::Tranqu,
        BackendService::Gateway,
    ];
    assert(r@ =~= status_order());
    r
}

/// The services in start order.
pub fn start_order_services() -> (r: Vec<BackendService>)
    ensures
        r@ == start_order(),
{
    let r = vec![
        BackendService::Gateway,
        BackendService::Tranqu,
        BackendService::Mitigator,
        BackendService::Estimator,
        BackendService::Combiner,
        BackendService::SseEngine,
        BackendService::Core,
    ];
    assert(r@ =~= start_order());
    r
}

/// The service named `name`, or the diagnostic for an unknown service.
pub fn parse_service(name: &str) -> (r: Result<BackendService, String>)
    ensures
        match named_service(name@) {
            Some(s) => r == Ok::<BackendService, String>(s),
            None => r matches Err(m) && m@ == "unknown service: "@ + name@,
        },
{
    if str_eq(name, "core") {
        Ok(BackendService::Core)
    } else if str_eq(name, "sse_engine") {
        Ok(BackendService::SseEngine)
    } else if str_eq(name, "mitigator") {
        Ok(BackendService::Mitigator)
    } else if str_eq(name, "estimator") {
        Ok(BackendService::Estimator)
    } else if str_eq(name, "combiner") {
        Ok(BackendService::Combiner)
    } else if str_eq(name, "tranqu") {
        Ok(BackendService::Tranqu)
    } else if str_eq(name, "gateway") {
        Ok(BackendService::Gateway)
    } else {
        let mut m = "unknown service: ".to_owned();
        m.append(name);
        Err(m)
    }
}

impl std::str::FromStr for BackendService {
    type Err = String;

    fn from_str(name: &str) -> (r: Result<Self, Self::Err>)
        ensures
            match named_service(name@) {
                Some(s) => r == Ok::<BackendService, String>(s),
                None => r matches Err(m) && m@ == "unknown service: "@ + name@,
            },
    {
        parse_service(name)
    }
}

/// Services start after those they depend on: the gateway and tranqu first, then the
/// mitigator, the estimator and the combiner, then the SSE engine, and core last. Every service
/// appears exactly once.
pub proof fn law_start_order_puts_dependencies_first()
    ensures
        start_order().len() == 7,
        start_order()[0] == BackendService::Gateway,
        start_order()[1] == BackendService::Tranqu,
        start_order()[2] == BackendService::Mitigator,
        start_order()[3] == BackendService::Estimator,
        start_order()[4] == BackendService::Combiner,
        start_order()[5] == BackendService::SseEngine,
        start_order()[6] == BackendService::Core,
        forall|s: BackendService| #[trigger] start_order().contains(s),
{
    assert forall|s: BackendService| #[trigger] start_order().contains(s) by {
        let i: int = match s {
            BackendService::Gateway => 0,
            BackendService::Tranqu => 1,
            BackendService::Mitigator => 2,
            BackendService::Estimator => 3,
            BackendService::Combiner => 4,
            BackendService::SseEngine => 5,
            BackendService::Core => 6,
        };
        assert(start_order()[i] == s);
    }
}

} // verus!
