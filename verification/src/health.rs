//! The health report: whether each store the service depends on answered in time.
use vstd::prelude::*;

verus! {

/// What the health check answers.
#[derive(Clone, Copy, Debug)]
pub struct HealthReport {
    pub status_code: u16,
    pub status: &'static str,
    pub database: &'static str,
    pub scylla: &'static str,
    pub redis_sessions: &'static str,
    pub redis_presence: &'static str,
    pub redis_messages: &'static str,
}

/// How one store is reported.
pub open spec fn spec_link(up: bool) -> Seq<char> {
    if up {
        "connected"@
    } else {
        "disconnected"@
    }
}

fn link(up: bool) -> (r: &'static str)
    ensures
        r@ == spec_link(up),
{
    if up {
        "connected"
    } else {
        "disconnected"
    }
}

/// The report for the stores that answered (`true`) or did not: healthy with status
/// 200 only where all of them answered, else unhealthy with status 503; each store
/// reported connected or disconnected.
pub fn health_report(
    db_up: bool,
    scylla_up: bool,
    redis_sessions_up: bool,
    redis_presence_up: bool,
    redis_messages_up: bool,
) -> (r: HealthReport)
    ensures
        ({
            let all = db_up && scylla_up && redis_sessions_up && redis_presence_up && redis_messages_up;
            &&& r.status_code == (if all { 200u16 } else { 503u16 })
            &&& r.status@ == (if all { "healthy"@ } else { "unhealthy"@ })
        }),
        r.database@ == spec_link(db_up),
        r.scylla@ == spec_link(scylla_up),
        r.redis_sessions@ == spec_link(redis_sessions_up),
        r.redis_presence@ == spec_link(redis_presence_up),
        r.redis_messages@ == spec_link(redis_messages_up),
{
    let all_healthy = db_up && scylla_up && redis_sessions_up && redis_presence_up && redis_messages_up;
    HealthReport {
        status_code: if all_healthy { 200 } else { 503 },
        status: if all_healthy { "healthy" } else { "unhealthy" },
        database: link(db_up),
        scylla: link(scylla_up),
        redis_sessions: link(redis_sessions_up),
        redis_presence: link(redis_presence_up),
        redis_messages: link(redis_messages_up),
    }
}

} // verus!
