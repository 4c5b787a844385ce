use crate::values::ActorHandle;
use vstd::prelude::*;

verus! {

/// A line trace whose hit flag and hit actor disagree.
#[derive(Debug, Clone, Copy, PartialEq, Eq, Structural)]
pub enum TraceError {
    /// The flag reports a hit but the actor is null.
    HitWithoutActor,
    /// The flag reports a miss but the actor is not null.
    ActorWithoutHit,
}

/// Whether the hit flag and the hit actor of a line trace agree: the actor is
/// non-null exactly when the flag is nonzero.
pub open spec fn trace_consistent(flag: u32, actor: ActorHandle) -> bool {
    (flag != 0) == !actor.spec_is_null()
}

/// Reads what a line trace answered: `Ok(Some(actor))` for a hit,
/// `Ok(None)` for a miss, and an error where the flag and the actor
/// disagree.
pub fn read_line_trace(flag: u32, actor: ActorHandle) -> (r: Result<Option<ActorHandle>, TraceError>)
    ensures
        r is Ok <==> trace_consistent(flag, actor),
        r == Ok::<Option<ActorHandle>, TraceError>(Some(actor)) <==> (flag != 0
            && !actor.spec_is_null()),
        r == Ok::<Option<ActorHandle>, TraceError>(None) <==> (flag == 0 && actor.spec_is_null()),
        r == Err::<Option<ActorHandle>, TraceError>(TraceError::HitWithoutActor) <==> (flag != 0
            && actor.spec_is_null()),
        r == Err::<Option<ActorHandle>, TraceError>(TraceError::ActorWithoutHit) <==> (flag == 0
            && !actor.spec_is_null()),
{
    let hit = flag != 0;
    let null = actor.is_null();
    if hit && !null {
        Ok(Some(actor))
    } else if !hit && null {
        Ok(None)
    } else if hit {
        Err(TraceError::HitWithoutActor)
    } else {
        Err(TraceError::ActorWithoutHit)
    }
}

} // verus!
