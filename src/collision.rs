use vstd::prelude::*;

verus! {

/// Transient contact marker carried by a body between the step that saw a
/// contact begin and the pass that consumes it.
#[derive(Clone, Copy, Debug, PartialEq, Eq, Structural)]
pub enum CollisionTag {
    Collided,
    NotCollided,
}

/// A contact report from the physics provider, naming the two bodies.
#[derive(Clone, Copy, Debug, PartialEq, Eq, Structural)]
pub enum CollisionEvent {
    Started(u64, u64),
    Stopped(u64, u64),
}

/// Identifier of the craft's body. Pickups are numbered from one up.
pub const PLAYER_ID: u64 = 0;

/// The event reports a contact beginning on body `id`.
pub open spec fn starts_on(e: CollisionEvent, id: u64) -> bool {
    match e {
        CollisionEvent::Started(a, b) => a == id || b == id,
        CollisionEvent::Stopped(_, _) => false,
    }
}

/// Some event of the batch reports a contact beginning on body `id`.
pub open spec fn touched(events: Seq<CollisionEvent>, id: u64) -> bool {
    exists|i: int| 0 <= i < events.len() && #[trigger] starts_on(events[i], id)
}

/// The tag a body carries once a batch of events has been applied.
pub open spec fn marked(tag: CollisionTag, events: Seq<CollisionEvent>, id: u64) -> CollisionTag {
    if touched(events, id) {
        CollisionTag::Collided
    } else {
        tag
    }
}

/// Whether any event of the batch reports a contact beginning on `id`.
pub fn is_touched(events: &Vec<CollisionEvent>, id: u64) -> (r: bool)
    ensures
        r == touched(events@, id),
{
    let mut i: usize = 0;
    while i < events.len()
        invariant
            i <= events.len(),
            forall|j: int| 0 <= j < i ==> !starts_on(#[trigger] events@[j], id),
        decreases events.len() - i,
    {
        match events[i] {
            CollisionEvent::Started(a, b) => {
                if a == id || b == id {
                    assert(starts_on(events@[i as int], id));
                    return true;
                }
            },
            CollisionEvent::Stopped(_, _) => {},
        }
        i = i + 1;
    }
    false
}

/// Applies a batch of events to one body's tag. Marking is idempotent: a
/// body already marked stays marked, and contacts ending change nothing.
pub fn mark(tag: CollisionTag, events: &Vec<CollisionEvent>, id: u64) -> (r: CollisionTag)
    ensures
        r == marked(tag, events@, id),
{
    if is_touched(events, id) {
        CollisionTag::Collided
    } else {
        tag
    }
}

} // verus!
