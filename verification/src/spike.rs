//! Spike contact: a started collision between a watched character and a spike
//! asks the level flow for a respawn.

use vstd::prelude::*;

use crate::ground_detection::CollisionEvent;

verus! {

/// Tag for spike entities.
#[derive(Clone, Copy, Debug, PartialEq, Eq, Structural, Default)]
pub struct Spike;

/// Tag for the entities watched for spike contact.
#[derive(Clone, Copy, Debug, PartialEq, Eq, Structural, Default)]
pub struct SpikeDetection;

/// Whether `ev` is a started contact between a watched entity and a spike,
/// in either order.
pub open spec fn spec_spike_event(ev: CollisionEvent, detectors: Seq<u64>, spikes: Seq<u64>) -> bool {
    ev matches CollisionEvent::Started(a, b) && ((detectors.contains(a) && spikes.contains(b))
        || (detectors.contains(b) && spikes.contains(a)))
}

/// Whether any event of the queue is a spike contact.
pub open spec fn spec_spike_hit(
    evs: Seq<CollisionEvent>,
    detectors: Seq<u64>,
    spikes: Seq<u64>,
) -> bool {
    exists|i: int| 0 <= i < evs.len() && spec_spike_event(evs[i], detectors, spikes)
}

/// Whether `v` holds `x`.
fn contains_entity(v: &Vec<u64>, x: u64) -> (r: bool)
    ensures
        r == v@.contains(x),
{
    let mut i: usize = 0;
    while i < v.len()
        invariant
            i <= v.len(),
            forall|j: int| 0 <= j < i ==> v@[j] != x,
        decreases v.len() - i,
    {
        if v[i] == x {
            assert(v@[i as int] == x);
            return true;
        }
        i += 1;
    }
    false
}

/// Scan a frame's collision events for a started contact between a watched
/// entity and a spike; such a contact asks for a level respawn.  `detectors`
/// names the watched entities, `spikes` the spikes.
pub fn detect_spike(events: &Vec<CollisionEvent>, detectors: &Vec<u64>, spikes: &Vec<u64>) -> (r:
    bool)
    ensures
        r == spec_spike_hit(events@, detectors@, spikes@),
{
    let mut i: usize = 0;
    while i < events.len()
        invariant
            i <= events.len(),
            forall|j: int| 0 <= j < i ==> !spec_spike_event(events@[j], detectors@, spikes@),
        decreases events.len() - i,
    {
        match events[i] {
            CollisionEvent::Started(a, b) => {
                if contains_entity(detectors, a) && contains_entity(spikes, b) {
                    assert(spec_spike_event(events@[i as int], detectors@, spikes@));
                    return true;
                }
                if contains_entity(detectors, b) && contains_entity(spikes, a) {
                    assert(spec_spike_event(events@[i as int], detectors@, spikes@));
                    return true;
                }
            }
            CollisionEvent::Stopped(_, _) => {}
        }
        i += 1;
    }
    false
}

} // verus!
