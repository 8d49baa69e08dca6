//! Climbing state: which climbable surfaces the character overlaps, and
//! whether climbing is engaged.
//!
//! Engagement is edge-triggered: climbing turns on only on a fresh up/down
//! press while a climbable is overlapped, stays on while the overlap lasts,
//! and is forced off the moment the overlap set becomes empty — held keys
//! never engage it by themselves.

use vstd::prelude::*;

use crate::ground_detection::CollisionEvent;

verus! {

/// No surface is recorded twice.
pub open spec fn distinct_ids(s: Seq<u64>) -> bool {
    forall|i: int, j: int| 0 <= i < j < s.len() ==> s[i] != s[j]
}

proof fn lemma_push_to_set(s: Seq<u64>, e: u64)
    ensures
        s.push(e).to_set() =~= s.to_set().insert(e),
{
    assert forall|x: u64| #[trigger] s.push(e).to_set().contains(x) implies s.to_set().insert(
        e,
    ).contains(x) by {
        let j = choose|j: int| 0 <= j < s.push(e).len() && s.push(e)[j] == x;
        if j < s.len() {
            assert(s[j] == x);
        }
    }
    assert forall|x: u64| s.to_set().insert(e).contains(x) implies #[trigger] s.push(
        e,
    ).to_set().contains(x) by {
        if x == e {
            assert(s.push(e)[s.len() as int] == x);
        } else {
            let k = choose|k: int| 0 <= k < s.len() && s[k] == x;
            assert(s.push(e)[k] == x);
        }
    }
}

proof fn lemma_remove_to_set(s: Seq<u64>, i: int)
    requires
        0 <= i < s.len(),
        distinct_ids(s),
    ensures
        s.remove(i).to_set() =~= s.to_set().remove(s[i]),
{
    s.remove_ensures(i);
    assert forall|x: u64| #[trigger] s.remove(i).to_set().contains(x) implies s.to_set().remove(
        s[i],
    ).contains(x) by {
        let j = choose|j: int| 0 <= j < s.remove(i).len() && s.remove(i)[j] == x;
        let k: int = if j < i {
            j
        } else {
            j + 1
        };
        assert(s[k] == x);
        assert(k != i);
    }
    assert forall|x: u64| s.to_set().remove(s[i]).contains(x) implies #[trigger] s.remove(
        i,
    ).to_set().contains(x) by {
        let k = choose|k: int| 0 <= k < s.len() && s[k] == x;
        assert(k != i);
        if k < i {
            assert(s.remove(i)[k] == x);
        } else {
            assert(s.remove(i)[k - 1] == x);
        }
    }
}

/// The climbing state of one character.
pub struct Climber {
    /// The climbable surfaces the character currently overlaps.
    pub intersecting_climbables: Vec<u64>,
    /// Whether climbing is currently engaged.
    pub climbing: bool,
}

impl Climber {
    /// The overlap set never records a surface twice.
    pub open spec fn wf(self) -> bool {
        distinct_ids(self.intersecting_climbables@)
    }

    /// The set of climbable surfaces currently overlapped.
    pub open spec fn overlaps(self) -> Set<u64> {
        self.intersecting_climbables@.to_set()
    }

    /// Whether any climbable surface is currently overlapped.
    pub open spec fn spec_overlapping(self) -> bool {
        self.intersecting_climbables@.len() > 0
    }

    /// A fresh climber: no overlap, not climbing.
    pub fn new() -> (c: Climber)
        ensures
            c.wf(),
            !c.climbing,
            c.intersecting_climbables@.len() == 0,
    {
        Climber { intersecting_climbables: Vec::new(), climbing: false }
    }

    /// Whether the character currently overlaps any climbable surface.
    pub fn overlaps_climbable(&self) -> (r: bool)
        ensures
            r == self.spec_overlapping(),
    {
        self.intersecting_climbables.len() > 0
    }
}

/// Whether `v` holds `x`.
fn contains_id(v: &Vec<u64>, x: u64) -> (r: bool)
    ensures
        r == v@.contains(x),
{
    let mut i: usize = 0;
    while i < v.len()
        invariant
            i <= v.len(),
            forall|j: int| 0 <= j < i ==> v@[j] != x,
        decreases v.len() - i,
    {
        if v[i] == x {
            assert(v@[i as int] == x);
            return true;
        }
        i += 1;
    }
    false
}

/// Record `id` as overlapped.
fn insert_climbable(climber: &mut Climber, id: u64)
    requires
        old(climber).wf(),
    ensures
        final(climber).wf(),
        final(climber).climbing == old(climber).climbing,
        final(climber).overlaps() == old(climber).overlaps().insert(id),
{
    let ghost s0 = climber.intersecting_climbables@;
    if !contains_id(&climber.intersecting_climbables, id) {
        climber.intersecting_climbables.push(id);
        proof {
            lemma_push_to_set(s0, id);
            assert forall|a: int, b: int|
                0 <= a < b < climber.intersecting_climbables@.len() implies climber
                .intersecting_climbables@[a] != climber.intersecting_climbables@[b] by {
                if b < s0.len() {
                    assert(s0[a] != s0[b]);
                } else {
                    assert(s0[a] != id);
                }
            }
        }
    } else {
        proof {
            let k = choose|k: int| 0 <= k < s0.len() && s0[k] == id;
            assert(s0.to_set().contains(id));
            assert(s0.to_set().insert(id) =~= s0.to_set());
        }
    }
}

/// Drop `id` from the overlap set, if present.
fn remove_climbable(climber: &mut Climber, id: u64)
    requires
        old(climber).wf(),
    ensures
        final(climber).wf(),
        final(climber).climbing == old(climber).climbing,
        final(climber).overlaps() == old(climber).overlaps().remove(id),
{
    let ghost s0 = climber.intersecting_climbables@;
    let mut i: usize = 0;
    let n = climber.intersecting_climbables.len();
    while i < n
        invariant
            i <= n,
            n == climber.intersecting_climbables.len(),
            climber.intersecting_climbables@ == s0,
            s0 == old(climber).intersecting_climbables@,
            climber.climbing == old(climber).climbing,
            distinct_ids(s0),
            forall|j: int| 0 <= j < i ==> s0[j] != id,
        decreases n - i,
    {
        if climber.intersecting_climbables[i] == id {
            climber.intersecting_climbables.remove(i);
            proof {
                lemma_remove_to_set(s0, i as int);
                s0.remove_ensures(i as int);
                assert forall|a: int, b: int|
                    0 <= a < b < climber.intersecting_climbables@.len() implies climber
                    .intersecting_climbables@[a] != climber.intersecting_climbables@[b] by {
                    let ia: int = if a < i {
                        a
                    } else {
                        a + 1
                    };
                    let ib: int = if b < i {
                        b
                    } else {
                        b + 1
                    };
                    assert(climber.intersecting_climbables@[a] == s0[ia]);
                    assert(climber.intersecting_climbables@[b] == s0[ib]);
                }
            }
            return;
        }
        i += 1;
    }
    proof {
        assert(!s0.contains(id));
        assert(!s0.to_set().contains(id));
        assert(s0.to_set().remove(id) =~= s0.to_set());
    }
}

/// What one collision event does to the climbable overlap set: a started
/// contact between the character and a climbable surface records the surface,
/// a stopped contact removes it, anything else leaves the set untouched.
pub open spec fn spec_apply_climb_event(
    s: Set<u64>,
    ev: CollisionEvent,
    character: u64,
    climbables: Seq<u64>,
) -> Set<u64> {
    match ev {
        CollisionEvent::Started(e1, e2) => if climbables.contains(e1) {
            if e2 == character {
                s.insert(e1)
            } else {
                s
            }
        } else if climbables.contains(e2) {
            if e1 == character {
                s.insert(e2)
            } else {
                s
            }
        } else {
            s
        },
        CollisionEvent::Stopped(e1, e2) => if climbables.contains(e1) {
            if e2 == character {
                s.remove(e1)
            } else {
                s
            }
        } else if climbables.contains(e2) {
            if e1 == character {
                s.remove(e2)
            } else {
                s
            }
        } else {
            s
        },
    }
}

/// The overlap set after a whole queue of events, oldest first.
pub open spec fn spec_apply_climb_events(
    s: Set<u64>,
    evs: Seq<CollisionEvent>,
    character: u64,
    climbables: Seq<u64>,
) -> Set<u64>
    decreases evs.len(),
{
    if evs.len() <= 0 {
        s
    } else {
        spec_apply_climb_event(
            spec_apply_climb_events(s, evs.drop_last(), character, climbables),
            evs.last(),
            character,
            climbables,
        )
    }
}

/// Drain a frame's queued collision events into the climbable overlap set.
/// `climbables` names the climbable surfaces of the world; `character` is the
/// entity the climber belongs to.
pub fn update_climbable_overlap(
    climber: &mut Climber,
    events: &Vec<CollisionEvent>,
    climbables: &Vec<u64>,
    character: u64,
)
    requires
        old(climber).wf(),
    ensures
        final(climber).wf(),
        final(climber).climbing == old(climber).climbing,
        final(climber).overlaps() == spec_apply_climb_events(
            old(climber).overlaps(),
            events@,
            character,
            climbables@,
        ),
{
    let ghost s0 = old(climber).overlaps();
    let mut i: usize = 0;
    while i < events.len()
        invariant
            i <= events.len(),
            climber.wf(),
            climber.climbing == old(climber).climbing,
            climber.overlaps() == spec_apply_climb_events(
                s0,
                events@.subrange(0, i as int),
                character,
                climbables@,
            ),
        decreases events.len() - i,
    {
        match events[i] {
            CollisionEvent::Started(e1, e2) => {
                if contains_id(climbables, e1) {
                    if e2 == character {
                        insert_climbable(climber, e1);
                    }
                } else if contains_id(climbables, e2) {
                    if e1 == character {
                        insert_climbable(climber, e2);
                    }
                }
            }
            CollisionEvent::Stopped(e1, e2) => {
                if contains_id(climbables, e1) {
                    if e2 == character {
                        remove_climbable(climber, e1);
                    }
                } else if contains_id(climbables, e2) {
                    if e1 == character {
                        remove_climbable(climber, e2);
                    }
                }
            }
        }
        proof {
            let pre = events@.subrange(0, i as int);
            let post = events@.subrange(0, i + 1);
            assert(post.drop_last() =~= pre);
            assert(post.last() == events@[i as int]);
        }
        i += 1;
    }
    proof {
        assert(events@.subrange(0, events@.len() as int) =~= events@);
    }
}

/// Whether climbing is engaged after the engagement step, given the previous
/// engagement and this frame's fresh vertical edges: engaged only while a
/// climbable is overlapped, and newly engaged only by a fresh up/down press.
pub open spec fn spec_climb_engaged(cl: Climber, up_just_pressed: bool, down_just_pressed: bool) -> bool {
    cl.spec_overlapping() && (cl.climbing || up_just_pressed || down_just_pressed)
}

/// The climb-engagement step: force climbing off when no climbable is
/// overlapped, engage it on a fresh up/down press while one is, and otherwise
/// leave it as it was.
pub fn update_climbing(climber: &mut Climber, up_just_pressed: bool, down_just_pressed: bool)
    ensures
        final(climber).intersecting_climbables == old(climber).intersecting_climbables,
        final(climber).climbing == spec_climb_engaged(*old(climber), up_just_pressed, down_just_pressed),
{
    if climber.intersecting_climbables.len() == 0 {
        climber.climbing = false;
    } else if up_just_pressed || down_just_pressed {
        climber.climbing = true;
    }
}

/// Climb engagement is edge-triggered.  For every climber and every input:
/// climbing never turns on without a fresh up/down press (holding the keys is
/// not enough), losing the overlap forces it off whatever is held, and a
/// fresh press engages it exactly when a climbable is overlapped.
pub proof fn lemma_climb_edge_trigger(cl: Climber, up_just_pressed: bool, down_just_pressed: bool)
    ensures
        !cl.climbing && !up_just_pressed && !down_just_pressed ==> !spec_climb_engaged(
            cl,
            up_just_pressed,
            down_just_pressed,
        ),
        !cl.spec_overlapping() ==> !spec_climb_engaged(cl, up_just_pressed, down_just_pressed),
        cl.spec_overlapping() && (up_just_pressed || down_just_pressed) ==> spec_climb_engaged(
            cl,
            up_just_pressed,
            down_just_pressed,
        ),
{
}

} // verus!
