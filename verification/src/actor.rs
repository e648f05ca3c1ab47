//! Actor animation bookkeeping.
//!
//! The animation spawner places many copies of an avatar model and
//! registers each actor's animation clips exactly once, under the
//! actor's name. Once the scenes are loaded, every animation player is
//! started exactly once: a tracker remembers which entities were already
//! started, and a drawn speed decides which clip each one plays.

use vstd::prelude::*;

verus! {

/// The animation clips registered for one actor name. The clip handles
/// are the engine's; here they are plain identifiers.
#[derive(Clone)]
pub struct AnimationEntry {
    pub actor_name: String,
    pub idle: u64,
    pub walking: u64,
}

/// The animation clips registered so far, at most one entry per actor
/// name.
pub struct AnimationLibrary {
    pub entries: Vec<AnimationEntry>,
}

impl AnimationLibrary {
    /// At most one entry per actor name.
    pub open spec fn wf(&self) -> bool {
        forall|i: int, j: int|
            0 <= i < j < self.entries@.len() ==> self.entries@[i].actor_name@
                != self.entries@[j].actor_name@
    }

    /// Whether some entry is registered under `name`.
    pub open spec fn has_name(&self, name: Seq<char>) -> bool {
        exists|i: int|
            0 <= i < self.entries@.len() && (#[trigger] self.entries@[i]).actor_name@ == name
    }

    /// An empty library.
    pub fn new() -> (r: Self)
        ensures
            r.wf(),
            r.entries@ == Seq::<AnimationEntry>::empty(),
    {
        AnimationLibrary { entries: Vec::new() }
    }

    /// Whether clips are already registered under `name`.
    pub fn contains(&self, name: &String) -> (r: bool)
        ensures
            r == self.has_name(name@),
    {
        let mut i: usize = 0;
        while i < self.entries.len()
            invariant
                0 <= i <= self.entries@.len(),
                forall|k: int| 0 <= k < i ==> (#[trigger] self.entries@[k]).actor_name@ != name@,
            decreases self.entries@.len() - i,
        {
            if self.entries[i].actor_name == *name {
                return true;
            }
            i = i + 1;
        }
        false
    }

    /// Register clips under `name` unless some already are, as the
    /// spawner does once per actor name however many copies it places.
    pub fn register_if_absent(&mut self, name: String, idle: u64, walking: u64) -> (added: bool)
        requires
            old(self).wf(),
        ensures
            final(self).wf(),
            added == !old(self).has_name(name@),
            !added ==> final(self).entries@ == old(self).entries@,
            added ==> final(self).entries@.len() == old(self).entries@.len() + 1,
            added ==> final(self).entries@.take(old(self).entries@.len() as int) == old(
                self,
            ).entries@,
            added ==> final(self).entries@.last().actor_name@ == name@,
            added ==> final(self).entries@.last().idle == idle,
            added ==> final(self).entries@.last().walking == walking,
            final(self).has_name(name@),
    {
        if self.contains(&name) {
            proof {
                assert(self.has_name(name@));
            }
            return false;
        }
        let ghost before = self.entries@;
        let entry = AnimationEntry { actor_name: name, idle, walking };
        let ghost entry_name = entry.actor_name@;
        self.entries.push(entry);
        proof {
            assert(self.entries@.take(before.len() as int) =~= before);
            assert(self.entries@.last().actor_name@ == entry_name);
            assert(self.has_name(entry_name)) by {
                assert(self.entries@[before.len() as int].actor_name@ == entry_name);
            }
            assert forall|i: int, j: int|
                0 <= i < j < self.entries@.len() implies self.entries@[i].actor_name@
                != self.entries@[j].actor_name@ by {
                if j < before.len() {
                    assert(self.entries@[i] == before[i]);
                    assert(self.entries@[j] == before[j]);
                } else {
                    assert(self.entries@[i] == before[i]);
                }
            }
        }
        true
    }
}

/// Which clip a freshly loaded actor starts with.
#[derive(Clone, Copy, PartialEq, Eq, Structural, Debug)]
pub enum AnimationChoice {
    Idle,
    Walking,
}

/// Pick the starting clip from the drawn speed, given in thousandths of
/// the unit speed: above one half the actor idles, otherwise it walks.
pub fn choose_animation(speed_milli: u32) -> (r: AnimationChoice)
    ensures
        r == (if speed_milli > 500 {
            AnimationChoice::Idle
        } else {
            AnimationChoice::Walking
        }),
{
    if speed_milli > 500 {
        AnimationChoice::Idle
    } else {
        AnimationChoice::Walking
    }
}

/// Remembers which animation players were already started, and goes
/// quiet once the expected number of actors has been seen.
pub struct ActorInitTracker {
    pub initialized: Vec<u64>,
    pub done: bool,
    pub target: usize,
}

impl ActorInitTracker {
    /// No entity is remembered twice.
    pub open spec fn wf(&self) -> bool {
        forall|i: int, j: int|
            0 <= i < j < self.initialized@.len() ==> self.initialized@[i] != self.initialized@[j]
    }

    /// A fresh tracker that expects `target` actors.
    pub fn new(target: usize) -> (r: Self)
        ensures
            r.wf(),
            r.initialized@ == Seq::<u64>::empty(),
            !r.done,
            r.target == target,
    {
        ActorInitTracker { initialized: Vec::new(), done: false, target }
    }

    /// Whether entity `e` still needs its animation started: never once
    /// the tracker is done, and never twice for one entity.
    pub fn needs_init(&self, e: u64) -> (r: bool)
        ensures
            r == (!self.done && !self.initialized@.contains(e)),
    {
        if self.done {
            return false;
        }
        !crate::picking::contains_id(&self.initialized, e)
    }

    /// Remember that entity `e` was started.
    pub fn record_init(&mut self, e: u64)
        requires
            old(self).wf(),
            !old(self).initialized@.contains(e),
        ensures
            final(self).wf(),
            final(self).initialized@ == old(self).initialized@.push(e),
            final(self).done == old(self).done,
            final(self).target == old(self).target,
    {
        let ghost before = self.initialized@;
        self.initialized.push(e);
        proof {
            assert forall|i: int, j: int|
                0 <= i < j < self.initialized@.len() implies self.initialized@[i]
                != self.initialized@[j] by {
                if j < before.len() {
                } else {
                    assert(self.initialized@[i] == before[i]);
                    assert(before.contains(before[i]));
                }
            }
        }
    }

    /// Once exactly the expected number of actors has been started, stop
    /// scanning for ones to start.
    pub fn refresh_done(&mut self)
        ensures
            final(self).done == (old(self).done || old(self).initialized@.len() == old(
                self,
            ).target),
            final(self).initialized@ == old(self).initialized@,
            final(self).target == old(self).target,
    {
        if self.initialized.len() == self.target {
            self.done = true;
        }
    }
}

} // verus!
