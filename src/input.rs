//! Keyboard state: which keys are held and for how many updates.
use vstd::prelude::*;

use std::collections::HashMap;

verus! {

broadcast use vstd::std_specs::hash::group_hash_axioms;

/// How long a key has been held, in updates.
#[derive(Clone, Copy, Debug, PartialEq, Eq, Structural)]
pub struct KeyState {
    pub ticks: u32,
}

/// A key going down or up, by its physical key code.
#[derive(Clone, Copy, Debug, PartialEq, Eq, Structural)]
pub struct KeyEvent {
    pub key: u32,
    pub pressed: bool,
}

/// The held keys after one event: a press adds a key at zero ticks unless it
/// is already held; a release drops it.
pub open spec fn apply_event(m: Map<u32, int>, e: KeyEvent) -> Map<u32, int> {
    if e.pressed {
        if m.contains_key(e.key) {
            m
        } else {
            m.insert(e.key, 0)
        }
    } else {
        m.remove(e.key)
    }
}

pub open spec fn apply_events(m: Map<u32, int>, events: Seq<KeyEvent>) -> Map<u32, int>
    decreases events.len(),
{
    if events.len() == 0 {
        m
    } else {
        apply_event(apply_events(m, events.drop_last()), events.last())
    }
}

/// Every held key ages by one update.
pub open spec fn tick(m: Map<u32, int>) -> Map<u32, int> {
    Map::new(|k: u32| m.contains_key(k), |k: u32| m[k] + 1)
}

pub open spec fn saturate(t: int) -> u32 {
    if t > u32::MAX {
        u32::MAX
    } else {
        t as u32
    }
}

/// The held keys, each with the update count at which it went down.
pub struct KeyboardState {
    updates: u64,
    pressed_at: HashMap<u32, u64>,
}

impl KeyboardState {
    /// Each held key with the number of updates it has been held for.
    pub closed spec fn keys(&self) -> Map<u32, int> {
        Map::new(
            |k: u32| self.pressed_at@.contains_key(k),
            |k: u32| self.updates - self.pressed_at@[k],
        )
    }

    /// Number of updates so far.
    pub closed spec fn updates(&self) -> int {
        self.updates as int
    }

    pub closed spec fn wf(&self) -> bool {
        forall|k: u32| #[trigger] self.pressed_at@.contains_key(k) ==> self.pressed_at@[k] <= self.updates
    }

    pub fn new() -> (r: KeyboardState)
        ensures
            r.wf(),
            r.keys() == Map::<u32, int>::empty(),
            r.updates() == 0,
    {
        let r = KeyboardState { updates: 0, pressed_at: HashMap::new() };
        assert(r.keys() =~= Map::<u32, int>::empty());
        r
    }

    pub fn is_down(&self, key: u32) -> (r: bool)
        ensures
            r == self.keys().contains_key(key),
    {
        self.pressed_at.contains_key(&key)
    }

    /// Whether `key` went down during the last update.
    pub fn was_just_pressed(&self, key: u32) -> (r: bool)
        requires
            self.wf(),
        ensures
            r == (self.keys().contains_key(key) && self.keys()[key] == 1),
    {
        match self.get_down(key) {
            Some(s) => s.ticks == 1,
            None => false,
        }
    }

    /// The state of `key` if it is held; ticks saturate at `u32::MAX`.
    pub fn get_down(&self, key: u32) -> (r: Option<KeyState>)
        requires
            self.wf(),
        ensures
            r == if self.keys().contains_key(key) {
                Some(KeyState { ticks: saturate(self.keys()[key]) })
            } else {
                None::<KeyState>
            },
    {
        match self.pressed_at.get(&key) {
            Some(at) => {
                let held = self.updates - *at;
                let ticks: u32 = if held > u32::MAX as u64 {
                    u32::MAX
                } else {
                    held as u32
                };
                Some(KeyState { ticks })
            },
            None => None,
        }
    }

    /// Applies one update's key events in order, then ages every held key.
    pub fn update(&mut self, events: &Vec<KeyEvent>)
        requires
            old(self).wf(),
            old(self).updates() < u64::MAX,
        ensures
            final(self).wf(),
            final(self).updates() == old(self).updates() + 1,
            final(self).keys() == tick(apply_events(old(self).keys(), events@)),
    {
        let mut i: usize = 0;
        while i < events.len()
            invariant
                i <= events@.len(),
                self.wf(),
                self.updates == old(self).updates,
                self.updates < u64::MAX,
                self.keys() == apply_events(old(self).keys(), events@.take(i as int)),
            decreases events.len() - i,
        {
            let e = events[i];
            let ghost before = self.keys();
            if e.pressed {
                if !self.pressed_at.contains_key(&e.key) {
                    self.pressed_at.insert(e.key, self.updates);
                }
            } else {
                self.pressed_at.remove(&e.key);
            }
            proof {
                assert(events@.take(i as int + 1).drop_last() =~= events@.take(i as int));
                assert(self.keys() =~= apply_event(before, e));
            }
            i += 1;
        }
        proof {
            assert(events@.take(i as int) =~= events@);
        }
        let ghost mid = self.keys();
        self.updates = self.updates + 1;
        assert(self.keys() =~= tick(mid));
    }
}

impl Default for KeyboardState {
    fn default() -> (r: KeyboardState)
        ensures
            r.wf(),
            r.keys() == Map::<u32, int>::empty(),
            r.updates() == 0,
    {
        KeyboardState::new()
    }
}

} // verus!
