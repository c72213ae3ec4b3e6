//! Keyboard state for the render loop.
//!
//! The event pump reports key presses and releases one at a time; the
//! render loop needs the set of keys currently held down, in the order
//! they were first pressed, and the camera movement commands they map to.
//! `PressedKeys` keeps that set free of duplicates, releases entries the
//! way a swap-remove does, and translates the held keys into
//! [`CameraMotion`](crate::camera::CameraMotion) commands.

use vstd::prelude::*;

use crate::camera::CameraMotion;

verus! {

/// A keyboard key, identified by the movement keys the camera cares
/// about; every other key carries its raw scan code.
#[derive(Clone, Copy, Debug, PartialEq, Eq, Structural)]
pub enum Key {
    W,
    A,
    S,
    D,
    Space,
    X,
    Other(u32),
}

/// The camera movement command a held key stands for, if any.
pub open spec fn spec_motion_for(k: Key) -> Option<CameraMotion> {
    match k {
        Key::W => Some(CameraMotion::Forward),
        Key::S => Some(CameraMotion::Backward),
        Key::A => Some(CameraMotion::Left),
        Key::D => Some(CameraMotion::Right),
        Key::Space => Some(CameraMotion::Up),
        Key::X => Some(CameraMotion::Down),
        Key::Other(_) => None,
    }
}

/// The movement commands of a key sequence, kept in key order.
pub open spec fn spec_motions(s: Seq<Key>) -> Seq<CameraMotion>
    decreases s.len(),
{
    if s.len() == 0 {
        Seq::empty()
    } else {
        spec_motions(s.drop_last()) + match spec_motion_for(s.last()) {
            Some(m) => seq![m],
            None => Seq::empty(),
        }
    }
}

/// The camera movement command mapped to a key, if it has one.
pub fn motion_for(key: Key) -> (r: Option<CameraMotion>)
    ensures
        r == spec_motion_for(key),
{
    match key {
        Key::W => Some(CameraMotion::Forward),
        Key::S => Some(CameraMotion::Backward),
        Key::A => Some(CameraMotion::Left),
        Key::D => Some(CameraMotion::Right),
        Key::Space => Some(CameraMotion::Up),
        Key::X => Some(CameraMotion::Down),
        Key::Other(_) => None,
    }
}

/// The keys currently held down, each at most once, in the order they
/// were first pressed.
pub struct PressedKeys {
    keys: Vec<Key>,
}

impl View for PressedKeys {
    type V = Seq<Key>;

    closed spec fn view(&self) -> Seq<Key> {
        self.keys@
    }
}

impl PressedKeys {
    /// No key occurs twice.
    pub open spec fn wf(&self) -> bool {
        forall|i: int, j: int| 0 <= i < j < self@.len() ==> self@[i] != self@[j]
    }

    /// An empty key set.
    pub fn new() -> (r: Self)
        ensures
            r@ == Seq::<Key>::empty(),
            r.wf(),
    {
        PressedKeys { keys: Vec::new() }
    }

    /// Whether `key` is currently held down.
    pub fn contains(&self, key: Key) -> (r: bool)
        ensures
            r == self@.contains(key),
    {
        let mut i: usize = 0;
        while i < self.keys.len()
            invariant
                i <= self.keys@.len(),
                forall|k: int| 0 <= k < i ==> self.keys@[k] != key,
            decreases self.keys@.len() - i,
        {
            if self.keys[i] == key {
                return true;
            }
            i = i + 1;
        }
        false
    }

    /// Record a key press: a key not yet held is appended, a key already
    /// held leaves the set unchanged.
    pub fn press(&mut self, key: Key)
        requires
            old(self).wf(),
        ensures
            final(self).wf(),
            old(self)@.contains(key) ==> final(self)@ == old(self)@,
            !old(self)@.contains(key) ==> final(self)@ == old(self)@.push(key),
    {
        if !self.contains(key) {
            self.keys.push(key);
        }
    }

    /// Record a key release: a held key is swap-removed (the last entry
    /// takes its slot), an unheld key leaves the set unchanged.
    pub fn release(&mut self, key: Key)
        requires
            old(self).wf(),
        ensures
            final(self).wf(),
            (match old(self)@.index_of_first(key) {
                Some(i) => final(self)@ == old(self)@.update(i, old(self)@.last()).drop_last(),
                None => final(self)@ == old(self)@,
            }),
    {
        proof {
            old(self)@.index_of_first_ensures(key);
        }
        let mut i: usize = 0;
        while i < self.keys.len()
            invariant
                i <= self.keys@.len(),
                self.keys@ == old(self)@,
                old(self).wf(),
                forall|k: int| 0 <= k < i ==> self.keys@[k] != key,
            decreases self.keys@.len() - i,
        {
            if self.keys[i] == key {
                proof {
                    old(self)@.index_of_first_ensures(key);
                }
                self.keys.swap_remove(i);
                proof {
                    let s_old = old(self)@;
                    let s_new = self.keys@;
                    assert forall|a: int, b: int|
                        0 <= a < b < s_new.len() implies s_new[a] != s_new[b] by {
                        assert(s_new[a] == if a == i { s_old.last() } else { s_old[a] });
                        assert(s_new[b] == if b == i { s_old.last() } else { s_old[b] });
                    }
                }
                return ;
            }
            i = i + 1;
        }
    }

    /// The movement commands of the held keys, in press order.
    pub fn camera_directions(&self) -> (r: Vec<CameraMotion>)
        ensures
            r@ == spec_motions(self@),
    {
        let mut out: Vec<CameraMotion> = Vec::new();
        let mut i: usize = 0;
        while i < self.keys.len()
            invariant
                i <= self.keys@.len(),
                out@ == spec_motions(self.keys@.take(i as int)),
            decreases self.keys@.len() - i,
        {
            proof {
                assert(self.keys@.take(i + 1).drop_last() =~= self.keys@.take(i as int));
                assert(self.keys@.take(i + 1).last() == self.keys@[i as int]);
            }
            match motion_for(self.keys[i]) {
                Some(m) => out.push(m),
                None => (),
            }
            i = i + 1;
        }
        proof {
            assert(self.keys@.take(self.keys@.len() as int) =~= self.keys@);
        }
        out
    }
}

} // verus!
