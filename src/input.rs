use vstd::prelude::*;

verus! {

/// A key of the control scheme.
#[derive(PartialEq, Eq, Structural, Clone, Copy, Debug)]
pub enum ControlKey {
    /// Move up.
    W,
    /// Move down.
    S,
    /// Move left.
    A,
    /// Move right.
    D,
    /// Turn by a positive angle.
    Q,
    /// Turn by a negative angle.
    E,
}

/// The order in which a frame looks at the control keys.
pub open spec fn key_order() -> Seq<ControlKey> {
    seq![ControlKey::W, ControlKey::S, ControlKey::A, ControlKey::D, ControlKey::Q, ControlKey::E]
}

impl ControlKey {
    /// Every control key, in the order in which a frame looks at them.
    pub fn all() -> (r: Vec<ControlKey>)
        ensures
            r@ == key_order(),
    {
        let r = vec![ControlKey::W, ControlKey::S, ControlKey::A, ControlKey::D, ControlKey::Q, ControlKey::E];
        assert(r@ =~= key_order());
        r
    }
}

/// Which control keys are held down during a frame.
#[derive(PartialEq, Eq, Structural, Clone, Copy, Debug)]
pub struct KeyInput {
    pub w: bool,
    pub s: bool,
    pub a: bool,
    pub d: bool,
    pub q: bool,
    pub e: bool,
}

impl KeyInput {
    pub open spec fn held(self, key: ControlKey) -> bool {
        match key {
            ControlKey::W => self.w,
            ControlKey::S => self.s,
            ControlKey::A => self.a,
            ControlKey::D => self.d,
            ControlKey::Q => self.q,
            ControlKey::E => self.e,
        }
    }

    /// A frame in which no control key is held.
    pub fn released() -> (r: KeyInput)
        ensures
            forall|k: ControlKey| !r.held(k),
    {
        KeyInput { w: false, s: false, a: false, d: false, q: false, e: false }
    }

    /// Whether `key` is held.
    pub fn is_pressed(&self, key: ControlKey) -> (r: bool)
        ensures
            r == self.held(key),
    {
        match key {
            ControlKey::W => self.w,
            ControlKey::S => self.s,
            ControlKey::A => self.a,
            ControlKey::D => self.d,
            ControlKey::Q => self.q,
            ControlKey::E => self.e,
        }
    }

    /// The same input with `key` held as well.
    pub fn press(&mut self, key: ControlKey)
        ensures
            final(self).held(key),
            forall|k: ControlKey| k != key ==> final(self).held(k) == old(self).held(k),
    {
        match key {
            ControlKey::W => self.w = true,
            ControlKey::S => self.s = true,
            ControlKey::A => self.a = true,
            ControlKey::D => self.d = true,
            ControlKey::Q => self.q = true,
            ControlKey::E => self.e = true,
        }
    }
}

} // verus!
