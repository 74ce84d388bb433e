use vstd::prelude::*;
use crate::input::{ControlKey, KeyInput, key_order};

verus! {

/// What a held control key does to the player sprite during one frame.
/// The engine scales a translation by the move speed and the frame time,
/// and a turn by the rotation speed and the frame time.
#[derive(PartialEq, Eq, Structural, Clone, Copy, Debug)]
pub enum Motion {
    /// Move along the unit direction `(dx, dy)`.
    Translate { dx: i8, dy: i8 },
    /// Turn; `sign` is the sign of the angle handed to the engine.
    Turn { sign: i8 },
}

/// The motion that `key` asks for.
pub open spec fn motion_of(key: ControlKey) -> Motion {
    match key {
        ControlKey::W => Motion::Translate { dx: 0, dy: 1 },
        ControlKey::S => Motion::Translate { dx: 0, dy: -1 as i8 },
        ControlKey::A => Motion::Translate { dx: -1 as i8, dy: 0 },
        ControlKey::D => Motion::Translate { dx: 1, dy: 0 },
        ControlKey::Q => Motion::Turn { sign: 1 },
        ControlKey::E => Motion::Turn { sign: -1 as i8 },
    }
}

/// The motions for the keys of `keys` that `input` holds, in the order of `keys`.
pub open spec fn motions_for(input: KeyInput, keys: Seq<ControlKey>) -> Seq<Motion>
    decreases keys.len(),
{
    if keys.len() == 0 {
        seq![]
    } else {
        let rest = motions_for(input, keys.drop_last());
        if input.held(keys.last()) {
            rest.push(motion_of(keys.last()))
        } else {
            rest
        }
    }
}

/// The motions of a frame: one for each held control key, in key order.
pub open spec fn frame_motions(input: KeyInput) -> Seq<Motion> {
    motions_for(input, key_order())
}

/// Net displacement of a sequence of motions, in unit steps.
pub open spec fn net_shift(ms: Seq<Motion>) -> (int, int)
    decreases ms.len(),
{
    if ms.len() == 0 {
        (0, 0)
    } else {
        let (x, y) = net_shift(ms.drop_last());
        match ms.last() {
            Motion::Translate { dx, dy } => (x + dx, y + dy),
            Motion::Turn { .. } => (x, y),
        }
    }
}

/// Net turn of a sequence of motions, in unit turns.
pub open spec fn net_turn(ms: Seq<Motion>) -> int
    decreases ms.len(),
{
    if ms.len() == 0 {
        0
    } else {
        let t = net_turn(ms.drop_last());
        match ms.last() {
            Motion::Translate { .. } => t,
            Motion::Turn { sign } => t + sign,
        }
    }
}

/// 1 for a held key, 0 for a released one.
pub open spec fn count(b: bool) -> int {
    if b { 1 } else { 0 }
}

/// Opposite keys cancel out: over the motions of a frame, the sprite shifts
/// along x by the number of held D keys less the held A keys, along y by the
/// held W keys less the held S keys, and turns by the held Q keys less the
/// held E keys.
pub proof fn lemma_frame_net_motion(input: KeyInput)
    ensures
        net_shift(frame_motions(input)) == (count(input.d) - count(input.a), count(input.w)
            - count(input.s)),
        net_turn(frame_motions(input)) == count(input.q) - count(input.e),
        frame_motions(input).len() == count(input.w) + count(input.s) + count(input.a) + count(
            input.d,
        ) + count(input.q) + count(input.e),
{
    reveal_with_fuel(motions_for, 7);
    reveal_with_fuel(net_shift, 7);
    reveal_with_fuel(net_turn, 7);
    assert(key_order().drop_last().drop_last().drop_last().drop_last().drop_last().drop_last()
        =~= Seq::<ControlKey>::empty());
}

/// The per-frame steering of the player sprite.
pub struct Movement;

impl Movement {
    /// The motion that `key` asks for.
    pub fn motion(key: ControlKey) -> (r: Motion)
        ensures
            r == motion_of(key),
    {
        match key {
            ControlKey::W => Motion::Translate { dx: 0, dy: 1 },
            ControlKey::S => Motion::Translate { dx: 0, dy: -1 },
            ControlKey::A => Motion::Translate { dx: -1, dy: 0 },
            ControlKey::D => Motion::Translate { dx: 1, dy: 0 },
            ControlKey::Q => Motion::Turn { sign: 1 },
            ControlKey::E => Motion::Turn { sign: -1 },
        }
    }

    /// The motions to apply to the player sprite in a frame with `input`:
    /// one for each held key, in the order W, S, A, D, Q, E.
    pub fn frame_motions(input: &KeyInput) -> (r: Vec<Motion>)
        ensures
            r@ == frame_motions(*input),
    {
        let keys = ControlKey::all();
        let mut r: Vec<Motion> = Vec::new();
        let mut i: usize = 0;
        while i < keys.len()
            invariant
                keys@ == key_order(),
                i <= keys@.len(),
                r@ == motions_for(*input, keys@.take(i as int)),
            decreases keys@.len() - i,
        {
            let key = keys[i];
            assert(keys@.take(i as int + 1).drop_last() =~= keys@.take(i as int));
            if input.is_pressed(key) {
                r.push(Movement::motion(key));
            }
            i = i + 1;
        }
        assert(keys@.take(keys@.len() as int) =~= keys@);
        r
    }
}

} // verus!
