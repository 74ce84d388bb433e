use vstd::prelude::*;
use crate::input::KeyInput;
use crate::movement::{Motion, Movement, frame_motions};

verus! {

/// One step of a frame, carried out by the engine in the order given.
#[derive(PartialEq, Eq, Structural, Clone, Copy, Debug)]
pub enum FrameAction {
    /// The player sprite is not in the scene: the frame stops here.
    PlayerMissing,
    /// Apply a motion to the player sprite.
    Apply(Motion),
    /// Advance the decorative object's spin by the frame time.
    SpinDecor,
    /// The decorative object is not in the scene: warn and go on.
    WarnDecorMissing,
    /// Query the engine for the player sprite's collisions and report them.
    QueryCollisions,
    /// Advance the engine by one tick.
    Tick,
}

/// What a frame does with the decorative object.
pub open spec fn decor_action(decor_found: bool) -> FrameAction {
    if decor_found {
        FrameAction::SpinDecor
    } else {
        FrameAction::WarnDecorMissing
    }
}

/// The steps of a frame: without the player sprite the frame stops at once;
/// otherwise the player's motions for the held keys, then the decorative
/// object's spin or a warning, the collision query, and the tick.
pub open spec fn frame_plan(input: KeyInput, player_found: bool, decor_found: bool) -> Seq<
    FrameAction,
> {
    if !player_found {
        seq![FrameAction::PlayerMissing]
    } else {
        frame_motions(input).map_values(|m: Motion| FrameAction::Apply(m)) + seq![
            decor_action(decor_found),
            FrameAction::QueryCollisions,
            FrameAction::Tick,
        ]
    }
}

/// The steps of a frame in which `input` is held, and in which the player
/// sprite and the decorative object were or were not found.
pub fn frame_actions(input: &KeyInput, player_found: bool, decor_found: bool) -> (r: Vec<
    FrameAction,
>)
    ensures
        r@ == frame_plan(*input, player_found, decor_found),
{
    let mut r: Vec<FrameAction> = Vec::new();
    if !player_found {
        r.push(FrameAction::PlayerMissing);
        assert(r@ =~= frame_plan(*input, player_found, decor_found));
        return r;
    }
    let motions = Movement::frame_motions(input);
    let mut i: usize = 0;
    while i < motions.len()
        invariant
            i <= motions@.len(),
            r@ =~= motions@.take(i as int).map_values(|m: Motion| FrameAction::Apply(m)),
        decreases motions@.len() - i,
    {
        r.push(FrameAction::Apply(motions[i]));
        assert(motions@.take(i as int + 1) =~= motions@.take(i as int).push(motions@[i as int]));
        i = i + 1;
    }
    assert(motions@.take(motions@.len() as int) =~= motions@);
    if decor_found {
        r.push(FrameAction::SpinDecor);
    } else {
        r.push(FrameAction::WarnDecorMissing);
    }
    r.push(FrameAction::QueryCollisions);
    r.push(FrameAction::Tick);
    assert(r@ =~= frame_plan(*input, player_found, decor_found));
    r
}

/// Order of a frame with the player sprite present: every motion comes
/// first, then exactly one step for the decorative object (a spin if it was
/// found, else a warning, after which the frame goes on), then the single
/// collision query, and the tick comes last. No step stops the frame.
pub proof fn lemma_frame_order(input: KeyInput, decor_found: bool)
    ensures
        ({
            let p = frame_plan(input, true, decor_found);
            let n = frame_motions(input).len() as int;
            &&& p.len() == n + 3
            &&& forall|i: int| 0 <= i < n ==> p[i] == FrameAction::Apply(frame_motions(input)[i])
            &&& p[n] == (if decor_found {
                FrameAction::SpinDecor
            } else {
                FrameAction::WarnDecorMissing
            })
            &&& p[n + 1] == FrameAction::QueryCollisions
            &&& p[n + 2] == FrameAction::Tick
            &&& forall|i: int| 0 <= i < p.len() ==> p[i] != FrameAction::PlayerMissing
        }),
{
    let p = frame_plan(input, true, decor_found);
    let n = frame_motions(input).len() as int;
    assert forall|i: int| 0 <= i < p.len() implies p[i] != FrameAction::PlayerMissing by {
        if i < n {
            assert(p[i] == FrameAction::Apply(frame_motions(input)[i]));
        }
    }
}

/// Without the player sprite a frame does nothing but stop.
pub proof fn lemma_frame_without_player(input: KeyInput, decor_found: bool)
    ensures
        frame_plan(input, false, decor_found) == seq![FrameAction::PlayerMissing],
{
}

} // verus!
