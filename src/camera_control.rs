use vstd::prelude::*;
use vstd::std_specs::hash::obeys_key_model;
use std::hash::Hash;
use crate::input::KeyboardState;

verus! {

/// A world axis.
#[derive(PartialEq, Eq, Structural, Clone, Copy, Debug)]
pub enum Axis {
    X,
    Y,
    Z,
}

/// One step along (or about) an axis, in its positive or negative direction.
/// The caller scales it by its movement or rotation speed.
#[derive(PartialEq, Eq, Structural, Clone, Copy, Debug)]
pub struct AxisStep {
    pub axis: Axis,
    pub positive: bool,
}

/// What the camera is to do this frame.
#[derive(PartialEq, Eq, Structural, Clone, Copy, Debug)]
pub enum CamInstr {
    Skip,
    PrintTransform,
    Move(AxisStep),
    Rotate(AxisStep),
}

/// The keys that drive the camera.
#[derive(Clone, Copy, Debug)]
pub struct CameraKeys<K> {
    pub pitch_up: K,
    pub pitch_down: K,
    pub yaw_left: K,
    pub yaw_right: K,
    pub right: K,
    pub left: K,
    pub up: K,
    pub down: K,
    pub forward: K,
    pub backward: K,
    pub print: K,
}

/// The step along `axis` in the given direction.
pub open spec fn step(axis: Axis, positive: bool) -> AxisStep {
    AxisStep { axis, positive }
}

impl<K> CameraKeys<K> {
    /// Each key with the instruction it gives, in the order in which the
    /// instructions are issued.
    pub open spec fn spec_bindings(&self) -> Seq<(K, CamInstr)> {
        seq![
            (self.pitch_up, CamInstr::Rotate(step(Axis::X, true))),
            (self.pitch_down, CamInstr::Rotate(step(Axis::X, false))),
            (self.yaw_left, CamInstr::Rotate(step(Axis::Y, true))),
            (self.yaw_right, CamInstr::Rotate(step(Axis::Y, false))),
            (self.right, CamInstr::Move(step(Axis::X, true))),
            (self.left, CamInstr::Move(step(Axis::X, false))),
            (self.up, CamInstr::Move(step(Axis::Y, true))),
            (self.down, CamInstr::Move(step(Axis::Y, false))),
            (self.forward, CamInstr::Move(step(Axis::Z, true))),
            (self.backward, CamInstr::Move(step(Axis::Z, false))),
            (self.print, CamInstr::PrintTransform),
        ]
    }
}

impl<K: Copy> CameraKeys<K> {
    pub fn bindings(&self) -> (r: Vec<(K, CamInstr)>)
        ensures
            r@ == self.spec_bindings(),
    {
        let r = vec![
            (self.pitch_up, CamInstr::Rotate(AxisStep { axis: Axis::X, positive: true })),
            (self.pitch_down, CamInstr::Rotate(AxisStep { axis: Axis::X, positive: false })),
            (self.yaw_left, CamInstr::Rotate(AxisStep { axis: Axis::Y, positive: true })),
            (self.yaw_right, CamInstr::Rotate(AxisStep { axis: Axis::Y, positive: false })),
            (self.right, CamInstr::Move(AxisStep { axis: Axis::X, positive: true })),
            (self.left, CamInstr::Move(AxisStep { axis: Axis::X, positive: false })),
            (self.up, CamInstr::Move(AxisStep { axis: Axis::Y, positive: true })),
            (self.down, CamInstr::Move(AxisStep { axis: Axis::Y, positive: false })),
            (self.forward, CamInstr::Move(AxisStep { axis: Axis::Z, positive: true })),
            (self.backward, CamInstr::Move(AxisStep { axis: Axis::Z, positive: false })),
            (self.print, CamInstr::PrintTransform),
        ];
        assert(r@ =~= self.spec_bindings());
        r
    }
}

/// The instructions of the bindings whose key is held, in binding order.
pub open spec fn held_instrs<K>(bindings: Seq<(K, CamInstr)>, held: Set<K>) -> Seq<CamInstr>
    decreases bindings.len(),
{
    if bindings.len() == 0 {
        Seq::empty()
    } else {
        let prev = held_instrs(bindings.drop_last(), held);
        if held.contains(bindings.last().0) {
            prev.push(bindings.last().1)
        } else {
            prev
        }
    }
}

/// The camera instructions for this frame: one for each bound key that is
/// held down, in the order of `CameraKeys::spec_bindings`.
pub fn get_camera_instr<K: Hash + Eq + Copy>(
    keyboard_state: &KeyboardState<K>,
    keys: &CameraKeys<K>,
) -> (r: Vec<CamInstr>)
    ensures
        obeys_key_model::<K>() ==> r@ == held_instrs(keys.spec_bindings(), keyboard_state@),
{
    let bindings = keys.bindings();
    let mut r: Vec<CamInstr> = Vec::new();
    let mut i: usize = 0;
    while i < bindings.len()
        invariant
            i <= bindings@.len(),
            bindings@ == keys.spec_bindings(),
            obeys_key_model::<K>() ==> r@ == held_instrs(bindings@.take(i as int), keyboard_state@),
        decreases bindings@.len() - i,
    {
        let (key, instr) = bindings[i];
        proof {
            assert(bindings@.take(i + 1).drop_last() =~= bindings@.take(i as int));
        }
        if keyboard_state.is_pressed(key) {
            r.push(instr);
        }
        i = i + 1;
    }
    proof {
        assert(bindings@.take(i as int) =~= bindings@);
    }
    r
}

} // verus!
