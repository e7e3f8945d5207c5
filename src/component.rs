use vstd::prelude::*;

verus! {

/// The kinds of component that a scene entity can carry.
#[derive(PartialEq, Eq, Structural, Clone, Copy, Debug)]
pub enum ComponentType {
    GraphicComponent,
    Transform,
}

/// Behaviour shared by every component attached to a scene entity.
pub trait ComponentTrait {
    fn is_active(&self) -> bool;

    fn set_active(&mut self, activation: bool);

    fn component_type(&self) -> ComponentType;
}

} // verus!
