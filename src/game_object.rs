use vstd::prelude::*;

verus! {

/// Id carried by a game object that no scene has registered yet.
pub const UNREGISTERED_ID: i64 = -1;

/// Public handle of a scene entity: the scene finds its components by `id`.
pub struct GameObject {
    pub is_active: bool,
    pub is_loaded: bool,
    pub id: i64,
}

impl GameObject {
    /// An active, not yet loaded object that belongs to no scene.
    pub fn new() -> (r: Self)
        ensures
            r.is_active,
            !r.is_loaded,
            r.id == UNREGISTERED_ID,
    {
        GameObject { is_active: true, is_loaded: false, id: UNREGISTERED_ID }
    }

    pub fn is_active(&self) -> (r: bool)
        ensures
            r == self.is_active,
    {
        self.is_active
    }

    pub fn get_id(&self) -> (r: i64)
        ensures
            r == self.id,
    {
        self.id
    }

    pub fn set_id(&mut self, new_id: i64)
        ensures
            final(self).id == new_id,
            final(self).is_active == old(self).is_active,
            final(self).is_loaded == old(self).is_loaded,
    {
        self.id = new_id;
    }
}

} // verus!
