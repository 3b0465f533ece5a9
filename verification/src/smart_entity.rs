//! An entity together with its brain.

use vstd::prelude::*;
use crate::brain::{EntityBrain, spec_new_brain, spec_stats};
use crate::entity::Entity;

verus! {

/// A physical entity paired with the learning state that drives it.
pub struct SmartEntity {
    pub physical: Entity,
    pub brain: EntityBrain,
}

impl SmartEntity {
    /// A fresh entity of the given type with a default brain.
    pub fn new(id: u64, entity_type: String, now: u64) -> (r: SmartEntity)
        ensures
            r.physical.id == id,
            r.physical.entity_type == entity_type,
            r.brain@ == spec_new_brain(id, now),
            r.brain@.wf(),
    {
        SmartEntity { physical: Entity::new(id, entity_type), brain: EntityBrain::new(id, now) }
    }

    /// The brain's confidence-scaled stat snapshot, in millionths.
    pub fn get_enhanced_stats(&self) -> (r: Vec<(String, u64)>)
        requires
            self.brain@.wf(),
        ensures
            r@.map_values(|p: (String, u64)| (p.0@, p.1)) == spec_stats(self.brain@),
    {
        self.brain.get_stats()
    }
}

} // verus!
