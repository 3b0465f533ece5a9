//! The bare physical entity a brain is attached to.

use vstd::prelude::*;

verus! {

/// Identity of one entity: its id, its declared type and a state label.
#[derive(Clone, Debug)]
pub struct Entity {
    pub id: u64,
    pub entity_type: String,
    pub state: String,
}

impl Entity {
    /// A fresh entity, active from the start.
    pub fn new(id: u64, entity_type: String) -> (r: Entity)
        ensures
            r.id == id,
            r.entity_type == entity_type,
            r.state@ == "active"@,
    {
        Entity { id, entity_type, state: "active".to_owned() }
    }
}

} // verus!
