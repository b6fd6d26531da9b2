//! What every game-object descriptor shape offers: an identifier, a transform
//! and an optional mesh.

use vstd::prelude::*;
use crate::gameobject_builder::GameObjectBuilder;
use crate::gameobject_description::{mesh_model, GameObjectDescription, GameObjectModel};
use crate::mesh_description::MeshDescription;
use crate::transform_description::TransformDescription;

verus! {

pub trait Descriptor {
    /// What the descriptor holds.
    spec fn model(&self) -> GameObjectModel;

    fn id(&self) -> (r: &str)
        ensures
            r@ == self.model().id;

    fn transform_description(&self) -> (r: &TransformDescription)
        ensures
            r@ == self.model().transform;

    fn mesh_description(&self) -> (r: &Option<MeshDescription>)
        ensures
            mesh_model(*r) == self.model().mesh;
}

impl Descriptor for GameObjectDescription {
    open spec fn model(&self) -> GameObjectModel {
        self@
    }

    fn id(&self) -> (r: &str) {
        GameObjectDescription::id(self)
    }

    fn transform_description(&self) -> (r: &TransformDescription) {
        self.transform()
    }

    fn mesh_description(&self) -> (r: &Option<MeshDescription>) {
        self.mesh()
    }
}

impl Descriptor for GameObjectBuilder {
    open spec fn model(&self) -> GameObjectModel {
        self@
    }

    fn id(&self) -> (r: &str) {
        GameObjectBuilder::id(self)
    }

    fn transform_description(&self) -> (r: &TransformDescription) {
        self.transform()
    }

    fn mesh_description(&self) -> (r: &Option<MeshDescription>) {
        self.mesh()
    }
}

} // verus!
