//! A builder for game-object descriptors: an identifier first, then a
//! transform and a mesh, each replacing what was set before.

use vstd::prelude::*;
use crate::gameobject_description::{duplicate_mesh, mesh_model, GameObjectDescription, GameObjectModel};
use crate::mesh_description::MeshDescription;
use crate::transform_description::{TransformDescription, TransformModel};

verus! {

#[derive(Debug)]
pub struct GameObjectBuilder {
    id: String,
    transform: TransformDescription,
    mesh: Option<MeshDescription>,
}

impl View for GameObjectBuilder {
    type V = GameObjectModel;

    closed spec fn view(&self) -> GameObjectModel {
        GameObjectModel { id: self.id@, transform: self.transform@, mesh: mesh_model(self.mesh) }
    }
}

impl GameObjectBuilder {
    /// A builder for the object `id`, with empty transform sequences and no
    /// mesh.
    pub fn new(id: &str) -> (r: Self)
        ensures
            r@ == (GameObjectModel {
                id: id@,
                transform: TransformModel { position: Seq::empty(), rotation: Seq::empty(), scale: Seq::empty() },
                mesh: None,
            }),
    {
        GameObjectBuilder { id: id.to_owned(), transform: TransformDescription::empty(), mesh: None }
    }

    /// Sets the transform.
    pub fn add_transform(&mut self, transform: TransformDescription) -> (r: &mut Self)
        ensures
            r@ == (GameObjectModel { transform: transform@, ..old(self)@ }),
            *final(self) == *final(r),
    {
        self.transform = transform;
        self
    }

    /// Sets the mesh, or removes it with `None`.
    pub fn add_mesh(&mut self, mesh: Option<MeshDescription>) -> (r: &mut Self)
        ensures
            r@ == (GameObjectModel { mesh: mesh_model(mesh), ..old(self)@ }),
            *final(self) == *final(r),
    {
        self.mesh = mesh;
        self
    }

    /// The descriptor built so far.
    pub fn build(&self) -> (r: GameObjectDescription)
        ensures
            r@ == self@,
    {
        GameObjectDescription::new(self.id.as_str(), self.transform.duplicate(), duplicate_mesh(&self.mesh))
    }

    /// The path of the mesh asset, when a mesh is set.
    pub fn get_mesh_resource(&self) -> (r: Option<String>)
        ensures
            r.is_some() == self@.mesh.is_some(),
            r.is_some() ==> r.unwrap()@ == self@.mesh.unwrap(),
    {
        match &self.mesh {
            Some(mesh) => Some(mesh.path().to_owned()),
            None => None,
        }
    }

    pub fn id(&self) -> (r: &str)
        ensures
            r@ == self@.id,
    {
        self.id.as_str()
    }

    pub fn transform(&self) -> (r: &TransformDescription)
        ensures
            r@ == self@.transform,
    {
        &self.transform
    }

    pub fn mesh(&self) -> (r: &Option<MeshDescription>)
        ensures
            mesh_model(*r) == self@.mesh,
    {
        &self.mesh
    }
}

} // verus!
