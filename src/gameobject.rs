//! The domain game object, built from a descriptor and flattened back into
//! one.

use vstd::prelude::*;
use crate::error::{ErrorKind, LevelParserError};
use crate::gameobject_description::{GameObjectDescription, GameObjectModel};
use crate::gltf_resource::GltfResource;
use crate::mesh_description::MeshDescription;
use crate::transform_description::{
    lemma_components_of_vector, transform_model_of, transform_of, Transform, TransformDescription,
};

verus! {

/// What a domain game object holds, its decoded mesh seen through the path it
/// was read from.
pub struct GameObjectView {
    pub id: Seq<char>,
    pub transform: Transform,
    pub mesh: Option<Seq<char>>,
}

/// The path an optional decoded mesh was read from.
pub open spec fn resource_model(m: Option<GltfResource>) -> Option<Seq<char>> {
    match m {
        Some(r) => Some(r@),
        None => None,
    }
}

/// The domain object that a valid descriptor describes, once its mesh, if it
/// names one, has been decoded.
pub open spec fn object_of(d: GameObjectModel) -> GameObjectView {
    GameObjectView { id: d.id, transform: transform_of(d.transform), mesh: d.mesh }
}

/// The descriptor of a domain object.
pub open spec fn description_of(g: GameObjectView) -> GameObjectModel {
    GameObjectModel { id: g.id, transform: transform_model_of(g.transform), mesh: g.mesh }
}

#[derive(Debug)]
pub struct GameObject {
    id: String,
    transform: Transform,
    mesh: Option<GltfResource>,
}

impl View for GameObject {
    type V = GameObjectView;

    closed spec fn view(&self) -> GameObjectView {
        GameObjectView { id: self.id@, transform: self.transform, mesh: resource_model(self.mesh) }
    }
}

impl GameObject {
    pub fn new(id: &str, transform: Transform, mesh: Option<GltfResource>) -> (r: Self)
        ensures
            r@ == (GameObjectView { id: id@, transform, mesh: resource_model(mesh) }),
    {
        GameObject { id: id.to_owned(), transform, mesh }
    }

    /// The domain object that `description` describes, with `mesh` as its
    /// mesh, decoded from the path the descriptor names. An invalid
    /// descriptor is rejected with a deserialization error naming the first
    /// field that breaks the invariant.
    pub fn from_gameobject_description(
        description: &GameObjectDescription,
        mesh: Option<GltfResource>,
    ) -> (r: Result<Self, LevelParserError>)
        requires
            resource_model(mesh) == description@.mesh,
        ensures
            r.is_ok() <==> description@.is_valid(),
            r.is_ok() ==> r.unwrap()@ == object_of(description@),
            r.is_err() ==> r.unwrap_err().kind() == ErrorKind::Deserialization,
            r.is_err() ==> r.unwrap_err().description_view() == description@.first_invalid_field(),
    {
        if description.id().is_empty() {
            return Err(LevelParserError::invalid_field("id"));
        }
        match Transform::from_description(description.transform()) {
            Ok(transform) => Ok(GameObject::new(description.id(), transform, mesh)),
            Err(e) => Err(e),
        }
    }

    /// The descriptor of this object: its identifier, its transform, and the
    /// path of its mesh.
    pub fn to_description(&self) -> (r: GameObjectDescription)
        ensures
            r@ == description_of(self@),
    {
        let mesh = match &self.mesh {
            Some(m) => Some(MeshDescription::new(m.id())),
            None => None,
        };
        GameObjectDescription::new(self.id.as_str(), TransformDescription::from_transform(&self.transform), mesh)
    }

    /// The identifier, which is also the path of the object's descriptor file.
    pub fn id(&self) -> (r: &str)
        ensures
            r@ == self@.id,
    {
        self.id.as_str()
    }

    pub fn transform(&self) -> (r: &Transform)
        ensures
            *r == self@.transform,
    {
        &self.transform
    }

    pub fn mesh(&self) -> (r: &Option<GltfResource>)
        ensures
            resource_model(*r) == self@.mesh,
    {
        &self.mesh
    }
}

/// Building a domain object from a valid descriptor, with the mesh decoded
/// from the path the descriptor names, and flattening it back gives the
/// descriptor again.
pub proof fn lemma_description_round_trip(d: GameObjectModel)
    requires
        d.is_valid(),
    ensures
        description_of(object_of(d)) == d,
{
    lemma_components_of_vector(d.transform.position);
    lemma_components_of_vector(d.transform.rotation);
    lemma_components_of_vector(d.transform.scale);
}

} // verus!
