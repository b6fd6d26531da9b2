//! The descriptor of a game object: its identifier, which is also where its
//! descriptor file is stored, its transform and an optional mesh.

use vstd::prelude::*;
use crate::error::{ErrorKind, LevelParserError};
use crate::mesh_description::MeshDescription;
use crate::transform_description::{TransformDescription, TransformModel};

verus! {

/// What a game-object descriptor holds.
pub struct GameObjectModel {
    pub id: Seq<char>,
    pub transform: TransformModel,
    pub mesh: Option<Seq<char>>,
}

impl GameObjectModel {
    /// The identifier is not empty and the transform holds three 3-vectors.
    pub open spec fn is_valid(self) -> bool {
        self.id.len() > 0 && self.transform.is_valid()
    }

    /// The first field of an invalid descriptor that breaks the invariant.
    pub open spec fn first_invalid_field(self) -> Seq<char> {
        if self.id.len() == 0 {
            "id"@
        } else {
            self.transform.first_invalid_field()
        }
    }
}

/// The path that an optional mesh descriptor names.
pub open spec fn mesh_model(m: Option<MeshDescription>) -> Option<Seq<char>> {
    match m {
        Some(d) => Some(d@),
        None => None,
    }
}

/// A copy of an optional mesh descriptor.
pub fn duplicate_mesh(m: &Option<MeshDescription>) -> (r: Option<MeshDescription>)
    ensures
        mesh_model(r) == mesh_model(*m),
{
    match m {
        Some(d) => Some(d.duplicate()),
        None => None,
    }
}

/// A game-object descriptor, a value record as built or as decoded. Whether
/// it meets the invariant (`GameObjectModel::is_valid`) is checked where text
/// becomes descriptors, by `validate`, and by the resolver.
#[derive(Debug)]
pub struct GameObjectDescription {
    id: String,
    transform: TransformDescription,
    mesh: Option<MeshDescription>,
}

impl View for GameObjectDescription {
    type V = GameObjectModel;

    closed spec fn view(&self) -> GameObjectModel {
        GameObjectModel { id: self.id@, transform: self.transform@, mesh: mesh_model(self.mesh) }
    }
}

impl GameObjectDescription {
    /// A descriptor made of the given fields.
    pub fn new(id: &str, transform: TransformDescription, mesh: Option<MeshDescription>) -> (r: Self)
        ensures
            r@ == (GameObjectModel { id: id@, transform: transform@, mesh: mesh_model(mesh) }),
    {
        GameObjectDescription { id: id.to_owned(), transform, mesh }
    }

    pub fn id(&self) -> (r: &str)
        ensures
            r@ == self@.id,
    {
        self.id.as_str()
    }

    pub fn transform(&self) -> (r: &TransformDescription)
        ensures
            r@ == self@.transform,
    {
        &self.transform
    }

    pub fn mesh(&self) -> (r: &Option<MeshDescription>)
        ensures
            mesh_model(*r) == self@.mesh,
    {
        &self.mesh
    }

    /// A descriptor equal to this one.
    pub fn duplicate(&self) -> (r: Self)
        ensures
            r@ == self@,
    {
        GameObjectDescription {
            id: self.id.clone(),
            transform: self.transform.duplicate(),
            mesh: duplicate_mesh(&self.mesh),
        }
    }

    /// Whether the identifier is not empty and the transform holds three
    /// 3-vectors.
    pub fn is_valid(&self) -> (r: bool)
        ensures
            r == self@.is_valid(),
    {
        !self.id.as_str().is_empty() && self.transform.is_valid()
    }

    /// The descriptor itself when it is valid; otherwise a deserialization
    /// error naming the first field that breaks the invariant.
    pub fn validate(self) -> (r: Result<Self, LevelParserError>)
        ensures
            r.is_ok() <==> self@.is_valid(),
            r.is_ok() ==> r.unwrap()@ == self@,
            r.is_err() ==> r.unwrap_err().kind() == ErrorKind::Deserialization,
            r.is_err() ==> r.unwrap_err().description_view() == self@.first_invalid_field(),
    {
        if self.id.as_str().is_empty() {
            Err(LevelParserError::invalid_field("id"))
        } else if self.transform.position().len() != 3 {
            Err(LevelParserError::invalid_field("transform.position"))
        } else if self.transform.rotation().len() != 3 {
            Err(LevelParserError::invalid_field("transform.rotation"))
        } else if self.transform.scale().len() != 3 {
            Err(LevelParserError::invalid_field("transform.scale"))
        } else {
            Ok(self)
        }
    }
}

} // verus!
