//! The transform of a game object: its descriptor, three sequences of numbers
//! as read from text, and its domain form, three 3-vectors.
//!
//! A coordinate is held as the IEEE-754 binary64 bit pattern of the number:
//! the pipeline copies coordinates and never computes with them.

use vstd::prelude::*;
use crate::error::{ErrorKind, LevelParserError};

verus! {

/// A 3-vector; each component is the bit pattern of a binary64 number.
#[derive(Clone, Copy, Debug, PartialEq, Eq, Structural)]
pub struct Vector3 {
    pub x: u64,
    pub y: u64,
    pub z: u64,
}

/// The components of `v`, in order.
pub open spec fn components(v: Vector3) -> Seq<u64> {
    seq![v.x, v.y, v.z]
}

/// The vector whose components are the three elements of `s`.
pub open spec fn vector_of(s: Seq<u64>) -> Vector3
    recommends
        s.len() == 3,
{
    Vector3 { x: s[0], y: s[1], z: s[2] }
}

/// A 3-vector read from a sequence of three gives that sequence back.
pub proof fn lemma_components_of_vector(s: Seq<u64>)
    requires
        s.len() == 3,
    ensures
        components(vector_of(s)) == s,
{
    assert(components(vector_of(s)) =~= s);
}

impl Vector3 {
    /// The vector made of the elements of `s`, when `s` has exactly three.
    pub fn from_slice(s: &[u64]) -> (r: Option<Vector3>)
        ensures
            r.is_some() <==> s@.len() == 3,
            r.is_some() ==> r.unwrap() == vector_of(s@),
    {
        if s.len() == 3 {
            Some(Vector3 { x: s[0], y: s[1], z: s[2] })
        } else {
            None
        }
    }

    /// The components of the vector, in order.
    pub fn to_vec(&self) -> (r: Vec<u64>)
        ensures
            r@ == components(*self),
    {
        let r = vec![self.x, self.y, self.z];
        assert(r@ =~= components(*self));
        r
    }
}

/// The domain transform of a game object.
#[derive(Clone, Copy, Debug, PartialEq, Eq, Structural)]
pub struct Transform {
    pub position: Vector3,
    pub rotation: Vector3,
    pub scale: Vector3,
}

/// What a transform descriptor holds.
pub struct TransformModel {
    pub position: Seq<u64>,
    pub rotation: Seq<u64>,
    pub scale: Seq<u64>,
}

impl TransformModel {
    /// Each of the three sequences is a 3-vector.
    pub open spec fn is_valid(self) -> bool {
        &&& self.position.len() == 3
        &&& self.rotation.len() == 3
        &&& self.scale.len() == 3
    }

    /// The first of the three sequences, in the order position, rotation,
    /// scale, that is not a 3-vector.
    pub open spec fn first_invalid_field(self) -> Seq<char> {
        if self.position.len() != 3 {
            "transform.position"@
        } else if self.rotation.len() != 3 {
            "transform.rotation"@
        } else {
            "transform.scale"@
        }
    }
}

/// The domain transform that a valid descriptor describes.
pub open spec fn transform_of(m: TransformModel) -> Transform {
    Transform {
        position: vector_of(m.position),
        rotation: vector_of(m.rotation),
        scale: vector_of(m.scale),
    }
}

/// The descriptor contents of a domain transform.
pub open spec fn transform_model_of(t: Transform) -> TransformModel {
    TransformModel {
        position: components(t.position),
        rotation: components(t.rotation),
        scale: components(t.scale),
    }
}

/// The descriptor of a transform: three sequences of coordinates, which are
/// 3-vectors in a valid descriptor.
#[derive(Debug)]
pub struct TransformDescription {
    position: Vec<u64>,
    rotation: Vec<u64>,
    scale: Vec<u64>,
}

impl View for TransformDescription {
    type V = TransformModel;

    closed spec fn view(&self) -> TransformModel {
        TransformModel { position: self.position@, rotation: self.rotation@, scale: self.scale@ }
    }
}

impl TransformDescription {
    /// A descriptor holding the three given sequences.
    pub fn new(position: Vec<u64>, rotation: Vec<u64>, scale: Vec<u64>) -> (r: Self)
        ensures
            r@ == (TransformModel { position: position@, rotation: rotation@, scale: scale@ }),
    {
        TransformDescription { position, rotation, scale }
    }

    /// The descriptor whose three sequences are all empty.
    pub fn empty() -> (r: Self)
        ensures
            r@ == (TransformModel { position: Seq::empty(), rotation: Seq::empty(), scale: Seq::empty() }),
    {
        let r = TransformDescription { position: Vec::new(), rotation: Vec::new(), scale: Vec::new() };
        assert(r@.position =~= Seq::<u64>::empty());
        r
    }

    pub fn position(&self) -> (r: &[u64])
        ensures
            r@ == self@.position,
    {
        self.position.as_slice()
    }

    pub fn rotation(&self) -> (r: &[u64])
        ensures
            r@ == self@.rotation,
    {
        self.rotation.as_slice()
    }

    pub fn scale(&self) -> (r: &[u64])
        ensures
            r@ == self@.scale,
    {
        self.scale.as_slice()
    }

    /// A descriptor equal to this one.
    pub fn duplicate(&self) -> (r: Self)
        ensures
            r@ == self@,
    {
        TransformDescription {
            position: self.position.clone(),
            rotation: self.rotation.clone(),
            scale: self.scale.clone(),
        }
    }

    /// Whether each of the three sequences is a 3-vector.
    pub fn is_valid(&self) -> (r: bool)
        ensures
            r == self@.is_valid(),
    {
        self.position.len() == 3 && self.rotation.len() == 3 && self.scale.len() == 3
    }

    /// The descriptor of the domain transform `t`.
    pub fn from_transform(t: &Transform) -> (r: Self)
        ensures
            r@ == transform_model_of(*t),
    {
        TransformDescription {
            position: t.position.to_vec(),
            rotation: t.rotation.to_vec(),
            scale: t.scale.to_vec(),
        }
    }
}

impl Transform {
    /// The domain transform that `d` describes. A sequence that is not a
    /// 3-vector is rejected with a deserialization error naming it.
    pub fn from_description(d: &TransformDescription) -> (r: Result<Transform, LevelParserError>)
        ensures
            r.is_ok() <==> d@.is_valid(),
            r.is_ok() ==> r.unwrap() == transform_of(d@),
            r.is_err() ==> r.unwrap_err().kind() == ErrorKind::Deserialization,
            r.is_err() ==> r.unwrap_err().description_view() == d@.first_invalid_field(),
    {
        let position = Vector3::from_slice(d.position());
        let rotation = Vector3::from_slice(d.rotation());
        let scale = Vector3::from_slice(d.scale());
        match (position, rotation, scale) {
            (Some(position), Some(rotation), Some(scale)) => Ok(Transform { position, rotation, scale }),
            (None, _, _) => Err(LevelParserError::invalid_field("transform.position")),
            (_, None, _) => Err(LevelParserError::invalid_field("transform.rotation")),
            _ => Err(LevelParserError::invalid_field("transform.scale")),
        }
    }
}

/// A domain transform survives the trip through its descriptor.
pub proof fn lemma_transform_round_trip(t: Transform)
    ensures
        transform_model_of(t).is_valid(),
        transform_of(transform_model_of(t)) == t,
{
}

} // verus!
