//! The domain mesh: a decoded and validated glTF asset, with the path it was
//! read from.

use vstd::prelude::*;
use crate::error::{ErrorKind, LevelParserError};

verus! {

/// gltf's decoded and validated asset, held opaque inside a domain mesh.
#[verifier::external_type_specification]
#[verifier::external_body]
pub struct ExGltf(gltf::Gltf);

/// Whether the decoder accepts `bytes` as a complete and valid glTF or GLB
/// asset; the verdict depends on the bytes alone.
pub uninterp spec fn gltf_accepts(bytes: Seq<u8>) -> bool;

/// Whether `bytes` open with a GLB header (the magic `glTF`, a version and a
/// total length, each little-endian `u32`) whose declared total length is
/// below the twelve bytes of the header itself.
pub open spec fn has_short_glb_header(bytes: Seq<u8>) -> bool {
    &&& bytes.len() >= 12
    &&& bytes[0] == 0x67u8 && bytes[1] == 0x6Cu8 && bytes[2] == 0x54u8 && bytes[3] == 0x46u8
    &&& bytes[8] < 12 && bytes[9] == 0 && bytes[10] == 0 && bytes[11] == 0
}

/// What gltf's parse of `bytes`, before any validation, holds of meshes: for
/// each primitive of each mesh, in order, the accessor index of its
/// `POSITION` attribute, if it has one, and the number of accessors. Nothing
/// when the bytes do not parse.
pub uninterp spec fn gltf_position_refs(bytes: Seq<u8>) -> Option<(Seq<Option<usize>>, usize)>;

/// Whether some primitive names a `POSITION` accessor that does not exist.
/// gltf's validation reads that accessor without a bounds check, so such an
/// asset is refused before validation.
pub open spec fn has_dangling_position(bytes: Seq<u8>) -> bool {
    match gltf_position_refs(bytes) {
        Some((refs, n)) => dangles(refs, n),
        None => false,
    }
}

/// Whether one of `refs` is an index that is not below `n`.
pub open spec fn dangles(refs: Seq<Option<usize>>, n: usize) -> bool {
    exists|i: int| 0 <= i < refs.len() && #[trigger] refs[i] is Some && refs[i].unwrap() >= n
}

pub open spec fn refs_view(r: Option<(Vec<Option<usize>>, usize)>) -> Option<(Seq<Option<usize>>, usize)> {
    match r {
        Some((refs, n)) => Some((refs@, n)),
        None => None,
    }
}

/// Whether `bytes` hold a mesh asset the library accepts: an asset that gltf
/// cannot be handed safely (a GLB header shorter than itself, a dangling
/// `POSITION` accessor) is refused, and the decoder decides the rest.
pub open spec fn mesh_accepted(bytes: Seq<u8>) -> bool {
    !has_short_glb_header(bytes) && !has_dangling_position(bytes) && gltf_accepts(bytes)
}

/// Relies on `gltf::Gltf::from_slice`, which parses a glTF or GLB asset from
/// bytes, then validates it, returning the asset or the error it met. It
/// panics on two kinds of input, both left out: a GLB header whose declared
/// length is below the header's own size (the subtraction in
/// `binary::Glb::from_slice` underflows), and a primitive whose `POSITION`
/// accessor index is out of bounds (`primitive_validate_hook` indexes
/// `root.accessors` directly).
#[verifier::external_body]
fn decode_gltf(bytes: &[u8]) -> (r: Result<gltf::Gltf, gltf::Error>)
    requires
        !has_short_glb_header(bytes@),
        !has_dangling_position(bytes@),
    ensures
        r.is_ok() == gltf_accepts(bytes@),
{
    gltf::Gltf::from_slice(bytes)
}

/// Relies on `gltf::Gltf::from_slice_without_validation`, the parsing step of
/// `gltf::Gltf::from_slice`, and on the `meshes`, `primitives`, `attributes`
/// and `accessors` fields of the parsed JSON root. The parse panics on a GLB
/// header shorter than itself, which is left out.
#[verifier::external_body]
fn position_refs(bytes: &[u8]) -> (r: Option<(Vec<Option<usize>>, usize)>)
    requires
        !has_short_glb_header(bytes@),
    ensures
        refs_view(r) == gltf_position_refs(bytes@),
{
    let asset = gltf::Gltf::from_slice_without_validation(bytes).ok()?;
    let root = asset.document.as_json();
    let position = gltf::json::validation::Checked::Valid(gltf::json::mesh::Semantic::Positions);
    let refs = root.meshes.iter().flat_map(|m| m.primitives.iter());
    Some((refs.map(|p| p.attributes.get(&position).map(|i| i.value())).collect(), root.accessors.len()))
}

/// Relies on `gltf::Error::Validation` and
/// `gltf::json::validation::Error::IndexOutOfBounds`, gltf's error for an
/// index that names nothing.
#[verifier::external_body]
fn index_out_of_bounds_error() -> gltf::Error {
    gltf::Error::Validation(vec![(gltf::json::Path::new(), gltf::json::validation::Error::IndexOutOfBounds)])
}

/// Relies on `gltf::Error::Binary` and `gltf::binary::Error::Length`, gltf's
/// error for a GLB header whose declared length does not fit the data.
#[verifier::external_body]
fn glb_length_error(length: u32, length_read: usize) -> gltf::Error {
    gltf::Error::Binary(gltf::binary::Error::Length { length, length_read })
}

/// Whether `bytes` open with a GLB header shorter than itself.
pub fn is_short_glb_header(bytes: &[u8]) -> (r: bool)
    ensures
        r == has_short_glb_header(bytes@),
{
    bytes.len() >= 12 && bytes[0] == 0x67u8 && bytes[1] == 0x6Cu8 && bytes[2] == 0x54u8 && bytes[3] == 0x46u8
        && bytes[8] < 12 && bytes[9] == 0 && bytes[10] == 0 && bytes[11] == 0
}

/// Whether one of `refs` is an index that is not below `n`.
pub fn has_dangling_ref(refs: &Vec<Option<usize>>, n: usize) -> (r: bool)
    ensures
        r == dangles(refs@, n),
{
    let len = refs.len();
    for i in 0..len
        invariant
            len == refs@.len(),
            forall|j: int| 0 <= j < i ==> !(#[trigger] refs@[j] is Some && refs@[j].unwrap() >= n),
    {
        match refs[i] {
            Some(k) => {
                if k >= n {
                    return true;
                }
            },
            None => {},
        }
    }
    false
}

/// What the decoder makes of `bytes`. An asset gltf cannot be handed safely
/// is refused with gltf's own error for it, without calling the decoder.
pub(crate) fn decode_mesh_bytes(bytes: &[u8]) -> (r: Result<gltf::Gltf, gltf::Error>)
    ensures
        r.is_ok() == mesh_accepted(bytes@),
{
    if is_short_glb_header(bytes) {
        return Err(glb_length_error(bytes[8] as u32, bytes.len() - 12));
    }
    match position_refs(bytes) {
        Some((refs, n)) => {
            if has_dangling_ref(&refs, n) {
                return Err(index_out_of_bounds_error());
            }
        },
        None => {},
    }
    decode_gltf(bytes)
}

#[derive(Debug)]
pub struct GltfResource {
    id: String,
    gltf_data: gltf::Gltf,
}

impl View for GltfResource {
    /// The path the asset was read from.
    type V = Seq<char>;

    closed spec fn view(&self) -> Seq<char> {
        self.id@
    }
}

impl GltfResource {
    /// The decoded asset held.
    pub closed spec fn data(&self) -> gltf::Gltf {
        self.gltf_data
    }

    pub fn new(path: &str, data: gltf::Gltf) -> (r: Self)
        ensures
            r@ == path@,
            r.data() == data,
    {
        GltfResource { id: path.to_owned(), gltf_data: data }
    }

    /// The mesh read from `path`, given what the decoder made of its bytes:
    /// the decoded asset, or an asset-decode error.
    pub fn from_decoded(path: &str, decoded: Result<gltf::Gltf, gltf::Error>) -> (r: Result<Self, LevelParserError>)
        ensures
            r.is_ok() <==> decoded.is_ok(),
            r.is_ok() ==> r.unwrap()@ == path@,
            r.is_ok() ==> r.unwrap().data() == decoded.unwrap(),
            r.is_err() ==> r.unwrap_err().kind() == ErrorKind::AssetDecode,
            r.is_err() ==> r.unwrap_err()->AssetDecodeError_1 == decoded.unwrap_err(),
            r.is_err() ==> r.unwrap_err().description_view() == "Error while manipulating gltf data."@,
    {
        match decoded {
            Ok(data) => Ok(GltfResource::new(path, data)),
            Err(e) => Err(LevelParserError::from_asset_decode(e)),
        }
    }

    /// Decodes and validates the asset held in `bytes`, read from `path`.
    pub fn decode(path: &str, bytes: &[u8]) -> (r: Result<Self, LevelParserError>)
        ensures
            r.is_ok() == mesh_accepted(bytes@),
            r.is_ok() ==> r.unwrap()@ == path@,
            r.is_err() ==> r.unwrap_err().kind() == ErrorKind::AssetDecode,
            r.is_err() ==> r.unwrap_err().description_view() == "Error while manipulating gltf data."@,
    {
        GltfResource::from_decoded(path, decode_mesh_bytes(bytes))
    }

    /// The path the asset was read from.
    pub fn id(&self) -> (r: &str)
        ensures
            r@ == self@,
    {
        self.id.as_str()
    }

    /// The decoded asset.
    pub fn gltf_data(&self) -> (r: &gltf::Gltf)
        ensures
            *r == self.data(),
    {
        &self.gltf_data
    }
}

} // verus!
