//! The descriptor of a mesh: the path of the binary asset file that holds it.

use vstd::prelude::*;

verus! {

#[derive(Debug)]
pub struct MeshDescription {
    path: String,
}

impl View for MeshDescription {
    type V = Seq<char>;

    closed spec fn view(&self) -> Seq<char> {
        self.path@
    }
}

impl MeshDescription {
    /// A mesh descriptor naming the asset file at `path`.
    pub fn new(path: &str) -> (r: Self)
        ensures
            r@ == path@,
    {
        MeshDescription { path: path.to_owned() }
    }

    /// The path of the asset file.
    pub fn path(&self) -> (r: &str)
        ensures
            r@ == self@,
    {
        self.path.as_str()
    }

    /// A descriptor equal to this one.
    pub fn duplicate(&self) -> (r: Self)
        ensures
            r@ == self@,
    {
        MeshDescription { path: self.path.clone() }
    }
}

} // verus!
