//! The descriptor of a level: its title, which is also where its descriptor
//! file is stored, and the ordered paths of its game-object descriptor files.
//! Paths may repeat; order is kept.

use vstd::prelude::*;

verus! {

/// What a level descriptor holds.
pub struct LevelModel {
    pub title: Seq<char>,
    pub gameobjects: Seq<Seq<char>>,
}

/// The views of a sequence of strings.
pub open spec fn string_views(s: Seq<String>) -> Seq<Seq<char>> {
    s.map_values(|p: String| p@)
}

#[derive(Debug)]
pub struct LevelDescription {
    title: String,
    gameobjects: Vec<String>,
}

impl View for LevelDescription {
    type V = LevelModel;

    closed spec fn view(&self) -> LevelModel {
        LevelModel { title: self.title@, gameobjects: string_views(self.gameobjects@) }
    }
}

impl LevelDescription {
    /// A level descriptor with the given title and no game object.
    pub fn new(title: &str) -> (r: Self)
        ensures
            r@ == (LevelModel { title: title@, gameobjects: Seq::empty() }),
    {
        let r = LevelDescription { title: title.to_owned(), gameobjects: Vec::new() };
        assert(r@.gameobjects =~= Seq::<Seq<char>>::empty());
        r
    }

    /// A level descriptor with the given title and game-object paths.
    pub fn from_parts(title: &str, gameobjects: Vec<String>) -> (r: Self)
        ensures
            r@ == (LevelModel { title: title@, gameobjects: string_views(gameobjects@) }),
    {
        LevelDescription { title: title.to_owned(), gameobjects }
    }

    /// Appends the path of a game-object descriptor file.
    pub fn add_gameobject(&mut self, path: &str) -> (r: &mut Self)
        ensures
            r@ == (LevelModel { title: old(self)@.title, gameobjects: old(self)@.gameobjects.push(path@) }),
            *final(self) == *final(r),
    {
        self.gameobjects.push(path.to_owned());
        assert(string_views(self.gameobjects@) =~= string_views(old(self).gameobjects@).push(path@));
        self
    }

    pub fn title(&self) -> (r: &str)
        ensures
            r@ == self@.title,
    {
        self.title.as_str()
    }

    /// The game-object paths, in order.
    pub fn slice(&self) -> (r: &[String])
        ensures
            string_views(r@) == self@.gameobjects,
    {
        self.gameobjects.as_slice()
    }

    /// The number of game-object paths.
    pub fn len(&self) -> (r: usize)
        ensures
            r == self@.gameobjects.len(),
    {
        self.gameobjects.len()
    }

    /// The game-object path at `index`.
    pub fn gameobject(&self, index: usize) -> (r: &str)
        requires
            index < self@.gameobjects.len(),
        ensures
            r@ == self@.gameobjects[index as int],
    {
        self.gameobjects[index].as_str()
    }
}

} // verus!
