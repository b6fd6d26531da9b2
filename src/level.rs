//! The domain level: its title and its game objects, in order, and the
//! flattening of a level back into descriptors for saving.

use vstd::prelude::*;
use crate::gameobject::{description_of, GameObject, GameObjectView};
use crate::gameobject_description::{GameObjectDescription, GameObjectModel};
use crate::level_description::{string_views, LevelDescription, LevelModel};

verus! {

/// What a domain level holds.
pub struct LevelView {
    pub title: Seq<char>,
    pub gameobjects: Seq<GameObjectView>,
}

/// The views of a sequence of domain objects.
pub open spec fn object_views(s: Seq<GameObject>) -> Seq<GameObjectView> {
    s.map_values(|g: GameObject| g@)
}

/// The descriptor of a level: its title and the identifiers of its objects,
/// which are the paths their descriptors are saved to, in order.
pub open spec fn level_description_of(l: LevelView) -> LevelModel {
    LevelModel { title: l.title, gameobjects: l.gameobjects.map_values(|g: GameObjectView| g.id) }
}

#[derive(Debug)]
pub struct Level {
    title: String,
    gameobjects: Vec<GameObject>,
}

impl View for Level {
    type V = LevelView;

    closed spec fn view(&self) -> LevelView {
        LevelView { title: self.title@, gameobjects: object_views(self.gameobjects@) }
    }
}

impl Level {
    pub fn new(title: &str, gameobjects: Vec<GameObject>) -> (r: Self)
        ensures
            r@ == (LevelView { title: title@, gameobjects: object_views(gameobjects@) }),
    {
        Level { title: title.to_owned(), gameobjects }
    }

    /// The title, which is also the path of the level's descriptor file.
    pub fn level_title(&self) -> (r: &str)
        ensures
            r@ == self@.title,
    {
        self.title.as_str()
    }

    pub fn gameobjects(&self) -> (r: &Vec<GameObject>)
        ensures
            object_views(r@) == self@.gameobjects,
    {
        &self.gameobjects
    }

    /// The level's own descriptor, which stores the paths of the objects'
    /// descriptors and never their contents.
    pub fn to_description(&self) -> (r: LevelDescription)
        ensures
            r@ == level_description_of(self@),
    {
        let mut paths: Vec<String> = Vec::new();
        let n = self.gameobjects.len();
        for i in 0..n
            invariant
                n == self.gameobjects@.len(),
                paths@.len() == i,
                forall|j: int| 0 <= j < i ==> #[trigger] paths@[j]@ == self@.gameobjects[j].id,
        {
            paths.push(self.gameobjects[i].id().to_owned());
        }
        assert(string_views(paths@) =~= level_description_of(self@).gameobjects);
        LevelDescription::from_parts(self.title.as_str(), paths)
    }

    /// The descriptors of the level's objects, in order: each one is saved to
    /// the path named by its identifier.
    pub fn gameobject_descriptions(&self) -> (r: Vec<GameObjectDescription>)
        ensures
            r@.len() == self@.gameobjects.len(),
            forall|i: int| 0 <= i < r@.len() ==> #[trigger] r@[i]@ == description_of(self@.gameobjects[i]),
    {
        let mut r: Vec<GameObjectDescription> = Vec::new();
        let n = self.gameobjects.len();
        for i in 0..n
            invariant
                n == self.gameobjects@.len(),
                r@.len() == i,
                forall|j: int| 0 <= j < i ==> #[trigger] r@[j]@ == description_of(self@.gameobjects[j]),
        {
            r.push(self.gameobjects[i].to_description());
        }
        r
    }
}

/// Saving a level stores, as its game-object paths, the identifiers of its
/// objects in their order, one path for each object.
pub proof fn lemma_saved_paths_follow_objects(l: LevelView)
    ensures
        level_description_of(l).gameobjects.len() == l.gameobjects.len(),
        forall|i: int|
            0 <= i < l.gameobjects.len() ==> #[trigger] level_description_of(l).gameobjects[i]
                == l.gameobjects[i].id,
{
}

} // verus!
