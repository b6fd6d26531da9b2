//! Resolution of a level descriptor into domain objects.
//!
//! The resolver decides; its driver does the reading. The driver asks
//! [`LevelResolver::next_step`] what to read, reads it, and hands back what it
//! got, or the failure it met, until the resolver has finished or failed.
//! Paths are followed one at a time in their order, so the objects of a
//! resolved level stand in the order of their paths, and the first failure
//! ends the whole resolution: no partial level is ever produced.

use vstd::prelude::*;
use crate::error::{ErrorKind, LevelParserError};
use crate::gameobject::{description_of, object_of, GameObject, GameObjectView};
use crate::gameobject_description::{GameObjectDescription, GameObjectModel};
use crate::gltf_resource::{decode_mesh_bytes, mesh_accepted, GltfResource};
use crate::level::{level_description_of, object_views, Level, LevelView};
use crate::transform_description::lemma_transform_round_trip;
use crate::level_description::{string_views, LevelDescription};

verus! {

/// Where a resolution stands.
#[derive(Clone, Copy, Debug, PartialEq, Eq, Structural)]
pub enum ResolvePhase {
    /// Waiting for the descriptor at the next path.
    Loading,
    /// Waiting for the bytes of the mesh the last descriptor names.
    AwaitingMesh,
    Finished,
    Failed,
}

/// What the driver is to do next.
#[derive(Debug)]
pub enum ResolveStep {
    /// Read and parse the game-object descriptor file at this path, then call
    /// `on_gameobject` with the descriptor, or `on_failure`.
    LoadGameObject(String),
    /// Read the mesh asset file at this path, then call `on_mesh_bytes` with
    /// its bytes, or `on_failure`.
    LoadMesh(String),
    /// Every path has been resolved: take the result.
    Finished,
    /// The resolution failed: take the error.
    Failed,
}

/// What a resolver asks of its driver, seen through the paths it names.
pub enum StepView {
    LoadGameObject(Seq<char>),
    LoadMesh(Seq<char>),
    Finished,
    Failed,
}

pub open spec fn step_view(s: ResolveStep) -> StepView {
    match s {
        ResolveStep::LoadGameObject(p) => StepView::LoadGameObject(p@),
        ResolveStep::LoadMesh(p) => StepView::LoadMesh(p@),
        ResolveStep::Finished => StepView::Finished,
        ResolveStep::Failed => StepView::Failed,
    }
}

/// The origin and description of the failure that ended a resolution.
pub struct FailureView {
    pub kind: ErrorKind,
    pub description: Seq<char>,
}

/// The state of a resolution.
pub struct ResolverModel {
    pub title: Seq<char>,
    pub paths: Seq<Seq<char>>,
    /// Whether meshes are decoded and domain objects built, or descriptors
    /// only are collected.
    pub eager: bool,
    /// The descriptors handed in so far; the i-th is the one read from the
    /// i-th path.
    pub loaded: Seq<GameObjectModel>,
    pub objects: Seq<GameObjectView>,
    pub phase: ResolvePhase,
    pub failure: Option<FailureView>,
}

impl ResolverModel {
    /// The invariant of a resolution.
    pub open spec fn is_consistent(self) -> bool {
        &&& self.loaded.len() <= self.paths.len()
        &&& forall|i: int| 0 <= i < self.loaded.len() ==> (#[trigger] self.loaded[i]).is_valid()
        &&& (self.failure.is_some() <==> self.phase == ResolvePhase::Failed)
        &&& self.phase == ResolvePhase::Loading ==> self.loaded.len() < self.paths.len()
        &&& self.phase == ResolvePhase::Finished ==> self.loaded.len() == self.paths.len()
        &&& self.phase == ResolvePhase::AwaitingMesh ==> {
            &&& self.eager
            &&& self.loaded.len() > 0
            &&& self.loaded.last().mesh.is_some()
        }
        &&& self.eager ==> self.objects.len() <= self.loaded.len()
        &&& self.eager && self.phase != ResolvePhase::Failed ==> self.objects.len() == self.built_count()
        &&& !self.eager ==> self.objects.len() == 0
        &&& forall|i: int| 0 <= i < self.objects.len() ==> #[trigger] self.objects[i] == object_of(self.loaded[i])
    }

    /// How many of the loaded descriptors have become domain objects.
    pub open spec fn built_count(self) -> int {
        if self.phase == ResolvePhase::AwaitingMesh {
            self.loaded.len() - 1
        } else {
            self.loaded.len() as int
        }
    }

    /// The path being read: the next descriptor's, or the pending mesh's.
    pub open spec fn current_path(self) -> Seq<char> {
        if self.phase == ResolvePhase::AwaitingMesh {
            self.loaded.last().mesh.unwrap()
        } else {
            self.paths[self.loaded.len() as int]
        }
    }

    /// The phase after one more path has been dealt with.
    pub open spec fn advanced(self, loaded_len: int) -> ResolvePhase {
        if loaded_len == self.paths.len() {
            ResolvePhase::Finished
        } else {
            ResolvePhase::Loading
        }
    }

    /// The state after a failure of the given origin and description while
    /// reading the current path.
    pub open spec fn after_failure(self, kind: ErrorKind, description: Seq<char>) -> ResolverModel {
        ResolverModel {
            phase: ResolvePhase::Failed,
            failure: Some(FailureView { kind, description: self.current_path() + ": "@ + description }),
            ..self
        }
    }

    /// The state after the descriptor `d` has been read from the current path.
    pub open spec fn after_gameobject(self, d: GameObjectModel) -> ResolverModel {
        if !d.is_valid() {
            self.after_failure(ErrorKind::Deserialization, d.first_invalid_field())
        } else if self.eager && d.mesh.is_some() {
            ResolverModel { loaded: self.loaded.push(d), phase: ResolvePhase::AwaitingMesh, ..self }
        } else {
            ResolverModel {
                loaded: self.loaded.push(d),
                objects: if self.eager { self.objects.push(object_of(d)) } else { self.objects },
                phase: self.advanced(self.loaded.len() + 1 as int),
                ..self
            }
        }
    }

    /// The state after the pending mesh has been decoded.
    pub open spec fn after_mesh(self) -> ResolverModel {
        ResolverModel {
            objects: self.objects.push(object_of(self.loaded.last())),
            phase: self.advanced(self.loaded.len() as int),
            ..self
        }
    }

    /// What the resolver asks of its driver in this state.
    pub open spec fn step(self) -> StepView {
        match self.phase {
            ResolvePhase::Loading => StepView::LoadGameObject(self.current_path()),
            ResolvePhase::AwaitingMesh => StepView::LoadMesh(self.current_path()),
            ResolvePhase::Finished => StepView::Finished,
            ResolvePhase::Failed => StepView::Failed,
        }
    }

    /// The resolved level once the resolution has finished, or the failure
    /// once it has failed.
    pub open spec fn outcome(self) -> Option<Result<LevelView, FailureView>> {
        match self.phase {
            ResolvePhase::Finished => Some(Ok(LevelView { title: self.title, gameobjects: self.objects })),
            ResolvePhase::Failed => Some(Err(self.failure.unwrap())),
            _ => None,
        }
    }
}

/// The descriptor handed in while the resolution waits on the k-th path is
/// recorded as the k-th loaded descriptor: the k-th descriptor is the one read
/// from the k-th path.
pub proof fn lemma_descriptor_recorded_at_its_path(m: ResolverModel, d: GameObjectModel)
    requires
        m.is_consistent(),
        m.phase == ResolvePhase::Loading,
        d.is_valid(),
    ensures
        m.current_path() == m.paths[m.loaded.len() as int],
        m.after_gameobject(d).loaded == m.loaded.push(d),
        m.after_gameobject(d).loaded[m.loaded.len() as int] == d,
{
}

/// Order preservation: a finished resolution has one domain object for each
/// path, and the i-th object is built from the descriptor read from the i-th
/// path; that level is its outcome.
pub proof fn lemma_resolution_keeps_path_order(m: ResolverModel)
    requires
        m.is_consistent(),
        m.eager,
        m.phase == ResolvePhase::Finished,
    ensures
        m.loaded.len() == m.paths.len(),
        m.objects.len() == m.paths.len(),
        forall|i: int| 0 <= i < m.paths.len() ==> #[trigger] m.objects[i] == object_of(m.loaded[i]),
        forall|i: int| 0 <= i < m.paths.len() ==> #[trigger] m.objects[i].id == m.loaded[i].id,
        m.outcome() == Some(Ok::<LevelView, FailureView>(LevelView { title: m.title, gameobjects: m.objects })),
{
    assert forall|i: int| 0 <= i < m.paths.len() implies #[trigger] m.objects[i].id == m.loaded[i].id by {
        assert(m.objects[i] == object_of(m.loaded[i]));
    }
}

/// Fail-fast: a failure met while reading the descriptor at the k-th path
/// ends the resolution. Its outcome is that failure, described with the k-th
/// path, and no level; a failed resolution takes no further input, so none
/// comes later either.
pub proof fn lemma_failure_ends_resolution(m: ResolverModel, kind: ErrorKind, description: Seq<char>)
    requires
        m.is_consistent(),
        m.phase == ResolvePhase::Loading,
    ensures
        m.after_failure(kind, description).is_consistent(),
        m.after_failure(kind, description).phase == ResolvePhase::Failed,
        m.after_failure(kind, description).outcome() == Some(Err::<LevelView, FailureView>(FailureView {
            kind,
            description: m.paths[m.loaded.len() as int] + ": "@ + description,
        })),
{
}

/// The state after the descriptor `d` has been read from the current path
/// and, when the resolution builds objects and `d` names a mesh, the mesh has
/// been decoded: the current path dealt with successfully.
pub open spec fn after_object(m: ResolverModel, d: GameObjectModel) -> ResolverModel {
    if m.eager && d.mesh.is_some() && d.is_valid() {
        m.after_gameobject(d).after_mesh()
    } else {
        m.after_gameobject(d)
    }
}

/// The state after the descriptors `ds` have been dealt with, in order.
pub open spec fn fed(m: ResolverModel, ds: Seq<GameObjectModel>) -> ResolverModel
    decreases ds.len(),
{
    if ds.len() == 0 {
        m
    } else {
        after_object(fed(m, ds.drop_last()), ds.last())
    }
}

proof fn lemma_fed_prefix(desc: crate::level_description::LevelModel, ds: Seq<GameObjectModel>, k: int)
    requires
        ds.len() <= desc.gameobjects.len(),
        forall|i: int| 0 <= i < ds.len() ==> (#[trigger] ds[i]).is_valid(),
        0 <= k <= ds.len(),
    ensures
        fed(started(desc, true), ds.take(k)).title == desc.title,
        fed(started(desc, true), ds.take(k)).paths == desc.gameobjects,
        fed(started(desc, true), ds.take(k)).eager,
        fed(started(desc, true), ds.take(k)).failure.is_none(),
        fed(started(desc, true), ds.take(k)).loaded == ds.take(k),
        fed(started(desc, true), ds.take(k)).objects == ds.take(k).map_values(|d: GameObjectModel| object_of(d)),
        fed(started(desc, true), ds.take(k)).phase == (if k == desc.gameobjects.len() {
            ResolvePhase::Finished
        } else {
            ResolvePhase::Loading
        }),
    decreases k,
{
    if k == 0 {
        assert(ds.take(0) =~= Seq::<GameObjectModel>::empty());
        assert(ds.take(0).map_values(|d: GameObjectModel| object_of(d)) =~= Seq::<GameObjectView>::empty());
    } else {
        lemma_fed_prefix(desc, ds, k - 1);
        assert(ds.take(k).drop_last() =~= ds.take(k - 1));
        assert(ds.take(k).last() == ds[k - 1]);
        assert(ds.take(k - 1).push(ds[k - 1]) =~= ds.take(k));
        assert(ds.take(k - 1).map_values(|d: GameObjectModel| object_of(d)).push(object_of(ds[k - 1]))
            =~= ds.take(k).map_values(|d: GameObjectModel| object_of(d)));
    }
}

/// Order preservation, over a whole run: when the i-th path yields the valid
/// descriptor `ds[i]`, and each mesh named is decoded, the resolution of a
/// level finishes, and its outcome is the level whose i-th object is built
/// from `ds[i]`.
pub proof fn lemma_run_keeps_path_order(desc: crate::level_description::LevelModel, ds: Seq<GameObjectModel>)
    requires
        ds.len() == desc.gameobjects.len(),
        forall|i: int| 0 <= i < ds.len() ==> (#[trigger] ds[i]).is_valid(),
    ensures
        fed(started(desc, true), ds).phase == ResolvePhase::Finished,
        fed(started(desc, true), ds).outcome() == Some(Ok::<LevelView, FailureView>(LevelView {
            title: desc.title,
            gameobjects: ds.map_values(|d: GameObjectModel| object_of(d)),
        })),
{
    lemma_fed_prefix(desc, ds, ds.len() as int);
    assert(ds.take(ds.len() as int) =~= ds);
}

/// The requests made while the descriptor `d` is dealt with from state `m`:
/// the descriptor's path, then, when objects are built and `d` names a mesh,
/// the mesh's path.
pub open spec fn requests_for(m: ResolverModel, d: GameObjectModel) -> Seq<StepView> {
    if m.eager && d.mesh.is_some() && d.is_valid() {
        seq![m.step(), m.after_gameobject(d).step()]
    } else {
        seq![m.step()]
    }
}

/// The requests made while the descriptors `ds` are dealt with, in order.
pub open spec fn requests(m: ResolverModel, ds: Seq<GameObjectModel>) -> Seq<StepView>
    decreases ds.len(),
{
    if ds.len() == 0 {
        Seq::empty()
    } else {
        requests(m, ds.drop_last()) + requests_for(fed(m, ds.drop_last()), ds.last())
    }
}

/// For each descriptor in turn, the path it is read from, then the path of
/// the mesh it names, if any.
pub open spec fn path_order_requests(paths: Seq<Seq<char>>, ds: Seq<GameObjectModel>) -> Seq<StepView>
    decreases ds.len(),
{
    if ds.len() == 0 {
        Seq::empty()
    } else {
        path_order_requests(paths, ds.drop_last()) + if ds.last().mesh.is_some() {
            seq![
                StepView::LoadGameObject(paths[ds.len() - 1]),
                StepView::LoadMesh(ds.last().mesh.unwrap()),
            ]
        } else {
            seq![StepView::LoadGameObject(paths[ds.len() - 1])]
        }
    }
}

/// Order of requests, over a whole run: while the paths yield the valid
/// descriptors `ds`, each mesh decoded, the resolver asks for the paths one
/// after the other in their order, the mesh of each object right after its
/// descriptor and before the next path; then it asks for the next path, or
/// has finished.
pub proof fn lemma_run_requests_in_path_order(desc: crate::level_description::LevelModel, ds: Seq<GameObjectModel>)
    requires
        ds.len() <= desc.gameobjects.len(),
        forall|i: int| 0 <= i < ds.len() ==> (#[trigger] ds[i]).is_valid(),
    ensures
        requests(started(desc, true), ds) == path_order_requests(desc.gameobjects, ds),
        fed(started(desc, true), ds).step() == (if ds.len() == desc.gameobjects.len() {
            StepView::Finished
        } else {
            StepView::LoadGameObject(desc.gameobjects[ds.len() as int])
        }),
    decreases ds.len(),
{
    lemma_fed_prefix(desc, ds, ds.len() as int);
    assert(ds.take(ds.len() as int) =~= ds);
    if ds.len() > 0 {
        let prev = ds.drop_last();
        assert forall|i: int| 0 <= i < prev.len() implies (#[trigger] prev[i]).is_valid() by {
            assert(prev[i] == ds[i]);
        }
        lemma_run_requests_in_path_order(desc, prev);
        lemma_fed_prefix(desc, prev, prev.len() as int);
        assert(prev.take(prev.len() as int) =~= prev);
        let m = fed(started(desc, true), prev);
        assert(m.phase == ResolvePhase::Loading);
        assert(ds.last() == ds[ds.len() - 1]);
        assert(m.after_gameobject(ds.last()).loaded.last() == ds.last());
        assert(requests_for(m, ds.last()) =~= (if ds.last().mesh.is_some() {
            seq![
                StepView::LoadGameObject(desc.gameobjects[ds.len() - 1]),
                StepView::LoadMesh(ds.last().mesh.unwrap()),
            ]
        } else {
            seq![StepView::LoadGameObject(desc.gameobjects[ds.len() - 1])]
        }));
    }
}

/// Fail-fast, over a whole run: when the first k paths yield valid
/// descriptors, with their meshes decoded, and reading the next path fails,
/// the outcome of the resolution is that failure, described with that path,
/// and no level, though k objects had been built; and the resolver asks for
/// no further path.
pub proof fn lemma_run_fails_fast(
    desc: crate::level_description::LevelModel,
    ds: Seq<GameObjectModel>,
    kind: ErrorKind,
    description: Seq<char>,
)
    requires
        ds.len() < desc.gameobjects.len(),
        forall|i: int| 0 <= i < ds.len() ==> (#[trigger] ds[i]).is_valid(),
    ensures
        fed(started(desc, true), ds).phase == ResolvePhase::Loading,
        fed(started(desc, true), ds).after_failure(kind, description).step() == StepView::Failed,
        fed(started(desc, true), ds).after_failure(kind, description).outcome() == Some(
            Err::<LevelView, FailureView>(FailureView {
                kind,
                description: desc.gameobjects[ds.len() as int] + ": "@ + description,
            }),
        ),
{
    lemma_fed_prefix(desc, ds, ds.len() as int);
    assert(ds.take(ds.len() as int) =~= ds);
}

/// Saving and loading agree: resolving the descriptor of a level, when each
/// path yields the descriptor saved for its object and each mesh is decoded,
/// gives the level back. Every object needs a non-empty identifier, since
/// that identifier is the path its descriptor is saved to.
pub proof fn lemma_saved_level_resolves_to_itself(l: LevelView)
    requires
        forall|i: int| 0 <= i < l.gameobjects.len() ==> (#[trigger] l.gameobjects[i]).id.len() > 0,
    ensures
        fed(
            started(level_description_of(l), true),
            l.gameobjects.map_values(|g: GameObjectView| description_of(g)),
        ).outcome() == Some(Ok::<LevelView, FailureView>(l)),
{
    let ds = l.gameobjects.map_values(|g: GameObjectView| description_of(g));
    assert forall|i: int| 0 <= i < ds.len() implies (#[trigger] ds[i]).is_valid() by {
        lemma_transform_round_trip(l.gameobjects[i].transform);
    }
    lemma_run_keeps_path_order(level_description_of(l), ds);
    assert forall|i: int| 0 <= i < ds.len() implies #[trigger] object_of(ds[i]) == l.gameobjects[i] by {
        lemma_transform_round_trip(l.gameobjects[i].transform);
    }
    assert(ds.map_values(|d: GameObjectModel| object_of(d)) =~= l.gameobjects);
}

/// A resolution begins consistent, and every step keeps it so: the
/// invariant holds of every state a resolution reaches.
pub proof fn lemma_steps_keep_consistency(
    m: ResolverModel,
    d: GameObjectModel,
    kind: ErrorKind,
    description: Seq<char>,
)
    requires
        m.is_consistent(),
    ensures
        m.phase == ResolvePhase::Loading ==> m.after_gameobject(d).is_consistent(),
        m.phase == ResolvePhase::AwaitingMesh ==> m.after_mesh().is_consistent(),
        m.phase == ResolvePhase::Loading || m.phase == ResolvePhase::AwaitingMesh
            ==> m.after_failure(kind, description).is_consistent(),
{
    if m.phase == ResolvePhase::Loading && d.is_valid() {
        let n = m.after_gameobject(d);
        assert forall|i: int| 0 <= i < n.loaded.len() implies (#[trigger] n.loaded[i]).is_valid() by {
            if i < m.loaded.len() {
                assert(n.loaded[i] == m.loaded[i]);
            }
        }
        assert forall|i: int| 0 <= i < n.objects.len() implies #[trigger] n.objects[i] == object_of(n.loaded[i]) by {
            if i < m.objects.len() {
                assert(n.objects[i] == m.objects[i]);
                assert(n.loaded[i] == m.loaded[i]);
            }
        }
    }
    if m.phase == ResolvePhase::AwaitingMesh {
        let n = m.after_mesh();
        assert forall|i: int| 0 <= i < n.objects.len() implies #[trigger] n.objects[i] == object_of(n.loaded[i]) by {
            if i < m.objects.len() {
                assert(n.objects[i] == m.objects[i]);
            }
        }
    }
}

/// A resolution that has just begun is consistent.
pub proof fn lemma_start_is_consistent(desc: crate::level_description::LevelModel, eager: bool)
    ensures
        started(desc, eager).is_consistent(),
{
}

/// The state of a resolution that has just begun.
pub open spec fn started(desc: crate::level_description::LevelModel, eager: bool) -> ResolverModel {
    ResolverModel {
        title: desc.title,
        paths: desc.gameobjects,
        eager,
        loaded: Seq::empty(),
        objects: Seq::empty(),
        phase: if desc.gameobjects.len() == 0 { ResolvePhase::Finished } else { ResolvePhase::Loading },
        failure: None,
    }
}

pub open spec fn failure_of(e: Option<LevelParserError>) -> Option<FailureView> {
    match e {
        Some(e) => Some(FailureView { kind: e.kind(), description: e.description_view() }),
        None => None,
    }
}

pub open spec fn description_views(s: Seq<GameObjectDescription>) -> Seq<GameObjectModel> {
    s.map_values(|d: GameObjectDescription| d@)
}

/// A resolution in progress.
pub struct LevelResolver {
    title: String,
    paths: Vec<String>,
    eager: bool,
    next: usize,
    descriptions: Vec<GameObjectDescription>,
    gameobjects: Vec<GameObject>,
    pending: Option<GameObjectDescription>,
    error: Option<LevelParserError>,
    phase: ResolvePhase,
    loaded: Ghost<Seq<GameObjectModel>>,
}

impl View for LevelResolver {
    type V = ResolverModel;

    closed spec fn view(&self) -> ResolverModel {
        ResolverModel {
            title: self.title@,
            paths: string_views(self.paths@),
            eager: self.eager,
            loaded: self.loaded@,
            objects: object_views(self.gameobjects@),
            phase: self.phase,
            failure: failure_of(self.error),
        }
    }
}

impl LevelResolver {
    /// The invariant of the resolver.
    pub closed spec fn wf(&self) -> bool {
        &&& self@.is_consistent()
        &&& self.next == self.loaded@.len()
        &&& !self.eager ==> description_views(self.descriptions@) == self.loaded@
        &&& self.phase == ResolvePhase::AwaitingMesh ==> {
            &&& self.pending.is_some()
            &&& self.pending.unwrap()@ == self.loaded@.last()
        }
    }

    /// The state of a well-formed resolver meets the invariant of a
    /// resolution.
    pub proof fn lemma_wf_is_consistent(&self)
        requires
            self.wf(),
        ensures
            self@.is_consistent(),
    {
    }

    fn start(desc: LevelDescription, eager: bool) -> (r: Self)
        ensures
            r.wf(),
            r@ == started(desc@, eager),
    {
        let n = desc.len();
        let title = desc.title().to_owned();
        let mut paths: Vec<String> = Vec::new();
        for i in 0..n
            invariant
                n == desc@.gameobjects.len(),
                paths@.len() == i,
                forall|j: int| 0 <= j < i ==> #[trigger] paths@[j]@ == desc@.gameobjects[j],
        {
            paths.push(desc.gameobject(i).to_owned());
        }
        assert(string_views(paths@) =~= desc@.gameobjects);
        let r = LevelResolver {
            title,
            paths,
            eager,
            next: 0,
            descriptions: Vec::new(),
            gameobjects: Vec::new(),
            pending: None,
            error: None,
            phase: if n == 0 { ResolvePhase::Finished } else { ResolvePhase::Loading },
            loaded: Ghost(Seq::empty()),
        };
        assert(r@.objects =~= Seq::<GameObjectView>::empty());
        assert(description_views(r.descriptions@) =~= Seq::<GameObjectModel>::empty());
        r
    }

    /// Begins resolving `desc` into a level of domain objects: each
    /// game-object descriptor is read and, when it names a mesh, the mesh is
    /// decoded.
    pub fn resolve_level(desc: LevelDescription) -> (r: Self)
        ensures
            r.wf(),
            r@ == started(desc@, true),
    {
        LevelResolver::start(desc, true)
    }

    /// Begins loading the game-object descriptors that `desc` references,
    /// without following their mesh paths.
    pub fn load_level_descriptions(desc: LevelDescription) -> (r: Self)
        ensures
            r.wf(),
            r@ == started(desc@, false),
    {
        LevelResolver::start(desc, false)
    }

    pub fn phase(&self) -> (r: ResolvePhase)
        ensures
            r == self@.phase,
    {
        self.phase
    }

    /// What the driver is to do next.
    pub fn next_step(&self) -> (r: ResolveStep)
        requires
            self.wf(),
        ensures
            self@.phase == ResolvePhase::Loading ==> r is LoadGameObject && r->LoadGameObject_0@
                == self@.current_path(),
            self@.phase == ResolvePhase::AwaitingMesh ==> r is LoadMesh && r->LoadMesh_0@
                == self@.current_path(),
            self@.phase == ResolvePhase::Finished ==> r is Finished,
            self@.phase == ResolvePhase::Failed ==> r is Failed,
            step_view(r) == self@.step(),
    {
        match self.phase {
            ResolvePhase::Loading => ResolveStep::LoadGameObject(self.current_path()),
            ResolvePhase::AwaitingMesh => ResolveStep::LoadMesh(self.current_path()),
            ResolvePhase::Finished => ResolveStep::Finished,
            ResolvePhase::Failed => ResolveStep::Failed,
        }
    }

    fn current_path(&self) -> (r: String)
        requires
            self.wf(),
            self@.phase == ResolvePhase::Loading || self@.phase == ResolvePhase::AwaitingMesh,
        ensures
            r@ == self@.current_path(),
    {
        if self.phase == ResolvePhase::AwaitingMesh {
            match &self.pending {
                Some(d) => match d.mesh() {
                    Some(m) => m.path().to_owned(),
                    None => String::new(),
                },
                None => String::new(),
            }
        } else {
            self.paths[self.next].clone()
        }
    }

    /// The resolution fails with `error`, met while reading the current path.
    fn fail(&mut self, error: LevelParserError)
        requires
            old(self).wf(),
            old(self)@.phase == ResolvePhase::Loading || old(self)@.phase == ResolvePhase::AwaitingMesh,
        ensures
            final(self).wf(),
            final(self)@ == old(self)@.after_failure(error.kind(), error.description_view()),
    {
        let path = self.current_path();
        self.error = Some(error.with_context(path.as_str()));
        self.phase = ResolvePhase::Failed;
    }

    /// Hands in the descriptor read from the current path.
    pub fn on_gameobject(&mut self, description: GameObjectDescription)
        requires
            old(self).wf(),
            old(self)@.phase == ResolvePhase::Loading,
        ensures
            final(self).wf(),
            final(self)@ == old(self)@.after_gameobject(description@),
    {
        let ghost d = description@;
        match description.validate() {
            Err(e) => {
                self.fail(e);
            },
            Ok(description) => {
                let ghost before = self@;
                let n = self.paths.len();
                assert(self.next < n);
                self.loaded = Ghost(self.loaded@.push(d));
                self.next = self.next + 1;
                if !self.eager {
                    self.descriptions.push(description);
                    assert(description_views(self.descriptions@) =~= self.loaded@);
                    self.phase = if self.next == self.paths.len() {
                        ResolvePhase::Finished
                    } else {
                        ResolvePhase::Loading
                    };
                } else if description.mesh().is_some() {
                    self.pending = Some(description);
                    self.phase = ResolvePhase::AwaitingMesh;
                } else {
                    match GameObject::from_gameobject_description(&description, None) {
                        Ok(g) => {
                            self.gameobjects.push(g);
                        },
                        Err(e) => {
                            assert(false);
                        },
                    }
                    assert(object_views(self.gameobjects@) =~= before.objects.push(object_of(d)));
                    self.phase = if self.next == self.paths.len() {
                        ResolvePhase::Finished
                    } else {
                        ResolvePhase::Loading
                    };
                }
                assert(self@.loaded =~= before.loaded.push(d));
            },
        }
    }

    /// Hands in the bytes read from the pending mesh's path: when they hold
    /// an accepted asset the object is built with the decoded mesh, and
    /// otherwise the resolution fails with an asset-decode error.
    pub fn on_mesh_bytes(&mut self, bytes: &[u8])
        requires
            old(self).wf(),
            old(self)@.phase == ResolvePhase::AwaitingMesh,
        ensures
            final(self).wf(),
            mesh_accepted(bytes@) ==> final(self)@ == old(self)@.after_mesh(),
            !mesh_accepted(bytes@) ==> final(self)@ == old(self)@.after_failure(
                ErrorKind::AssetDecode,
                "Error while manipulating gltf data."@,
            ),
    {
        self.on_mesh_decoded(decode_mesh_bytes(bytes));
    }

    /// Hands in what the mesh decoder made of the pending mesh's bytes: the
    /// object is built with the decoded mesh, or the resolution fails with the
    /// decoder's error.
    pub fn on_mesh_decoded(&mut self, decoded: Result<gltf::Gltf, gltf::Error>)
        requires
            old(self).wf(),
            old(self)@.phase == ResolvePhase::AwaitingMesh,
        ensures
            final(self).wf(),
            decoded.is_ok() ==> final(self)@ == old(self)@.after_mesh(),
            decoded.is_err() ==> final(self)@ == old(self)@.after_failure(
                ErrorKind::AssetDecode,
                "Error while manipulating gltf data."@,
            ),
    {
        let path = self.current_path();
        match GltfResource::from_decoded(path.as_str(), decoded) {
            Err(e) => {
                self.fail(e);
            },
            Ok(mesh) => {
                let ghost before = self@;
                let pending = self.pending.take();
                match pending {
                    Some(description) => {
                        match GameObject::from_gameobject_description(&description, Some(mesh)) {
                            Ok(g) => {
                                self.gameobjects.push(g);
                            },
                            Err(e) => {
                                assert(false);
                            },
                        }
                    },
                    None => {},
                }
                assert(object_views(self.gameobjects@) =~= before.objects.push(object_of(before.loaded.last())));
                self.phase = if self.next == self.paths.len() {
                    ResolvePhase::Finished
                } else {
                    ResolvePhase::Loading
                };
            },
        }
    }

    /// Hands in the failure met while reading the current path: opening or
    /// reading the file, or parsing its text. The resolution fails with it,
    /// the path in front of its description.
    pub fn on_failure(&mut self, error: LevelParserError)
        requires
            old(self).wf(),
            old(self)@.phase == ResolvePhase::Loading || old(self)@.phase == ResolvePhase::AwaitingMesh,
        ensures
            final(self).wf(),
            final(self)@ == old(self)@.after_failure(error.kind(), error.description_view()),
    {
        self.fail(error);
    }

    /// The resolved level of a finished eager resolution, or the error that
    /// ended a failed one.
    pub fn into_level(self) -> (r: Result<Level, LevelParserError>)
        requires
            self.wf(),
            self@.eager,
            self@.phase == ResolvePhase::Finished || self@.phase == ResolvePhase::Failed,
        ensures
            r.is_ok() <==> self@.phase == ResolvePhase::Finished,
            r.is_ok() ==> self@.outcome() == Some(Ok::<LevelView, FailureView>(r.unwrap()@)),
            r.is_err() ==> self@.outcome() == Some(Err::<LevelView, FailureView>(
                failure_of(Some(r.unwrap_err())).unwrap(),
            )),
    {
        match self.error {
            Some(e) => Err(e),
            None => Ok(Level::new(self.title.as_str(), self.gameobjects)),
        }
    }

    /// The descriptors of a finished descriptor-only resolution, in the order
    /// of their paths, or the error that ended a failed one.
    pub fn into_descriptions(self) -> (r: Result<Vec<GameObjectDescription>, LevelParserError>)
        requires
            self.wf(),
            !self@.eager,
            self@.phase == ResolvePhase::Finished || self@.phase == ResolvePhase::Failed,
        ensures
            r.is_ok() <==> self@.phase == ResolvePhase::Finished,
            r.is_ok() ==> description_views(r.unwrap()@) == self@.loaded,
            r.is_err() ==> Some(failure_of(Some(r.unwrap_err())).unwrap()) == self@.failure,
    {
        match self.error {
            Some(e) => Err(e),
            None => Ok(self.descriptions),
        }
    }
}

} // verus!
