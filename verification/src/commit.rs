//! The commit pipeline: from the state that a client published for a surface
//! and its subsurfaces to the textures that stand for their buffers and the
//! messages for the UI engine, subsurfaces first.

use crate::geometry::{input_region, spec_input_region, Point, Rectangle, RectangleKind, Size};
use crate::messages::{SurfaceMessage, SurfaceMessageView, NO_TEXTURE};
use crate::roles::Configure;
use crate::server_state::{
    lists_texture, texture_id_set, MySurfaceState, ServerModel, ServerState, TEXTURES_PER_SURFACE,
};
use vstd::prelude::*;

verus! {

/// What a commit says about the buffer of a surface.
#[derive(Clone, Copy, Debug, PartialEq, Eq, Structural)]
pub enum BufferAssignment {
    /// A new buffer was attached. Holds the size of the texture that the
    /// renderer made of it, or nothing where the import failed.
    NewBuffer(Option<Size>),
    /// The buffer was taken away.
    Removed,
    /// The commit left the buffer as it was.
    Unchanged,
}

/// The texture that presents a freshly imported buffer.
#[derive(Clone, Copy, Debug, PartialEq, Eq, Structural)]
pub struct TextureUpdate {
    pub texture_id: i64,
    /// Whether the id is new and has yet to be registered with the UI
    /// engine as an external texture.
    pub is_new: bool,
    /// The texture that left the surface to make room and is released, if
    /// one did. A surface holds at most two, so no more than one leaves.
    pub released: Option<i64>,
}

/// What a commit shows of a surface: the texture id and buffer size for
/// the message, and the texture to present where a buffer was imported.
#[derive(Clone, Copy, Debug, PartialEq, Eq, Structural)]
pub struct Presented {
    pub texture_id: i64,
    pub buffer_size: Option<Size>,
    pub update: Option<TextureUpdate>,
}

/// The state that a client published for one surface.
#[derive(Clone, Debug, PartialEq, Eq)]
pub struct SurfaceCommit {
    pub surface_id: u64,
    pub buffer: BufferAssignment,
    pub buffer_delta: Option<Point>,
    pub buffer_scale: i32,
    /// The input region, where the client set one.
    pub input_region: Option<Vec<(RectangleKind, Rectangle)>>,
    /// The window geometry of a shell surface.
    pub geometry: Option<Rectangle>,
    /// The place of a subsurface in its parent.
    pub subsurface_location: Point,
}

/// A surface with its direct subsurfaces, those stacked below it and those
/// stacked above it, each in stacking order.
#[derive(Debug)]
pub struct SurfaceTree {
    pub surface: SurfaceCommit,
    pub below: Vec<SurfaceTree>,
    pub above: Vec<SurfaceTree>,
}

/// What the commit of one surface asks for, in this order: drop the frames
/// of the texture that was released, present the texture (after registering
/// it where it is new), send the configure, send the message.
#[derive(Clone, Debug, PartialEq, Eq)]
pub struct CommitOutcome {
    pub texture: Option<TextureUpdate>,
    pub configure: Option<Configure>,
    pub message: SurfaceMessage,
}

/// A commit outcome with the lists of its message as sequences.
pub struct CommitOutcomeView {
    pub texture: Option<TextureUpdate>,
    pub configure: Option<Configure>,
    pub message: SurfaceMessageView,
}

impl View for CommitOutcome {
    type V = CommitOutcomeView;

    open spec fn view(&self) -> CommitOutcomeView {
        CommitOutcomeView {
            texture: self.texture,
            configure: self.configure,
            message: self.message@,
        }
    }
}

/// A list of commit outcomes, each by its view.
pub open spec fn outcome_views(outcomes: Seq<CommitOutcome>) -> Seq<CommitOutcomeView> {
    outcomes.map_values(|o: CommitOutcome| o@)
}

/// The rectangles of an input region as a sequence.
pub open spec fn region_view(region: Option<Vec<(RectangleKind, Rectangle)>>) -> Option<
    Seq<(RectangleKind, Rectangle)>,
> {
    match region {
        Some(rects) => Some(rects@),
        None => None,
    }
}

/// The ids of the roots of a list of surface trees.
pub open spec fn root_ids(trees: Seq<SurfaceTree>) -> Seq<u64> {
    trees.map_values(|t: SurfaceTree| t.surface.surface_id)
}

/// The number of surfaces in a tree.
pub open spec fn node_count(tree: SurfaceTree) -> nat
    decreases tree, 1int,
{
    forest_count(tree.below@) + forest_count(tree.above@) + 1
}

/// The number of surfaces in a list of trees.
pub open spec fn forest_count(trees: Seq<SurfaceTree>) -> nat
    decreases trees, 0int,
{
    if trees.len() == 0 {
        0
    } else {
        forest_count(trees.drop_last()) + node_count(trees.last())
    }
}

/// Whether every surface of a tree is among `known`.
pub open spec fn tree_registered(known: Set<u64>, tree: SurfaceTree) -> bool
    decreases tree, 1int,
{
    &&& known.contains(tree.surface.surface_id)
    &&& forest_registered(known, tree.below@)
    &&& forest_registered(known, tree.above@)
}

/// Whether every surface of a list of trees is among `known`.
pub open spec fn forest_registered(known: Set<u64>, trees: Seq<SurfaceTree>) -> bool
    decreases trees, 0int,
{
    if trees.len() == 0 {
        true
    } else {
        forest_registered(known, trees.drop_last()) && tree_registered(known, trees.last())
    }
}

/// What is left of a surface's textures when room is made for one more: the
/// oldest go until fewer than the limit remain.
pub open spec fn ring_tail(list: Seq<(i64, Size)>) -> Seq<(i64, Size)> {
    if list.len() >= TEXTURES_PER_SURFACE {
        list.skip(list.len() - TEXTURES_PER_SURFACE + 1)
    } else {
        list
    }
}

/// What leaves a surface's textures when room is made for one more: the
/// oldest, as many as `ring_tail` does not keep.
pub open spec fn ring_left(list: Seq<(i64, Size)>) -> Seq<(i64, Size)> {
    list.take(list.len() - ring_tail(list).len())
}

/// The state and the output of one step of the pipeline.
pub struct Step<T> {
    pub state: ServerModel,
    pub output: T,
}

impl ServerModel {
    /// The newest texture of a surface with its size, if it has one.
    pub open spec fn last_texture(self, surface_id: u64) -> Option<(i64, Size)> {
        if self.textures_of(surface_id).len() > 0 {
            Some(self.textures_of(surface_id).last())
        } else {
            None
        }
    }

    /// Whether a buffer of this size goes into the newest texture of the
    /// surface: it does when the previous buffer had the same size and the
    /// surface has a texture.
    pub open spec fn reuses_texture(self, surface_id: u64, size: Size) -> bool {
        &&& self.surfaces[surface_id].old_texture_size == Some(size)
        &&& self.textures_of(surface_id).len() > 0
    }

    /// The texture for a freshly imported buffer of a registered surface.
    /// A buffer of the size of the previous one keeps the texture id. Any
    /// other gets the next texture id, which joins the surface's textures
    /// and is entered under its surface; the oldest leave if need be, and
    /// what leaves is released: it is entered under no surface any more.
    pub open spec fn assign_texture(self, surface_id: u64, size: Size) -> Step<TextureUpdate> {
        let surfaces = self.surfaces.insert(
            surface_id,
            MySurfaceState { old_texture_size: Some(size), ..self.surfaces[surface_id] },
        );
        if self.reuses_texture(surface_id, size) {
            Step {
                state: ServerModel { surfaces, ..self },
                output: TextureUpdate {
                    texture_id: self.textures_of(surface_id).last().0,
                    is_new: false,
                    released: None,
                },
            }
        } else {
            let texture_id = self.next_texture_id;
            let left = ring_left(self.textures_of(surface_id));
            Step {
                state: ServerModel {
                    surfaces,
                    next_texture_id: (texture_id + 1) as i64,
                    textures: self.textures.insert(
                        surface_id,
                        ring_tail(self.textures_of(surface_id)).push((texture_id, size)),
                    ),
                    owners: self.owners.remove_keys(texture_id_set(left)).insert(
                        texture_id,
                        surface_id,
                    ),
                    ..self
                },
                output: TextureUpdate {
                    texture_id,
                    is_new: true,
                    released: if left.len() > 0 {
                        Some(left[0].0)
                    } else {
                        None
                    },
                },
            }
        }
    }

    /// What a commit shows of a registered surface. An imported buffer
    /// shows its texture. A buffer that was removed or could not be
    /// imported shows no texture, and leaves the textures as they are. An
    /// unchanged buffer shows the newest texture again, if there is one.
    pub open spec fn resolve_buffer(self, surface_id: u64, buffer: BufferAssignment) -> Step<
        Presented,
    > {
        match buffer {
            BufferAssignment::NewBuffer(Some(size)) => {
                let step = self.assign_texture(surface_id, size);
                Step {
                    state: step.state,
                    output: Presented {
                        texture_id: step.output.texture_id,
                        buffer_size: Some(size),
                        update: Some(step.output),
                    },
                }
            },
            BufferAssignment::NewBuffer(None) | BufferAssignment::Removed => Step {
                state: self,
                output: Presented { texture_id: NO_TEXTURE, buffer_size: None, update: None },
            },
            BufferAssignment::Unchanged => match self.last_texture(surface_id) {
                Some((texture_id, size)) => Step {
                    state: self,
                    output: Presented { texture_id, buffer_size: Some(size), update: None },
                },
                None => Step {
                    state: self,
                    output: Presented { texture_id: NO_TEXTURE, buffer_size: None, update: None },
                },
            },
        }
    }

    /// The message for a registered surface after a commit, with the
    /// configure that building its role part calls for.
    pub open spec fn surface_message(
        self,
        commit: SurfaceCommit,
        presented: Presented,
        below: Seq<u64>,
        above: Seq<u64>,
    ) -> Step<(SurfaceMessageView, Option<Configure>)> {
        let role = self.surface_role_message(
            commit.surface_id,
            commit.geometry,
            commit.subsurface_location,
        );
        Step {
            state: role.state,
            output: (
                SurfaceMessageView {
                    surface_id: commit.surface_id,
                    role: role.message,
                    texture_id: presented.texture_id,
                    buffer_delta: commit.buffer_delta,
                    buffer_size: presented.buffer_size,
                    scale: commit.buffer_scale,
                    input_region: spec_input_region(
                        region_view(commit.input_region),
                        presented.buffer_size,
                    ),
                    subsurfaces_below: below,
                    subsurfaces_above: above,
                },
                role.configure,
            ),
        }
    }

    /// The commit of one registered surface whose subsurfaces have been
    /// committed.
    pub open spec fn commit_surface(self, commit: SurfaceCommit, below: Seq<u64>, above: Seq<u64>)
        -> Step<CommitOutcomeView> {
        let resolved = self.resolve_buffer(commit.surface_id, commit.buffer);
        let built = resolved.state.surface_message(commit, resolved.output, below, above);
        Step {
            state: built.state,
            output: CommitOutcomeView {
                texture: resolved.output.update,
                configure: built.output.1,
                message: built.output.0,
            },
        }
    }

    /// The commit of a surface: its subsurfaces are committed first, those
    /// below it and then those above it, each with its own subsurfaces
    /// before it; the surface itself comes last.
    pub open spec fn commit_tree(self, tree: SurfaceTree) -> Step<Seq<CommitOutcomeView>>
        decreases tree, 1int,
    {
        let below = self.commit_forest(tree.below@);
        let above = below.state.commit_forest(tree.above@);
        let own = above.state.commit_surface(
            tree.surface,
            root_ids(tree.below@),
            root_ids(tree.above@),
        );
        Step { state: own.state, output: (below.output + above.output).push(own.output) }
    }

    /// The commits of a list of surfaces, one after the other.
    pub open spec fn commit_forest(self, trees: Seq<SurfaceTree>) -> Step<Seq<CommitOutcomeView>>
        decreases trees, 0int,
    {
        if trees.len() == 0 {
            Step { state: self, output: Seq::empty() }
        } else {
            let before = self.commit_forest(trees.drop_last());
            let last = before.state.commit_tree(trees.last());
            Step { state: last.state, output: before.output + last.output }
        }
    }
}

impl ServerState {
    /// The textures of a surface with their sizes, oldest first.
    pub fn texture_ids(&self, surface_id: u64) -> (list: Vec<(i64, Size)>)
        ensures
            list@ == self@.textures_of(surface_id),
    {
        let mut list: Vec<(i64, Size)> = Vec::new();
        match self.texture_ids_per_surface_id.get(&surface_id) {
            Some(stored) => {
                let mut i: usize = 0;
                while i < stored.len()
                    invariant
                        i <= stored.len(),
                        list@ == stored@.take(i as int),
                    decreases stored.len() - i,
                {
                    list.push(stored[i]);
                    proof {
                        assert(stored@.take(i + 1) =~= stored@.take(i as int).push(
                            stored@[i as int],
                        ));
                    }
                    i = i + 1;
                }
                proof {
                    assert(stored@.take(stored.len() as int) =~= stored@);
                }
            },
            None => {},
        }
        list
    }

    /// The newest texture of a surface with its size, if it has one.
    pub fn last_texture(&self, surface_id: u64) -> (last: Option<(i64, Size)>)
        ensures
            last == self@.last_texture(surface_id),
    {
        match self.texture_ids_per_surface_id.get(&surface_id) {
            Some(stored) => {
                if stored.len() > 0 {
                    Some(stored[stored.len() - 1])
                } else {
                    None
                }
            },
            None => None,
        }
    }

    /// Picks the texture for a freshly imported buffer of a registered
    /// surface.
    pub fn assign_texture(&mut self, surface_id: u64, size: Size) -> (update: TextureUpdate)
        requires
            old(self)@.wf(),
            old(self)@.is_registered(surface_id),
            old(self)@.next_texture_id < i64::MAX,
        ensures
            final(self)@ == old(self)@.assign_texture(surface_id, size).state,
            update == old(self)@.assign_texture(surface_id, size).output,
            final(self)@.wf(),
    {
        let record: MySurfaceState = self.surface(surface_id).unwrap();
        let size_changed: bool = match record.old_texture_size {
            Some(old_size) => old_size != size,
            None => true,
        };
        let reused: Option<(i64, Size)> = if size_changed {
            None
        } else {
            self.last_texture(surface_id)
        };
        self.surfaces.insert(surface_id, MySurfaceState { old_texture_size: Some(size), ..record });
        match reused {
            Some((texture_id, _)) => TextureUpdate { texture_id, is_new: false, released: None },
            None => {
                let texture_id: i64 = self.get_new_texture_id();
                let mut list: Vec<(i64, Size)> = match self.texture_ids_per_surface_id.remove(
                    &surface_id,
                ) {
                    Some(stored) => stored,
                    None => Vec::new(),
                };
                let ghost before = list@;
                let ghost owners = self.surface_id_per_texture_id@;
                let ghost start = self@;
                assert(before == old(self)@.textures_of(surface_id));
                assert(start.textures =~= old(self)@.textures.remove(surface_id));
                let mut released: Option<i64> = None;
                while list.len() >= TEXTURES_PER_SURFACE
                    invariant
                        list.len() <= before.len() <= TEXTURES_PER_SURFACE,
                        list@ == before.skip(before.len() - list.len()),
                        self@ == (ServerModel {
                            owners: self.surface_id_per_texture_id@,
                            ..start
                        }),
                        list.len() == before.len() ==> released is None
                            && self.surface_id_per_texture_id@ == owners,
                        list.len() < before.len() ==> list.len() + 1 == before.len()
                            && before.len() == TEXTURES_PER_SURFACE && released == Some(
                            before[0].0,
                        ) && self.surface_id_per_texture_id@ == owners.remove(before[0].0),
                    decreases list.len(),
                {
                    let oldest: (i64, Size) = list.remove(0);
                    self.surface_id_per_texture_id.remove(&oldest.0);
                    released = Some(oldest.0);
                }
                proof {
                    assert(list@ =~= ring_tail(before));
                    let left = ring_left(before);
                    if list.len() < before.len() {
                        assert(left.len() == 1);
                        assert(left[0] == before[0]);
                        assert forall|t: i64| texture_id_set(left).contains(t) <==> t
                            == before[0].0 by {
                            if lists_texture(left, t) {
                                let k = choose|k: int|
                                    0 <= k < left.len() && (#[trigger] left[k]).0 == t;
                                assert(k == 0);
                            }
                            if t == before[0].0 {
                                assert(left[0].0 == t);
                            }
                        }
                        assert(owners.remove_keys(texture_id_set(left)) =~= owners.remove(
                            before[0].0,
                        ));
                    } else {
                        assert(left.len() == 0);
                        assert(texture_id_set(left) =~= Set::<i64>::empty());
                        assert(owners.remove_keys(texture_id_set(left)) =~= owners);
                    }
                }
                list.push((texture_id, size));
                self.texture_ids_per_surface_id.insert(surface_id, list);
                self.surface_id_per_texture_id.insert(texture_id, surface_id);
                proof {
                    assert(self@.textures =~= start.textures.insert(
                        surface_id,
                        ring_tail(before).push((texture_id, size)),
                    ));
                    assert(self@.textures =~= old(self)@.textures.insert(
                        surface_id,
                        ring_tail(before).push((texture_id, size)),
                    ));
                    lemma_assign_keeps_wf(old(self)@, surface_id, size);
                }
                TextureUpdate { texture_id, is_new: true, released }
            },
        }
    }

    /// Resolves what a commit says about the buffer of a registered
    /// surface.
    pub fn resolve_buffer(&mut self, surface_id: u64, buffer: BufferAssignment) -> (presented:
        Presented)
        requires
            old(self)@.wf(),
            old(self)@.is_registered(surface_id),
            old(self)@.next_texture_id < i64::MAX,
        ensures
            final(self)@ == old(self)@.resolve_buffer(surface_id, buffer).state,
            presented == old(self)@.resolve_buffer(surface_id, buffer).output,
            final(self)@.wf(),
    {
        match buffer {
            BufferAssignment::NewBuffer(Some(size)) => {
                let update = self.assign_texture(surface_id, size);
                Presented {
                    texture_id: update.texture_id,
                    buffer_size: Some(size),
                    update: Some(update),
                }
            },
            BufferAssignment::NewBuffer(None) | BufferAssignment::Removed => Presented {
                texture_id: NO_TEXTURE,
                buffer_size: None,
                update: None,
            },
            BufferAssignment::Unchanged => match self.last_texture(surface_id) {
                Some((texture_id, size)) => Presented {
                    texture_id,
                    buffer_size: Some(size),
                    update: None,
                },
                None => Presented { texture_id: NO_TEXTURE, buffer_size: None, update: None },
            },
        }
    }

    /// Builds the message for a registered surface after a commit.
    pub fn construct_surface_message(
        &mut self,
        commit: &SurfaceCommit,
        presented: Presented,
        subsurfaces_below: Vec<u64>,
        subsurfaces_above: Vec<u64>,
    ) -> (built: (SurfaceMessage, Option<Configure>))
        requires
            old(self)@.wf(),
            old(self)@.is_registered(commit.surface_id),
        ensures
            final(self)@ == old(self)@.surface_message(
                *commit,
                presented,
                subsurfaces_below@,
                subsurfaces_above@,
            ).state,
            (built.0@, built.1) == old(self)@.surface_message(
                *commit,
                presented,
                subsurfaces_below@,
                subsurfaces_above@,
            ).output,
            final(self)@.wf(),
    {
        let (role, configure) = self.construct_surface_role_message(
            commit.surface_id,
            commit.geometry,
            commit.subsurface_location,
        );
        let region = input_region(&commit.input_region, presented.buffer_size);
        (
            SurfaceMessage {
                surface_id: commit.surface_id,
                role,
                texture_id: presented.texture_id,
                buffer_delta: commit.buffer_delta,
                buffer_size: presented.buffer_size,
                scale: commit.buffer_scale,
                input_region: region,
                subsurfaces_below,
                subsurfaces_above,
            },
            configure,
        )
    }
}

/// Picking the texture for a buffer keeps the state well formed.
proof fn lemma_assign_keeps_wf(state: ServerModel, surface_id: u64, size: Size)
    requires
        state.wf(),
        state.is_registered(surface_id),
        state.next_texture_id < i64::MAX,
    ensures
        state.assign_texture(surface_id, size).state.wf(),
{
    let after = state.assign_texture(surface_id, size).state;
    if !state.reuses_texture(surface_id, size) {
        let before = state.textures_of(surface_id);
        let kept = ring_tail(before);
        let left = ring_left(before);
        let texture_id = state.next_texture_id;
        let list = kept.push((texture_id, size));
        let cut = before.len() - kept.len();
        assert(after.textures[surface_id] == list);
        assert forall|i: int| 0 <= i < kept.len() implies (#[trigger] kept[i]) == before[i
            + cut] by {}
        // What is kept was not released.
        assert forall|i: int| 0 <= i < kept.len() implies !texture_id_set(left).contains(
            (#[trigger] kept[i]).0,
        ) by {
            if lists_texture(left, kept[i].0) {
                let k = choose|k: int| 0 <= k < left.len() && (#[trigger] left[k]).0 == kept[i].0;
                assert(left[k] == before[k]);
                assert(before[k].0 < before[i + cut].0);
            }
        }
        // What other surfaces hold was not released.
        assert forall|id: u64, i: int|
            id != surface_id && state.textures.contains_key(id) && 0 <= i
                < state.textures[id].len() implies !texture_id_set(left).contains(
            (#[trigger] state.textures[id][i]).0,
        ) by {
            let t = state.textures[id][i].0;
            if lists_texture(left, t) {
                let k = choose|k: int| 0 <= k < left.len() && (#[trigger] left[k]).0 == t;
                assert(left[k] == before[k]);
                assert(state.textures.contains_key(surface_id));
                assert(state.owners[state.textures[surface_id][k].0] == surface_id);
            }
        }
        assert forall|id: u64, i: int|
            after.textures.contains_key(id) && 0 <= i < after.textures[id].len() implies {
            let t = (#[trigger] after.textures[id][i]).0;
            &&& 1 <= t < after.next_texture_id
            &&& after.owners.contains_key(t)
            &&& after.owners[t] == id
        } by {
            if id == surface_id {
                if i < kept.len() {
                    assert(kept[i] == before[i + cut]);
                    assert(state.textures[surface_id][i + cut].0 == kept[i].0);
                }
            } else {
                assert(after.textures[id] == state.textures[id]);
                assert(state.textures[id][i].0 < texture_id);
            }
        }
        assert forall|id: u64, i: int, j: int|
            after.textures.contains_key(id) && 0 <= i < j < after.textures[id].len() implies (
        #[trigger] after.textures[id][i]).0 < (#[trigger] after.textures[id][j]).0 by {
            if id == surface_id {
                assert(kept[i] == before[i + cut]);
                if j < kept.len() {
                    assert(kept[j] == before[j + cut]);
                } else {
                    assert(state.textures[surface_id][i + cut].0 < texture_id);
                }
            } else {
                assert(after.textures[id] == state.textures[id]);
            }
        }
        assert forall|t: i64| #[trigger] after.owners.contains_key(t) implies after.textures.contains_key(
            after.owners[t],
        ) && lists_texture(after.textures[after.owners[t]], t) by {
            if t == texture_id {
                assert(list[kept.len() as int].0 == t);
            } else {
                assert(state.owners.contains_key(t));
                let owner = state.owners[t];
                let k = choose|k: int|
                    0 <= k < state.textures[owner].len() && (#[trigger] state.textures[owner][k]).0
                        == t;
                if owner == surface_id {
                    if k < cut {
                        assert(left[k] == before[k]);
                        assert(lists_texture(left, t));
                    } else {
                        assert(kept[k - cut] == before[k]);
                        assert(list[k - cut].0 == t);
                    }
                } else {
                    assert(after.textures[owner] == state.textures[owner]);
                    assert(after.textures[owner][k].0 == t);
                }
            }
        }
    } else {
        assert forall|id: u64|
            after.textures.contains_key(id) && #[trigger] after.surfaces.contains_key(id)
                && after.textures[id].len() > 0 implies after.surfaces[id].old_texture_size
            == Some(after.textures[id].last().1) by {
            if id == surface_id {
                assert(state.surfaces.contains_key(id));
            } else {
                assert(state.surfaces.contains_key(id));
            }
        }
    }
}

/// The place of the first `needle` in `s`, or the length of `s` where it
/// holds none.
pub open spec fn first_occurrence(s: Seq<u64>, needle: u64) -> int
    decreases s.len(),
{
    if s.len() == 0 {
        0
    } else if s[0] == needle {
        0
    } else {
        1 + first_occurrence(s.skip(1), needle)
    }
}

/// The test for an id other than `surface_id`.
pub open spec fn differs_from(surface_id: u64) -> spec_fn(u64) -> bool {
    |id: u64| id != surface_id
}

/// The subsurfaces stacked below a surface: what stands before the surface
/// itself in the stacking order of its children, in which the surface
/// marks its own place.
pub open spec fn subsurfaces_below(stacking: Seq<u64>, surface_id: u64) -> Seq<u64> {
    stacking.take(first_occurrence(stacking, surface_id))
}

/// The subsurfaces stacked above a surface: what stands behind the surface
/// itself in the stacking order of its children.
pub open spec fn subsurfaces_above(stacking: Seq<u64>, surface_id: u64) -> Seq<u64> {
    let own = first_occurrence(stacking, surface_id);
    if own < stacking.len() {
        stacking.skip(own + 1).filter(differs_from(surface_id))
    } else {
        Seq::empty()
    }
}

/// Where nothing before place `k` is the needle, and place `k` holds it or
/// is the end, `k` is the first occurrence.
proof fn lemma_first_occurrence(s: Seq<u64>, needle: u64, k: int)
    requires
        0 <= k <= s.len(),
        forall|j: int| 0 <= j < k ==> s[j] != needle,
        k < s.len() ==> s[k] == needle,
    ensures
        first_occurrence(s, needle) == k,
    decreases s.len(),
{
    if s.len() == 0 || k == 0 {
    } else {
        assert(s[0] != needle);
        let rest = s.skip(1);
        assert forall|j: int| 0 <= j < k - 1 implies rest[j] != needle by {
            assert(rest[j] == s[j + 1]);
        }
        lemma_first_occurrence(rest, needle, k - 1);
    }
}

/// Splits the children of a surface, given in stacking order with the
/// surface's own id marking its place, into those below and those above it.
pub fn get_direct_subsurfaces(stacking: &Vec<u64>, surface_id: u64) -> (split: (
    Vec<u64>,
    Vec<u64>,
))
    ensures
        split.0@ == subsurfaces_below(stacking@, surface_id),
        split.1@ == subsurfaces_above(stacking@, surface_id),
{
    let mut subsurfaces_below: Vec<u64> = Vec::new();
    let mut subsurfaces_above: Vec<u64> = Vec::new();
    let mut above: bool = false;
    let ghost own: int = 0;
    let ghost other = differs_from(surface_id);
    let mut i: usize = 0;
    while i < stacking.len()
        invariant
            i <= stacking.len(),
            other == differs_from(surface_id),
            !above ==> {
                &&& forall|j: int| 0 <= j < i ==> stacking@[j] != surface_id
                &&& subsurfaces_below@ == stacking@.take(i as int)
                &&& subsurfaces_above@ == Seq::<u64>::empty()
            },
            above ==> {
                &&& 0 <= own < i
                &&& stacking@[own] == surface_id
                &&& forall|j: int| 0 <= j < own ==> stacking@[j] != surface_id
                &&& subsurfaces_below@ == stacking@.take(own)
                &&& subsurfaces_above@ == stacking@.subrange(own + 1, i as int).filter(other)
            },
        decreases stacking.len() - i,
    {
        let id: u64 = stacking[i];
        if id == surface_id {
            proof {
                if above {
                    let seen = stacking@.subrange(own + 1, i as int);
                    assert(stacking@.subrange(own + 1, i + 1) =~= seen.push(id));
                    seen.lemma_filter_push(id, other);
                } else {
                    own = i as int;
                    assert(stacking@.subrange(own + 1, i + 1) =~= Seq::<u64>::empty());
                }
            }
            above = true;
        } else if above {
            proof {
                let seen = stacking@.subrange(own + 1, i as int);
                assert(stacking@.subrange(own + 1, i + 1) =~= seen.push(id));
                seen.lemma_filter_push(id, other);
            }
            subsurfaces_above.push(id);
        } else {
            proof {
                assert(stacking@.take(i + 1) =~= stacking@.take(i as int).push(id));
            }
            subsurfaces_below.push(id);
        }
        i = i + 1;
    }
    proof {
        if above {
            lemma_first_occurrence(stacking@, surface_id, own);
            assert(stacking@.subrange(own + 1, stacking.len() as int) =~= stacking@.skip(own + 1));
        } else {
            lemma_first_occurrence(stacking@, surface_id, stacking.len() as int);
            assert(stacking@.take(stacking.len() as int) =~= stacking@);
        }
    }
    (subsurfaces_below, subsurfaces_above)
}

/// The first trees of a list hold no more surfaces than all of them, and
/// one tree more adds its surfaces.
proof fn lemma_forest_count_prefix(trees: Seq<SurfaceTree>, i: int)
    requires
        0 <= i <= trees.len(),
    ensures
        forest_count(trees.take(i)) <= forest_count(trees),
        i < trees.len() ==> forest_count(trees.take(i + 1)) == forest_count(trees.take(i))
            + node_count(trees[i]),
    decreases trees.len(),
{
    if i < trees.len() {
        assert(trees.take(i + 1).drop_last() =~= trees.take(i));
        assert(trees.take(i + 1).last() == trees[i]);
        assert(trees.drop_last().take(i) =~= trees.take(i));
        lemma_forest_count_prefix(trees.drop_last(), i);
    } else {
        assert(trees.take(i) =~= trees);
    }
}

/// Where all surfaces of a list of trees are known, so are those of each
/// tree.
proof fn lemma_forest_registered_index(known: Set<u64>, trees: Seq<SurfaceTree>, i: int)
    requires
        forest_registered(known, trees),
        0 <= i < trees.len(),
    ensures
        tree_registered(known, trees[i]),
    decreases trees.len(),
{
    if i < trees.len() - 1 {
        lemma_forest_registered_index(known, trees.drop_last(), i);
    }
}

/// The commit of one surface changes no surface's registration and uses up
/// at most one texture id.
proof fn lemma_commit_surface_keeps(
    state: ServerModel,
    commit: SurfaceCommit,
    below: Seq<u64>,
    above: Seq<u64>,
)
    requires
        state.is_registered(commit.surface_id),
        state.next_texture_id < i64::MAX,
    ensures
        state.commit_surface(commit, below, above).state.surfaces.dom() == state.surfaces.dom(),
        state.next_texture_id <= state.commit_surface(commit, below, above).state.next_texture_id,
        state.commit_surface(commit, below, above).state.next_texture_id <= state.next_texture_id
            + 1,
        state.commit_surface(commit, below, above).state.next_surface_id
            == state.next_surface_id,
        state.commit_surface(commit, below, above).output.message.surface_id
            == commit.surface_id,
{
    let resolved = state.resolve_buffer(commit.surface_id, commit.buffer);
    assert(resolved.state.surfaces.dom() =~= state.surfaces.dom());
    let built = resolved.state.surface_message(commit, resolved.output, below, above);
    assert(built.state.surfaces.dom() =~= resolved.state.surfaces.dom());
}

impl ServerState {
    /// Commits one registered surface whose subsurfaces have been
    /// committed: resolves its buffer and builds its message.
    pub fn commit_surface(
        &mut self,
        commit: &SurfaceCommit,
        subsurfaces_below: Vec<u64>,
        subsurfaces_above: Vec<u64>,
    ) -> (outcome: CommitOutcome)
        requires
            old(self)@.wf(),
            old(self)@.is_registered(commit.surface_id),
            old(self)@.next_texture_id < i64::MAX,
        ensures
            final(self)@ == old(self)@.commit_surface(
                *commit,
                subsurfaces_below@,
                subsurfaces_above@,
            ).state,
            outcome@ == old(self)@.commit_surface(
                *commit,
                subsurfaces_below@,
                subsurfaces_above@,
            ).output,
            final(self)@.wf(),
    {
        let presented = self.resolve_buffer(commit.surface_id, commit.buffer);
        proof {
            assert(self@.surfaces.dom() =~= old(self)@.surfaces.dom());
        }
        let (message, configure) = self.construct_surface_message(
            commit,
            presented,
            subsurfaces_below,
            subsurfaces_above,
        );
        CommitOutcome { texture: presented.update, configure, message }
    }

    /// Commits a surface with its subsurfaces: each subsurface first, those
    /// below and then those above, then the surface itself. The outcomes
    /// come in the order in which they are to be carried out.
    pub fn commit(&mut self, tree: &SurfaceTree) -> (outcomes: Vec<CommitOutcome>)
        requires
            old(self)@.wf(),
            tree_registered(old(self)@.surfaces.dom(), *tree),
            old(self)@.next_texture_id + node_count(*tree) <= i64::MAX,
        ensures
            final(self)@ == old(self)@.commit_tree(*tree).state,
            outcome_views(outcomes@) == old(self)@.commit_tree(*tree).output,
            final(self)@.wf(),
            final(self)@.surfaces.dom() == old(self)@.surfaces.dom(),
            old(self)@.next_texture_id <= final(self)@.next_texture_id,
            final(self)@.next_texture_id <= old(self)@.next_texture_id + node_count(*tree),
        decreases tree, 1int,
    {
        let mut outcomes = self.commit_all(&tree.below);
        let mut above = self.commit_all(&tree.above);
        let ghost first = outcomes@;
        let ghost second = above@;
        outcomes.append(&mut above);
        let below_ids = root_ids_of(&tree.below);
        let above_ids = root_ids_of(&tree.above);
        proof {
            lemma_commit_surface_keeps(self@, tree.surface, below_ids@, above_ids@);
        }
        let own = self.commit_surface(&tree.surface, below_ids, above_ids);
        outcomes.push(own);
        proof {
            assert(outcome_views(outcomes@) =~= (outcome_views(first) + outcome_views(
                second,
            )).push(own@));
        }
        outcomes
    }

    /// Commits a list of surfaces, each with its subsurfaces, one after the
    /// other.
    pub fn commit_all(&mut self, trees: &Vec<SurfaceTree>) -> (outcomes: Vec<CommitOutcome>)
        requires
            old(self)@.wf(),
            forest_registered(old(self)@.surfaces.dom(), trees@),
            old(self)@.next_texture_id + forest_count(trees@) <= i64::MAX,
        ensures
            final(self)@ == old(self)@.commit_forest(trees@).state,
            outcome_views(outcomes@) == old(self)@.commit_forest(trees@).output,
            final(self)@.wf(),
            final(self)@.surfaces.dom() == old(self)@.surfaces.dom(),
            old(self)@.next_texture_id <= final(self)@.next_texture_id,
            final(self)@.next_texture_id <= old(self)@.next_texture_id + forest_count(trees@),
        decreases trees, 0int,
    {
        let ghost start = self@;
        let mut outcomes: Vec<CommitOutcome> = Vec::new();
        let mut i: usize = 0;
        proof {
            assert(outcome_views(outcomes@) =~= Seq::<CommitOutcomeView>::empty());
        }
        while i < trees.len()
            invariant
                i <= trees.len(),
                start.wf(),
                forest_registered(start.surfaces.dom(), trees@),
                start.next_texture_id + forest_count(trees@) <= i64::MAX,
                self@ == start.commit_forest(trees@.take(i as int)).state,
                outcome_views(outcomes@) == start.commit_forest(trees@.take(i as int)).output,
                self@.wf(),
                self@.surfaces.dom() == start.surfaces.dom(),
                start.next_texture_id <= self@.next_texture_id,
                self@.next_texture_id <= start.next_texture_id + forest_count(
                    trees@.take(i as int),
                ),
            decreases trees.len() - i,
        {
            proof {
                lemma_forest_registered_index(start.surfaces.dom(), trees@, i as int);
                lemma_forest_count_prefix(trees@, i as int);
                lemma_forest_count_prefix(trees@, i + 1);
                assert(trees@.take(i + 1).drop_last() =~= trees@.take(i as int));
                assert(trees@.take(i + 1).last() == trees@[i as int]);
            }
            let ghost before = outcomes@;
            let mut next = self.commit(&trees[i]);
            let ghost added = next@;
            outcomes.append(&mut next);
            proof {
                assert(outcome_views(outcomes@) =~= outcome_views(before) + outcome_views(added));
            }
            i = i + 1;
        }
        proof {
            assert(trees@.take(trees.len() as int) =~= trees@);
        }
        outcomes
    }
}

/// The commit of one registered surface keeps the state well formed.
pub proof fn lemma_commit_surface_keeps_wf(
    state: ServerModel,
    commit: SurfaceCommit,
    below: Seq<u64>,
    above: Seq<u64>,
)
    requires
        state.wf(),
        state.is_registered(commit.surface_id),
        state.next_texture_id < i64::MAX,
    ensures
        state.commit_surface(commit, below, above).state.wf(),
{
    let resolved = state.resolve_buffer(commit.surface_id, commit.buffer);
    match commit.buffer {
        BufferAssignment::NewBuffer(Some(size)) => {
            lemma_assign_keeps_wf(state, commit.surface_id, size);
        },
        _ => {},
    }
    assert(resolved.state.wf());
    assert(resolved.state.surfaces.dom() =~= state.surfaces.dom());
}

/// The commit of a surface with its subsurfaces keeps the state well
/// formed, changes no surface's registration, and uses up no more texture
/// ids than the tree has surfaces.
pub proof fn lemma_commit_keeps_wf(state: ServerModel, tree: SurfaceTree)
    requires
        state.wf(),
        can_commit(state, tree),
    ensures
        state.commit_tree(tree).state.wf(),
        state.commit_tree(tree).state.surfaces.dom() == state.surfaces.dom(),
        state.next_texture_id <= state.commit_tree(tree).state.next_texture_id,
        state.commit_tree(tree).state.next_texture_id <= state.next_texture_id + node_count(tree),
    decreases tree, 1int,
{
    lemma_commits_keep_wf(state, tree.below@);
    let below = state.commit_forest(tree.below@);
    lemma_commits_keep_wf(below.state, tree.above@);
    let above = below.state.commit_forest(tree.above@);
    lemma_commit_surface_keeps(
        above.state,
        tree.surface,
        root_ids(tree.below@),
        root_ids(tree.above@),
    );
    lemma_commit_surface_keeps_wf(
        above.state,
        tree.surface,
        root_ids(tree.below@),
        root_ids(tree.above@),
    );
}

/// The commits of a list of surfaces keep the state well formed.
pub proof fn lemma_commits_keep_wf(state: ServerModel, trees: Seq<SurfaceTree>)
    requires
        state.wf(),
        forest_registered(state.surfaces.dom(), trees),
        state.next_texture_id + forest_count(trees) <= i64::MAX,
    ensures
        state.commit_forest(trees).state.wf(),
        state.commit_forest(trees).state.surfaces.dom() == state.surfaces.dom(),
        state.next_texture_id <= state.commit_forest(trees).state.next_texture_id,
        state.commit_forest(trees).state.next_texture_id <= state.next_texture_id + forest_count(
            trees,
        ),
    decreases trees, 0int,
{
    if trees.len() > 0 {
        lemma_commits_keep_wf(state, trees.drop_last());
        lemma_commit_keeps_wf(state.commit_forest(trees.drop_last()).state, trees.last());
    }
}

/// Whether a tree can be committed: all its surfaces are registered, and
/// there is a texture id left for each of them.
pub open spec fn can_commit(state: ServerModel, tree: SurfaceTree) -> bool {
    &&& tree_registered(state.surfaces.dom(), tree)
    &&& state.next_texture_id + node_count(tree) <= i64::MAX
}

impl ServerModel {
    /// The state after a commit was asked for: the state after the commit
    /// where it can be made, the same state where it cannot.
    pub open spec fn after_try_commit(self, tree: SurfaceTree) -> ServerModel {
        if can_commit(self, tree) {
            self.commit_tree(tree).state
        } else {
            self
        }
    }
}

impl ServerState {
    /// Counts the surfaces of a tree off against `room`: hands out what is
    /// left of it, or nothing where a surface is not registered or the tree
    /// has more surfaces than `room`.
    fn room_after(&self, tree: &SurfaceTree, room: i64) -> (left: Option<i64>)
        requires
            room >= 0,
        ensures
            match left {
                Some(rest) => tree_registered(self@.surfaces.dom(), *tree) && rest == room
                    - node_count(*tree) && rest >= 0,
                None => !tree_registered(self@.surfaces.dom(), *tree) || node_count(*tree) > room,
            },
        decreases tree, 1int,
    {
        if !self.is_registered(tree.surface.surface_id) || room < 1 {
            return None;
        }
        let after_below = match self.room_after_all(&tree.below, room - 1) {
            Some(rest) => rest,
            None => return None,
        };
        self.room_after_all(&tree.above, after_below)
    }

    /// Counts the surfaces of a list of trees off against `room`.
    fn room_after_all(&self, trees: &Vec<SurfaceTree>, room: i64) -> (left: Option<i64>)
        requires
            room >= 0,
        ensures
            match left {
                Some(rest) => forest_registered(self@.surfaces.dom(), trees@) && rest == room
                    - forest_count(trees@) && rest >= 0,
                None => !forest_registered(self@.surfaces.dom(), trees@) || forest_count(trees@)
                    > room,
            },
        decreases trees, 0int,
    {
        let mut rest: i64 = room;
        let mut i: usize = 0;
        while i < trees.len()
            invariant
                i <= trees.len(),
                0 <= rest <= room,
                forest_registered(self@.surfaces.dom(), trees@.take(i as int)),
                rest == room - forest_count(trees@.take(i as int)),
            decreases trees.len() - i,
        {
            proof {
                lemma_forest_count_prefix(trees@, i as int);
                lemma_forest_count_prefix(trees@, i + 1);
                assert(trees@.take(i + 1).drop_last() =~= trees@.take(i as int));
                assert(trees@.take(i + 1).last() == trees@[i as int]);
                if forest_registered(self@.surfaces.dom(), trees@) {
                    lemma_forest_registered_index(self@.surfaces.dom(), trees@, i as int);
                }
            }
            match self.room_after(&trees[i], rest) {
                Some(less) => {
                    rest = less;
                },
                None => {
                    return None;
                },
            }
            i = i + 1;
        }
        proof {
            assert(trees@.take(trees.len() as int) =~= trees@);
        }
        Some(rest)
    }

    /// Commits a surface with its subsurfaces where that can be done, and
    /// says so where it cannot: a tree that names a surface off the
    /// registry, or one for which the texture ids would run out, is not
    /// committed, and nothing changes.
    pub fn try_commit(&mut self, tree: &SurfaceTree) -> (outcomes: Option<Vec<CommitOutcome>>)
        requires
            old(self)@.wf(),
        ensures
            outcomes is Some <==> can_commit(old(self)@, *tree),
            final(self)@ == old(self)@.after_try_commit(*tree),
            outcomes matches Some(list) ==> outcome_views(list@) == old(self)@.commit_tree(
                *tree,
            ).output,
            final(self)@.wf(),
    {
        let room: i64 = i64::MAX - self.next_texture_id;
        match self.room_after(tree, room) {
            Some(_) => Some(self.commit(tree)),
            None => None,
        }
    }
}

/// The ids of the roots of a list of surface trees.
pub fn root_ids_of(trees: &Vec<SurfaceTree>) -> (ids: Vec<u64>)
    ensures
        ids@ == root_ids(trees@),
{
    let mut ids: Vec<u64> = Vec::new();
    let mut i: usize = 0;
    while i < trees.len()
        invariant
            i <= trees.len(),
            ids@ == root_ids(trees@.take(i as int)),
        decreases trees.len() - i,
    {
        ids.push(trees[i].surface.surface_id);
        proof {
            assert(root_ids(trees@.take(i + 1)) =~= root_ids(trees@.take(i as int)).push(
                trees@[i as int].surface.surface_id,
            ));
        }
        i = i + 1;
    }
    proof {
        assert(trees@.take(trees.len() as int) =~= trees@);
    }
    ids
}

} // verus!
