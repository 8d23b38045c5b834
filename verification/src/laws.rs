//! What holds of the core over whole runs: the order of surface ids, the
//! bound on a surface's textures, the order of the messages of a commit, and
//! the texture that an unchanged buffer shows.

use crate::commit::{
    can_commit, forest_count, lemma_commit_keeps_wf, node_count, root_ids, BufferAssignment,
    CommitOutcomeView, SurfaceCommit, SurfaceTree,
};
use crate::messages::NO_TEXTURE;
use crate::roles::Configure;
use crate::server_state::{lists_texture, ServerModel, TEXTURES_PER_SURFACE};
use vstd::prelude::*;

verus! {

/// What a client can ask of the registry.
pub enum ClientRequest {
    /// A surface is created.
    NewSurface,
    /// A surface is committed with its subsurfaces.
    Commit(SurfaceTree),
    /// The surface of this id is destroyed.
    Destroy(u64),
}

impl ServerModel {
    /// The state after one request of a client. A request that cannot be
    /// served changes nothing: a surface for which no id is left, a commit
    /// that cannot be made, the destruction of a surface off the registry.
    pub open spec fn after_request(self, request: ClientRequest) -> ServerModel {
        match request {
            ClientRequest::NewSurface => self.after_try_new_surface(),
            ClientRequest::Commit(tree) => self.after_try_commit(tree),
            ClientRequest::Destroy(surface_id) => self.after_try_destroyed(surface_id),
        }
    }

    /// The state after a run of requests of any number of clients.
    pub open spec fn after_requests(self, requests: Seq<ClientRequest>) -> ServerModel
        decreases requests.len(),
    {
        if requests.len() == 0 {
            self
        } else {
            self.after_requests(requests.drop_last()).after_request(requests.last())
        }
    }

    /// The ids of the surfaces that a run of requests creates, in the order
    /// in which the UI engine is told of them.
    pub open spec fn announced_ids(self, requests: Seq<ClientRequest>) -> Seq<u64>
        decreases requests.len(),
    {
        if requests.len() == 0 {
            Seq::empty()
        } else {
            let before = self.announced_ids(requests.drop_last());
            let state = self.after_requests(requests.drop_last());
            match requests.last() {
                ClientRequest::NewSurface => if state.next_surface_id < u64::MAX {
                    before.push(state.next_surface_id)
                } else {
                    before
                },
                _ => before,
            }
        }
    }
}

/// The ids of the surfaces of a tree in the order in which their messages
/// go out: for each subsurface below and then each above, its own tree in
/// this order, and the surface itself last.
pub open spec fn commit_order(tree: SurfaceTree) -> Seq<u64>
    decreases tree, 1int,
{
    (forest_order(tree.below@) + forest_order(tree.above@)).push(tree.surface.surface_id)
}

/// The ids of the surfaces of a list of trees in the order in which their
/// messages go out.
pub open spec fn forest_order(trees: Seq<SurfaceTree>) -> Seq<u64>
    decreases trees, 0int,
{
    if trees.len() == 0 {
        Seq::empty()
    } else {
        forest_order(trees.drop_last()) + commit_order(trees.last())
    }
}

/// The surface ids of the messages of a list of outcomes.
pub open spec fn message_ids(outcomes: Seq<CommitOutcomeView>) -> Seq<u64> {
    outcomes.map_values(|o: CommitOutcomeView| o.message.surface_id)
}

/// A commit leaves the counter of surface ids alone.
pub proof fn lemma_commit_keeps_surface_counter(state: ServerModel, tree: SurfaceTree)
    ensures
        state.commit_tree(tree).state.next_surface_id == state.next_surface_id,
    decreases tree, 1int,
{
    lemma_commits_keep_surface_counter(state, tree.below@);
    let below = state.commit_forest(tree.below@);
    lemma_commits_keep_surface_counter(below.state, tree.above@);
}

/// Commits leave the counter of surface ids alone.
pub proof fn lemma_commits_keep_surface_counter(state: ServerModel, trees: Seq<SurfaceTree>)
    ensures
        state.commit_forest(trees).state.next_surface_id == state.next_surface_id,
    decreases trees, 0int,
{
    if trees.len() > 0 {
        lemma_commits_keep_surface_counter(state, trees.drop_last());
        lemma_commit_keeps_surface_counter(
            state.commit_forest(trees.drop_last()).state,
            trees.last(),
        );
    }
}

/// Over any run of surface creations, commits and destructions, of any
/// number of clients and in any order, the UI engine is told of surface ids
/// that count up one by one from the next id at the start. So they are
/// strictly increasing, and no two are equal.
pub proof fn lemma_surface_ids_increase(start: ServerModel, requests: Seq<ClientRequest>)
    ensures
        start.after_requests(requests).next_surface_id == start.next_surface_id
            + start.announced_ids(requests).len(),
        start.announced_ids(requests).len() <= requests.len(),
        forall|k: int|
            0 <= k < start.announced_ids(requests).len() ==> #[trigger] start.announced_ids(
                requests,
            )[k] == start.next_surface_id + k,
        forall|i: int, j: int|
            0 <= i < j < start.announced_ids(requests).len() ==> start.announced_ids(requests)[i]
                < start.announced_ids(requests)[j],
    decreases requests.len(),
{
    if requests.len() > 0 {
        lemma_surface_ids_increase(start, requests.drop_last());
        let before = start.after_requests(requests.drop_last());
        match requests.last() {
            ClientRequest::Commit(tree) => {
                lemma_commit_keeps_surface_counter(before, tree);
            },
            _ => {},
        }
    }
}

/// Every state of a run that starts in a well-formed state is well formed:
/// at every point in time a surface has at most two textures, and the two
/// texture maps agree.
pub proof fn lemma_run_keeps_wf(start: ServerModel, requests: Seq<ClientRequest>)
    requires
        start.wf(),
    ensures
        start.after_requests(requests).wf(),
    decreases requests.len(),
{
    if requests.len() > 0 {
        lemma_run_keeps_wf(start, requests.drop_last());
        let before = start.after_requests(requests.drop_last());
        match requests.last() {
            ClientRequest::Commit(tree) => {
                if can_commit(before, tree) {
                    lemma_commit_keeps_wf(before, tree);
                }
            },
            ClientRequest::NewSurface => {
                if before.next_surface_id < u64::MAX {
                    lemma_new_surface_keeps_wf(before);
                }
            },
            ClientRequest::Destroy(surface_id) => {
                if before.is_registered(surface_id) {
                    lemma_destroyed_keeps_wf(before, surface_id);
                }
            },
        }
    }
}

/// Registering a surface keeps the state well formed.
pub proof fn lemma_new_surface_keeps_wf(state: ServerModel)
    requires
        state.wf(),
        state.next_surface_id < u64::MAX,
    ensures
        state.after_new_surface().wf(),
{
    assert(!state.textures.contains_key(state.next_surface_id));
}

/// Destroying a surface keeps the state well formed.
pub proof fn lemma_destroyed_keeps_wf(state: ServerModel, surface_id: u64)
    requires
        state.wf(),
    ensures
        state.after_destroyed(surface_id).wf(),
{
}

/// A surface never has more than two textures.
pub proof fn lemma_texture_bound(state: ServerModel, surface_id: u64)
    requires
        state.wf(),
    ensures
        state.textures_of(surface_id).len() <= TEXTURES_PER_SURFACE,
{
}

/// The two texture maps agree: a texture stands in the list of a surface
/// exactly when it is entered under that surface.
pub proof fn lemma_texture_maps_agree(state: ServerModel, surface_id: u64, texture_id: i64)
    requires
        state.wf(),
    ensures
        lists_texture(state.textures_of(surface_id), texture_id) <==> state.owners.contains_key(
            texture_id,
        ) && state.owners[texture_id] == surface_id,
{
    if lists_texture(state.textures_of(surface_id), texture_id) {
        let list = state.textures_of(surface_id);
        let k = choose|k: int| 0 <= k < list.len() && (#[trigger] list[k]).0 == texture_id;
        assert(state.textures.contains_key(surface_id));
        assert(state.textures[surface_id][k].0 == texture_id);
    }
}

/// Destroying a surface releases its textures: its list is gone, none of
/// its textures is entered under a surface any more, and the textures of
/// every other surface stay as they are.
pub proof fn lemma_destroyed_releases_textures(
    state: ServerModel,
    surface_id: u64,
    other: u64,
    i: int,
)
    requires
        state.wf(),
        0 <= i < state.textures_of(surface_id).len(),
        other != surface_id,
    ensures
        state.after_destroyed(surface_id).wf(),
        !state.after_destroyed(surface_id).is_registered(surface_id),
        state.after_destroyed(surface_id).textures_of(surface_id).len() == 0,
        !state.after_destroyed(surface_id).owners.contains_key(
            state.textures_of(surface_id)[i].0,
        ),
        state.after_destroyed(surface_id).textures_of(other) == state.textures_of(other),
{
    let list = state.textures_of(surface_id);
    assert(lists_texture(list, list[i].0));
}

/// No texture stands in two lists, nor twice in one.
pub proof fn lemma_texture_listed_once(
    state: ServerModel,
    first: u64,
    i: int,
    second: u64,
    j: int,
)
    requires
        state.wf(),
        0 <= i < state.textures_of(first).len(),
        0 <= j < state.textures_of(second).len(),
        state.textures_of(first)[i].0 == state.textures_of(second)[j].0,
    ensures
        first == second,
        i == j,
{
    assert(state.textures.contains_key(first));
    assert(state.textures.contains_key(second));
    assert(state.owners[state.textures[first][i].0] == first);
    assert(state.owners[state.textures[second][j].0] == second);
    if i < j {
        assert(state.textures[first][i].0 < state.textures[first][j].0);
    }
    if j < i {
        assert(state.textures[first][j].0 < state.textures[first][i].0);
    }
}

/// The messages of a commit come in the order of `commit_order`: one for
/// each surface of the tree, the committed surface's own last.
pub proof fn lemma_commit_order(state: ServerModel, tree: SurfaceTree)
    ensures
        message_ids(state.commit_tree(tree).output) == commit_order(tree),
        state.commit_tree(tree).output.len() == node_count(tree),
        state.commit_tree(tree).output.last().message.surface_id == tree.surface.surface_id,
    decreases tree, 1int,
{
    lemma_commits_order(state, tree.below@);
    let below = state.commit_forest(tree.below@);
    lemma_commits_order(below.state, tree.above@);
    let above = below.state.commit_forest(tree.above@);
    let out = state.commit_tree(tree).output;
    assert(message_ids(out) =~= (message_ids(below.output) + message_ids(above.output)).push(
        tree.surface.surface_id,
    ));
}

/// The messages of a list of commits come in the order of `forest_order`.
pub proof fn lemma_commits_order(state: ServerModel, trees: Seq<SurfaceTree>)
    ensures
        message_ids(state.commit_forest(trees).output) == forest_order(trees),
        state.commit_forest(trees).output.len() == forest_count(trees),
    decreases trees, 0int,
{
    if trees.len() > 0 {
        lemma_commits_order(state, trees.drop_last());
        let before = state.commit_forest(trees.drop_last());
        lemma_commit_order(before.state, trees.last());
        let last = before.state.commit_tree(trees.last());
        assert(message_ids(before.output + last.output) =~= message_ids(before.output)
            + message_ids(last.output));
    } else {
        assert(message_ids(state.commit_forest(trees).output) =~= Seq::<u64>::empty());
    }
}

/// In the order of a list of trees, the surfaces of each tree stand
/// together, after those of the trees before it.
pub proof fn lemma_forest_order_block(trees: Seq<SurfaceTree>, k: int)
    requires
        0 <= k < trees.len(),
    ensures
        forest_order(trees.take(k)).len() + commit_order(trees[k]).len() <= forest_order(
            trees,
        ).len(),
        forest_order(trees).subrange(
            forest_order(trees.take(k)).len() as int,
            (forest_order(trees.take(k)).len() + commit_order(trees[k]).len()) as int,
        ) == commit_order(trees[k]),
    decreases trees.len(),
{
    let front = forest_order(trees.drop_last());
    if k == trees.len() - 1 {
        assert(trees.take(k) =~= trees.drop_last());
        assert((front + commit_order(trees.last())).subrange(
            front.len() as int,
            (front.len() + commit_order(trees.last()).len()) as int,
        ) =~= commit_order(trees.last()));
    } else {
        lemma_forest_order_block(trees.drop_last(), k);
        assert(trees.drop_last().take(k) =~= trees.take(k));
        let at = forest_order(trees.take(k)).len() as int;
        let n = commit_order(trees[k]).len() as int;
        assert((front + commit_order(trees.last())).subrange(at, at + n) =~= front.subrange(
            at,
            at + n,
        ));
    }
}

/// For every commit, the messages of its subsurfaces precede its own: the
/// messages of each subsurface below the surface, with those of the
/// subsurface's own tree, stand together in the order of the commit and
/// end before the surface's own message, which is the last.
pub proof fn lemma_subsurface_below_precedes(state: ServerModel, tree: SurfaceTree, k: int)
    requires
        0 <= k < tree.below.len(),
    ensures
        ({
            let ids = message_ids(state.commit_tree(tree).output);
            let at = forest_order(tree.below@.take(k)).len() as int;
            let child = commit_order(tree.below@[k]);
            &&& at + child.len() < ids.len()
            &&& ids.subrange(at, at + child.len()) == child
            &&& child.last() == tree.below@[k].surface.surface_id
            &&& ids.last() == tree.surface.surface_id
        }),
{
    lemma_commit_order(state, tree);
    lemma_forest_order_block(tree.below@, k);
    let ids = commit_order(tree);
    let below = forest_order(tree.below@);
    let at = forest_order(tree.below@.take(k)).len() as int;
    let n = commit_order(tree.below@[k]).len() as int;
    assert(ids.subrange(at, at + n) =~= below.subrange(at, at + n));
}

/// The same for each subsurface above the surface, whose messages follow
/// those of all subsurfaces below.
pub proof fn lemma_subsurface_above_precedes(state: ServerModel, tree: SurfaceTree, k: int)
    requires
        0 <= k < tree.above.len(),
    ensures
        ({
            let ids = message_ids(state.commit_tree(tree).output);
            let at = (forest_order(tree.below@).len() + forest_order(
                tree.above@.take(k),
            ).len()) as int;
            let child = commit_order(tree.above@[k]);
            &&& at + child.len() < ids.len()
            &&& ids.subrange(at, at + child.len()) == child
            &&& child.last() == tree.above@[k].surface.surface_id
            &&& ids.last() == tree.surface.surface_id
        }),
{
    lemma_commit_order(state, tree);
    lemma_forest_order_block(tree.above@, k);
    let ids = commit_order(tree);
    let below = forest_order(tree.below@);
    let above = forest_order(tree.above@);
    let at = forest_order(tree.above@.take(k)).len() as int;
    let n = commit_order(tree.above@[k]).len() as int;
    assert(ids.subrange(below.len() + at, below.len() + at + n) =~= above.subrange(at, at + n));
}

/// Whether a commit shows no texture although the surface has one: its
/// buffer was removed, or could not be imported.
pub open spec fn hides_texture(state: ServerModel, commit: SurfaceCommit) -> bool {
    &&& commit.buffer == BufferAssignment::Removed || commit.buffer
        == BufferAssignment::NewBuffer(None)
    &&& state.textures_of(commit.surface_id).len() > 0
}

/// A commit that leaves the buffer unchanged shows the texture that the
/// commit before it showed, and presents no new frame. The one exception is
/// a commit before it that hid the surface's texture.
pub proof fn lemma_unchanged_commit_shows_same_texture(
    state: ServerModel,
    first: SurfaceCommit,
    first_below: Seq<u64>,
    first_above: Seq<u64>,
    second: SurfaceCommit,
    second_below: Seq<u64>,
    second_above: Seq<u64>,
)
    requires
        state.wf(),
        state.is_registered(first.surface_id),
        state.next_texture_id < i64::MAX,
        second.surface_id == first.surface_id,
        second.buffer == BufferAssignment::Unchanged,
        !hides_texture(state, first),
    ensures
        ({
            let one = state.commit_surface(first, first_below, first_above);
            let two = one.state.commit_surface(second, second_below, second_above);
            &&& two.output.message.texture_id == one.output.message.texture_id
            &&& two.output.message.buffer_size == one.output.message.buffer_size
            &&& two.output.texture is None
            &&& two.state.textures == one.state.textures
            &&& two.state.owners == one.state.owners
            &&& two.state.next_texture_id == one.state.next_texture_id
        }),
{
    let resolved = state.resolve_buffer(first.surface_id, first.buffer);
    let one = state.commit_surface(first, first_below, first_above);
    assert(one.state.textures == resolved.state.textures);
    assert(one.state.textures_of(first.surface_id) == resolved.state.textures_of(
        first.surface_id,
    ));
}

/// An id that a run of requests announces is new: no surface that was
/// registered when the run began has it.
pub proof fn lemma_announced_ids_are_new(
    start: ServerModel,
    requests: Seq<ClientRequest>,
    k: int,
    registered: u64,
)
    requires
        start.wf(),
        0 <= k < start.announced_ids(requests).len(),
        start.is_registered(registered),
    ensures
        registered < start.announced_ids(requests)[k],
{
    lemma_surface_ids_increase(start, requests);
}

/// The first configure of a toplevel carries the states "activated" and
/// "maximized": a toplevel that waits for it gets no role message but this
/// configure.
pub proof fn lemma_first_configure_states(state: ServerModel, surface_id: u64)
    requires
        state.wf(),
        state.toplevels.contains_key(surface_id),
        !state.toplevels[surface_id].initial_configure_sent,
    ensures
        state.toplevel_role_message(surface_id).message is None,
        state.toplevel_role_message(surface_id).configure == Some(
            Configure::Toplevel { surface_id, activated: true, maximized: true },
        ),
{
}

/// The role message of a toplevel or a popup is built only once its first
/// configure has been sent, and where none is built for a surface on
/// record, the configure goes out, so that the next commit builds one.
pub proof fn lemma_role_message_follows_configure(state: ServerModel, surface_id: u64)
    ensures
        state.toplevel_role_message(surface_id).message is Some ==> state.toplevels[surface_id].initial_configure_sent,
        state.popup_role_message(surface_id).message is Some ==> state.popups[surface_id].initial_configure_sent,
        state.toplevels.contains_key(surface_id) ==> {
            let step = state.toplevel_role_message(surface_id);
            &&& step.message is None <==> step.configure is Some
            &&& step.state.toplevels[surface_id].initial_configure_sent
            &&& step.state.toplevel_role_message(surface_id).message is Some
        },
        state.popups.contains_key(surface_id) ==> {
            let step = state.popup_role_message(surface_id);
            &&& step.message is None <==> step.configure is Some
            &&& step.state.popups[surface_id].initial_configure_sent
            &&& step.state.popup_role_message(surface_id).message is Some
        },
{
}

/// Whether no surface has more than two textures.
pub open spec fn texture_bound(state: ServerModel) -> bool {
    forall|id: u64| (#[trigger] state.textures_of(id)).len() <= TEXTURES_PER_SURFACE
}

/// The commit of one surface keeps the bound on textures, whatever the
/// surface, its buffer and the counters are.
pub proof fn lemma_commit_surface_keeps_texture_bound(
    state: ServerModel,
    commit: SurfaceCommit,
    below: Seq<u64>,
    above: Seq<u64>,
)
    requires
        texture_bound(state),
    ensures
        texture_bound(state.commit_surface(commit, below, above).state),
{
    let resolved = state.resolve_buffer(commit.surface_id, commit.buffer);
    let after = state.commit_surface(commit, below, above).state;
    assert(after.textures == resolved.state.textures);
    assert forall|id: u64| (#[trigger] after.textures_of(id)).len()
        <= TEXTURES_PER_SURFACE by {
        assert(state.textures_of(id).len() <= TEXTURES_PER_SURFACE);
        assert(state.textures_of(commit.surface_id).len() <= TEXTURES_PER_SURFACE);
        if id != commit.surface_id {
            assert(after.textures_of(id) == state.textures_of(id));
        }
    }
}

/// The commit of a surface with its subsurfaces keeps the bound on
/// textures, after the commit and after each commit within it.
pub proof fn lemma_commit_keeps_texture_bound(state: ServerModel, tree: SurfaceTree)
    requires
        texture_bound(state),
    ensures
        texture_bound(state.commit_forest(tree.below@).state),
        texture_bound(state.commit_forest(tree.below@).state.commit_forest(tree.above@).state),
        texture_bound(state.commit_tree(tree).state),
    decreases tree, 1int,
{
    lemma_commits_keep_texture_bound(state, tree.below@);
    let below = state.commit_forest(tree.below@);
    lemma_commits_keep_texture_bound(below.state, tree.above@);
    let above = below.state.commit_forest(tree.above@);
    lemma_commit_surface_keeps_texture_bound(
        above.state,
        tree.surface,
        root_ids(tree.below@),
        root_ids(tree.above@),
    );
}

/// The commits of a list of surfaces keep the bound on textures.
pub proof fn lemma_commits_keep_texture_bound(state: ServerModel, trees: Seq<SurfaceTree>)
    requires
        texture_bound(state),
    ensures
        texture_bound(state.commit_forest(trees).state),
    decreases trees, 0int,
{
    if trees.len() > 0 {
        lemma_commits_keep_texture_bound(state, trees.drop_last());
        lemma_commit_keeps_texture_bound(
            state.commit_forest(trees.drop_last()).state,
            trees.last(),
        );
    }
}

/// For every surface and at every point of a run of surface creations,
/// commits and destructions, the surface has at most two textures.
pub proof fn lemma_texture_bound_at_all_times(
    start: ServerModel,
    requests: Seq<ClientRequest>,
    n: int,
    surface_id: u64,
)
    requires
        texture_bound(start),
        0 <= n <= requests.len(),
    ensures
        start.after_requests(requests.take(n)).textures_of(surface_id).len()
            <= TEXTURES_PER_SURFACE,
{
    lemma_run_keeps_texture_bound(start, requests.take(n));
}

/// A run of requests keeps the bound on textures.
pub proof fn lemma_run_keeps_texture_bound(start: ServerModel, requests: Seq<ClientRequest>)
    requires
        texture_bound(start),
    ensures
        texture_bound(start.after_requests(requests)),
    decreases requests.len(),
{
    if requests.len() > 0 {
        lemma_run_keeps_texture_bound(start, requests.drop_last());
        let before = start.after_requests(requests.drop_last());
        let after = start.after_requests(requests);
        match requests.last() {
            ClientRequest::Commit(tree) => {
                if can_commit(before, tree) {
                    lemma_commit_keeps_texture_bound(before, tree);
                }
            },
            ClientRequest::NewSurface => {
                assert forall|id: u64| (#[trigger] after.textures_of(id)).len()
                    <= TEXTURES_PER_SURFACE by {
                    assert(after.textures_of(id) == before.textures_of(id));
                }
            },
            ClientRequest::Destroy(surface_id) => {
                assert forall|id: u64| (#[trigger] after.textures_of(id)).len()
                    <= TEXTURES_PER_SURFACE by {
                    assert(before.textures_of(id).len() <= TEXTURES_PER_SURFACE);
                    if id != surface_id {
                        assert(after.textures_of(id) == before.textures_of(id));
                    }
                }
            },
        }
    }
}

/// Whether a surface is none of the surfaces of a tree.
pub open spec fn tree_avoids(tree: SurfaceTree, surface_id: u64) -> bool
    decreases tree, 1int,
{
    &&& tree.surface.surface_id != surface_id
    &&& forest_avoids(tree.below@, surface_id)
    &&& forest_avoids(tree.above@, surface_id)
}

/// Whether a surface is none of the surfaces of a list of trees.
pub open spec fn forest_avoids(trees: Seq<SurfaceTree>, surface_id: u64) -> bool
    decreases trees, 0int,
{
    if trees.len() == 0 {
        true
    } else {
        forest_avoids(trees.drop_last(), surface_id) && tree_avoids(trees.last(), surface_id)
    }
}

/// The state in which the own commit of the surface of a tree takes place:
/// the one after the commits of its subsurfaces.
pub open spec fn state_at_own_commit(state: ServerModel, tree: SurfaceTree) -> ServerModel {
    state.commit_forest(tree.below@).state.commit_forest(tree.above@).state
}

/// A commit leaves the textures of every surface alone that is not among
/// the surfaces committed.
pub proof fn lemma_commit_leaves_other_textures(
    state: ServerModel,
    tree: SurfaceTree,
    surface_id: u64,
)
    requires
        tree_avoids(tree, surface_id),
    ensures
        state.commit_tree(tree).state.textures_of(surface_id) == state.textures_of(surface_id),
    decreases tree, 1int,
{
    lemma_commits_leave_other_textures(state, tree.below@, surface_id);
    let below = state.commit_forest(tree.below@);
    lemma_commits_leave_other_textures(below.state, tree.above@, surface_id);
    let above = below.state.commit_forest(tree.above@);
    let resolved = above.state.resolve_buffer(tree.surface.surface_id, tree.surface.buffer);
    let own = above.state.commit_surface(
        tree.surface,
        root_ids(tree.below@),
        root_ids(tree.above@),
    );
    assert(own.state.textures == resolved.state.textures);
}

/// Commits leave the textures of every surface alone that is not among the
/// surfaces committed.
pub proof fn lemma_commits_leave_other_textures(
    state: ServerModel,
    trees: Seq<SurfaceTree>,
    surface_id: u64,
)
    requires
        forest_avoids(trees, surface_id),
    ensures
        state.commit_forest(trees).state.textures_of(surface_id) == state.textures_of(surface_id),
    decreases trees, 0int,
{
    if trees.len() > 0 {
        lemma_commits_leave_other_textures(state, trees.drop_last(), surface_id);
        lemma_commit_leaves_other_textures(
            state.commit_forest(trees.drop_last()).state,
            trees.last(),
            surface_id,
        );
    }
}

/// The texture that the message of a surface names after its commit is
/// the newest of the surface, or none where it has none, unless the commit
/// hid the surface's texture.
pub proof fn lemma_commit_shows_newest_texture(
    state: ServerModel,
    commit: SurfaceCommit,
    below: Seq<u64>,
    above: Seq<u64>,
)
    requires
        !hides_texture(state, commit),
    ensures
        ({
            let step = state.commit_surface(commit, below, above);
            step.output.message.texture_id == (match step.state.last_texture(commit.surface_id) {
                Some((texture_id, _)) => texture_id,
                None => NO_TEXTURE,
            })
        }),
{
    let resolved = state.resolve_buffer(commit.surface_id, commit.buffer);
    let step = state.commit_surface(commit, below, above);
    assert(step.state.textures == resolved.state.textures);
    assert(step.state.textures_of(commit.surface_id) == resolved.state.textures_of(
        commit.surface_id,
    ));
}

/// Idempotence over whole commits: where a surface is committed with its
/// subsurfaces, and then again with its buffer unchanged, the second
/// message of the surface names the texture that the first named, no frame
/// is presented for it, and its textures stay as they were. The surface
/// must not stand among its own subsurfaces, and the first commit must not
/// have hidden its texture.
pub proof fn lemma_unchanged_commit_is_idempotent(
    state: ServerModel,
    first: SurfaceTree,
    second: SurfaceTree,
)
    requires
        second.surface.surface_id == first.surface.surface_id,
        second.surface.buffer == BufferAssignment::Unchanged,
        forest_avoids(second.below@, first.surface.surface_id),
        forest_avoids(second.above@, first.surface.surface_id),
        !hides_texture(state_at_own_commit(state, first), first.surface),
    ensures
        ({
            let one = state.commit_tree(first);
            let two = one.state.commit_tree(second);
            &&& two.output.last().message.surface_id == first.surface.surface_id
            &&& two.output.last().message.texture_id == one.output.last().message.texture_id
            &&& two.output.last().texture is None
            &&& two.state.textures_of(first.surface.surface_id) == one.state.textures_of(
                first.surface.surface_id,
            )
        }),
{
    let id = first.surface.surface_id;
    let at_first = state_at_own_commit(state, first);
    lemma_commit_shows_newest_texture(
        at_first,
        first.surface,
        root_ids(first.below@),
        root_ids(first.above@),
    );
    let one = state.commit_tree(first);
    lemma_commits_leave_other_textures(one.state, second.below@, id);
    let below = one.state.commit_forest(second.below@);
    lemma_commits_leave_other_textures(below.state, second.above@, id);
    let at_second = state_at_own_commit(one.state, second);
    assert(at_second.textures_of(id) == one.state.textures_of(id));
    let own = at_second.commit_surface(
        second.surface,
        root_ids(second.below@),
        root_ids(second.above@),
    );
    assert(own.state.textures == at_second.textures);
}

} // verus!
