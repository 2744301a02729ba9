//! State reducer: the total, deterministic transition function from an
//! application state and an action to the next state. The reduction is pure;
//! persistence happens after it, outside the lock, as a separate store
//! command (see `commands`).

use vstd::prelude::*;

use crate::commands::{StoreCommand, StoreCommandView};
use crate::types::{AppAction, AppActionView, AppState, AppStateView, Photo};

verus! {

/// The transition function: replacing the image list installs the given
/// sequence; clearing empties it. No action can fail.
pub open spec fn spec_reduce(s: AppStateView, a: AppActionView) -> AppStateView {
    match a {
        AppActionView::SetImageLibraryContent { images } => AppStateView { images },
        AppActionView::ClearImageLibraryContent => AppStateView { images: Seq::empty() },
    }
}

/// The transition function folded over a whole action sequence.
pub open spec fn spec_reduce_all(s: AppStateView, actions: Seq<AppActionView>) -> AppStateView
    decreases actions.len(),
{
    if actions.len() == 0 {
        s
    } else {
        spec_reduce_all(spec_reduce(s, actions.first()), actions.drop_first())
    }
}

impl AppState {
    /// Applies one action in place.
    pub fn reduce(&mut self, action: AppAction)
        ensures
            final(self)@ == spec_reduce(old(self)@, action@),
    {
        match action {
            AppAction::SetImageLibraryContent { images } => {
                self.images = images;
            }
            AppAction::ClearImageLibraryContent => {
                self.images = Vec::new();
                proof {
                    assert(self@.images =~= Seq::empty());
                }
            }
        }
    }
}

/// Replays a whole action sequence against a state, applying each action in
/// order. The result is exactly the fold of the transition function over the
/// sequence, so it depends on nothing but the initial state and the sequence.
pub fn replay(state: AppState, actions: Vec<AppAction>) -> (r: AppState)
    ensures
        r@ == spec_reduce_all(state@, actions@.map_values(|a: AppAction| a@)),
{
    let ghost s0 = state@;
    let ghost all = actions@.map_values(|a: AppAction| a@);
    let mut s = state;
    let mut rest = actions;
    while rest.len() > 0
        invariant
            spec_reduce_all(s0, all) == spec_reduce_all(
                s@,
                rest@.map_values(|a: AppAction| a@),
            ),
        decreases rest@.len(),
    {
        let ghost pending = rest@.map_values(|a: AppAction| a@);
        let a = rest.remove(0);
        s.reduce(a);
        proof {
            assert(rest@.map_values(|x: AppAction| x@) =~= pending.drop_first());
        }
    }
    s
}

/// Dispatches one action: the state advances by the pure transition under
/// the caller's lock, and the returned command persists the new state to the
/// store afterwards, outside the lock. The in-memory state has advanced even
/// if that persistence later fails (the optimistic window the design
/// accepts).
pub fn dispatch(state: &mut AppState, action: AppAction) -> (cmd: StoreCommand)
    ensures
        final(state)@ == spec_reduce(old(state)@, action@),
        cmd@ == (StoreCommandView::PersistState { state: spec_reduce(old(state)@, action@) }),
{
    state.reduce(action);
    let snapshot = state.duplicate();
    crate::commands::persist_state(snapshot)
}

/// Adds one photo to the cached library state: the current image list with
/// the photo appended replaces the list through the reducer, and the
/// returned command persists the new state.
pub fn add_photo_to_library(state: &mut AppState, photo: Photo) -> (cmd: StoreCommand)
    ensures
        final(state)@.images == old(state)@.images.push(photo@),
        cmd@ == (StoreCommandView::PersistState { state: final(state)@ }),
{
    let mut images = state.duplicate().images;
    let ghost photo_view = photo@;
    images.push(photo);
    proof {
        assert(images@.map_values(|p: Photo| p@) =~= old(state)@.images.push(photo_view));
    }
    let cmd = dispatch(state, AppAction::SetImageLibraryContent { images });
    cmd
}

/// Clears the library: one command deletes every photo document, and the
/// dispatched clear action empties the cached state and persists it.
pub fn clear_library(state: &mut AppState) -> (cmds: Vec<StoreCommand>)
    ensures
        final(state)@.images.len() == 0,
        cmds@.len() == 2,
        cmds@[0]@ == StoreCommandView::ClearPhotos,
        cmds@[1]@ == (StoreCommandView::PersistState {
            state: spec_reduce(old(state)@, AppActionView::ClearImageLibraryContent),
        }),
{
    let mut cmds: Vec<StoreCommand> = Vec::new();
    cmds.push(crate::commands::clear_photos());
    let persist = dispatch(state, AppAction::ClearImageLibraryContent);
    cmds.push(persist);
    cmds
}

/// Law: the reduction is deterministic. Replaying an action sequence against
/// an initial state is the pure fold `spec_reduce_all`, a mathematical
/// function of the state and the sequence alone, so two replays of equal
/// sequences from equal states agree, independent of timing or interleaving.
pub proof fn lemma_reducer_deterministic(
    s1: AppStateView,
    s2: AppStateView,
    a1: Seq<AppActionView>,
    a2: Seq<AppActionView>,
)
    requires
        s1 == s2,
        a1 == a2,
    ensures
        spec_reduce_all(s1, a1) == spec_reduce_all(s2, a2),
{
}

} // verus!
