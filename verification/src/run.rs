//! Runs of accesses to one layer, and what holds of every run.
//!
//! Whatever reaches a layer reaches it through `&mut`, one access after the other. A run is the
//! record of such accesses in the order in which they took place.

use crate::instance::EraTestNodeInstance;
use crate::layer::{LayerView, Spawn};
use vstd::prelude::*;

verus! {

/// `layers` and `handles` record successive accesses to one layer: `layers[0]` is the layer
/// before the first access, and access `i` took `layers[i]` to `layers[i + 1]` and handed out
/// `handles[i]`.
pub open spec fn is_run<C: Spawn>(
    layers: Seq<LayerView<C>>,
    handles: Seq<EraTestNodeInstance<C::Process>>,
) -> bool {
    &&& layers.len() == handles.len() + 1
    &&& forall|i: int|
        0 <= i < handles.len() ==> layers[i].access(layers[i + 1], #[trigger] handles[i])
}

/// The number of accesses in a run that spawned a node: those that met a vacant layer. The last
/// of `layers` is what the run left behind and was not accessed.
pub open spec fn spawns<C: Spawn>(layers: Seq<LayerView<C>>) -> nat
    decreases layers.len(),
{
    if layers.len() <= 1 {
        0
    } else {
        let met = layers[layers.len() - 2];
        spawns(layers.drop_last()) + if met.vacant() {
            1nat
        } else {
            0nat
        }
    }
}

/// After `k` accesses, `k` at least one: the layer holds what the first access handed out, the
/// last access handed out the same, and a node was spawned once if the run began on a vacant
/// layer and never otherwise.
proof fn lemma_run_prefix<C: Spawn>(
    layers: Seq<LayerView<C>>,
    handles: Seq<EraTestNodeInstance<C::Process>>,
    k: int,
)
    requires
        is_run(layers, handles),
        1 <= k <= handles.len(),
    ensures
        layers[k].config == layers[0].config,
        layers[k].instance == Some(handles[0]),
        handles[k - 1] == handles[0],
        spawns(layers.take(k + 1)) == if layers[0].vacant() {
            1nat
        } else {
            0nat
        },
    decreases k,
{
    let upto = layers.take(k + 1);
    assert(upto.drop_last() =~= layers.take(k));
    assert(layers[k - 1].access(layers[k], handles[k - 1]));
    if k == 1 {
        assert(spawns(layers.take(1)) == 0);
    } else {
        lemma_run_prefix(layers, handles, k - 1);
    }
}

/// A node is spawned at most once. In a run of one or more accesses that begins on a vacant
/// layer, exactly one access spawns, and every access hands out the same instance.
pub proof fn lemma_spawned_once<C: Spawn>(
    layers: Seq<LayerView<C>>,
    handles: Seq<EraTestNodeInstance<C::Process>>,
)
    requires
        is_run(layers, handles),
        layers[0].vacant(),
        handles.len() >= 1,
    ensures
        spawns(layers) == 1,
        forall|i: int| 0 <= i < handles.len() ==> #[trigger] handles[i] == handles[0],
{
    let n = handles.len() as int;
    lemma_run_prefix(layers, handles, n);
    assert(layers.take(n + 1) =~= layers);
    assert forall|i: int| 0 <= i < handles.len() implies #[trigger] handles[i] == handles[0] by {
        lemma_run_prefix(layers, handles, i + 1);
    }
}

/// Access is idempotent. In a run that begins on a layer that holds an instance, no access
/// spawns, every access hands out that instance, and the layer stays as it was, however long
/// the run.
pub proof fn lemma_held_instance_stays<C: Spawn>(
    layers: Seq<LayerView<C>>,
    handles: Seq<EraTestNodeInstance<C::Process>>,
)
    requires
        is_run(layers, handles),
        !layers[0].vacant(),
    ensures
        spawns(layers) == 0,
        forall|i: int| 0 <= i < handles.len() ==> Some(#[trigger] handles[i]) == layers[0].instance,
        forall|i: int| 0 <= i < layers.len() ==> #[trigger] layers[i] == layers[0],
{
    let n = handles.len() as int;
    if n >= 1 {
        lemma_run_prefix(layers, handles, n);
        assert(layers.take(n + 1) =~= layers);
    }
    assert forall|i: int| 0 <= i < handles.len() implies Some(#[trigger] handles[i])
        == layers[0].instance by {
        lemma_run_prefix(layers, handles, i + 1);
    }
    assert forall|i: int| 0 <= i < layers.len() implies #[trigger] layers[i] == layers[0] by {
        if i >= 1 {
            lemma_run_prefix(layers, handles, i);
        }
    }
}

/// The endpoint is stable. Two accesses in a row hand out the same instance, and so the same
/// endpoint, whether or not the node ran before the first of them. The second access does not
/// spawn: the two together spawn once if they began on a vacant layer and never otherwise.
pub proof fn lemma_endpoint_stable<C: Spawn>(
    before: LayerView<C>,
    between: LayerView<C>,
    after: LayerView<C>,
    first: EraTestNodeInstance<C::Process>,
    second: EraTestNodeInstance<C::Process>,
)
    requires
        before.access(between, first),
        between.access(after, second),
    ensures
        second == first,
        second@.endpoint == first@.endpoint,
        after == between,
        !between.vacant(),
        spawns(seq![before, between, after]) == if before.vacant() {
            1nat
        } else {
            0nat
        },
{
    let layers = seq![before, between, after];
    let handles = seq![first, second];
    lemma_run_prefix(layers, handles, 2);
    assert(layers.take(3) =~= layers);
}

} // verus!
