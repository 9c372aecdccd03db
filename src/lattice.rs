//! Backward induction on a recombining binomial tree.
//!
//! A tree of `n` steps has `k + 1` nodes at time step `k`; node `i` of step `k`
//! has the up child `i + 1` and the down child `i` at step `k + 1`. The values at
//! step `n` are given, and each earlier node is rolled back from its two children
//! (for a risk-neutral tree: the discounted expectation under the up
//! probability). The real-valued arithmetic of a roll back is the caller's: it is
//! passed in as a closure, and the tree's traversal is what is verified here.
use vstd::prelude::*;

verus! {

/// `layer` is one step of backward induction from `next`: it has one node
/// fewer, and its node `i` is a value that `roll_back` may return for the up
/// child `next[i + 1]` and the down child `next[i]`.
pub open spec fn rolled_back<T, F: Fn(T, T) -> T>(roll_back: F, next: Seq<T>, layer: Seq<T>) -> bool {
    &&& layer.len() + 1 == next.len()
    &&& forall|i: int| 0 <= i < layer.len() ==> roll_back.ensures((next[i + 1], next[i]), #[trigger] layer[i])
}

/// `layers[k]` holds the `k + 1` node values at time step `k` of a tree whose
/// last step holds `leaves`, each layer rolled back from the one after it.
pub open spec fn is_lattice<T, F: Fn(T, T) -> T>(roll_back: F, leaves: Seq<T>, layers: Seq<Seq<T>>) -> bool {
    &&& layers.len() == leaves.len()
    &&& layers.len() >= 1
    &&& layers.last() == leaves
    &&& forall|k: int| 0 <= k < layers.len() ==> (#[trigger] layers[k]).len() == k + 1
    &&& forall|k: int| 0 <= k < layers.len() - 1 ==> rolled_back(roll_back, layers[k + 1], #[trigger] layers[k])
}

/// One step of backward induction with a roll back given as a spec function.
pub open spec fn roll_back_layer<T>(g: spec_fn(T, T) -> T, next: Seq<T>) -> Seq<T> {
    Seq::new((next.len() - 1) as nat, |i: int| g(next[i + 1], next[i]))
}

/// The value at the root of the tree whose last step holds `layer`, rolled
/// back with `g`.
pub open spec fn lattice_root<T>(g: spec_fn(T, T) -> T, layer: Seq<T>) -> T
    decreases layer.len(),
{
    if layer.len() <= 1 {
        layer[0]
    } else {
        lattice_root(g, roll_back_layer(g, layer))
    }
}

/// `roll_back` returns nothing but `g` of its arguments.
pub open spec fn computes<T, F: Fn(T, T) -> T>(roll_back: F, g: spec_fn(T, T) -> T) -> bool {
    forall|up: T, down: T, v: T| roll_back.ensures((up, down), v) ==> v == g(up, down)
}

proof fn lemma_root_from<T, F: Fn(T, T) -> T>(
    roll_back: F,
    g: spec_fn(T, T) -> T,
    leaves: Seq<T>,
    layers: Seq<Seq<T>>,
    k: int,
)
    requires
        is_lattice(roll_back, leaves, layers),
        computes(roll_back, g),
        0 <= k < layers.len(),
    ensures
        lattice_root(g, layers[k]) == lattice_root(g, leaves),
    decreases layers.len() - k,
{
    if k < layers.len() - 1 {
        lemma_root_from(roll_back, g, leaves, layers, k + 1);
        let next = layers[k + 1];
        assert(rolled_back(roll_back, next, layers[k]));
        assert(layers[k] =~= roll_back_layer(g, next));
    }
}

/// Whatever tree a deterministic roll back builds over `leaves`, its root is
/// the one value that rolling back with `g` gives.
pub proof fn lemma_lattice_root_determined<T, F: Fn(T, T) -> T>(
    roll_back: F,
    g: spec_fn(T, T) -> T,
    leaves: Seq<T>,
    layers: Seq<Seq<T>>,
)
    requires
        is_lattice(roll_back, leaves, layers),
        computes(roll_back, g),
    ensures
        layers[0][0] == lattice_root(g, leaves),
{
    lemma_root_from(roll_back, g, leaves, layers, 0);
    assert(layers[0].len() == 1);
}

/// The values at the last step of a tree of `steps` steps: node `i` holds
/// what `node` returns for `i`, for `i` in `0..=steps`.
pub fn terminal_layer<T, G: Fn(u32) -> T>(steps: u32, node: G) -> (r: Vec<T>)
    requires
        steps < u32::MAX,
        forall|i: u32| i <= steps ==> #[trigger] node.requires((i,)),
    ensures
        r.len() == steps + 1,
        forall|i: int| 0 <= i <= steps ==> node.ensures((i as u32,), #[trigger] r[i]),
{
    let mut r: Vec<T> = Vec::new();
    let mut i: u32 = 0;
    while i <= steps
        invariant
            i <= steps + 1,
            steps < u32::MAX,
            r.len() == i,
            forall|j: u32| j <= steps ==> #[trigger] node.requires((j,)),
            forall|j: int| 0 <= j < i ==> node.ensures((j as u32,), #[trigger] r[j]),
        decreases steps + 1 - i,
    {
        let v = node(i);
        r.push(v);
        i = i + 1;
    }
    r
}

/// Rolls `leaves`, the values at the last step of a tree, back to its root,
/// in place: at each step node `i` is overwritten from the low index up, so
/// that its up child `i + 1` is still the value of the later step.
pub fn backward_induction<T: Copy, F: Fn(T, T) -> T>(leaves: Vec<T>, roll_back: F) -> (r: T)
    requires
        leaves.len() >= 1,
        forall|up: T, down: T| #[trigger] roll_back.requires((up, down)),
    ensures
        exists|layers: Seq<Seq<T>>| #[trigger]
            is_lattice(roll_back, leaves@, layers) && r == layers[0][0],
        forall|g: spec_fn(T, T) -> T|
            computes(roll_back, g) ==> r == #[trigger] lattice_root(g, leaves@),
{
    let ghost leaves_view = leaves@;
    let mut values = leaves;
    let n: usize = values.len() - 1;
    let ghost mut layers: Seq<Seq<T>> = seq![values@];
    let mut k: usize = n;
    while k > 0
        invariant
            k <= n,
            values.len() == n + 1,
            n + 1 == leaves_view.len(),
            forall|up: T, down: T| #[trigger] roll_back.requires((up, down)),
            layers.len() == n + 1 - k,
            layers.last() == leaves_view,
            layers[0] == values@.subrange(0, k + 1),
            forall|j: int| 0 <= j < layers.len() ==> (#[trigger] layers[j]).len() == k + j + 1,
            forall|j: int|
                0 <= j < layers.len() - 1 ==> rolled_back(roll_back, layers[j + 1], #[trigger] layers[j]),
        decreases k,
    {
        let ghost next = values@.subrange(0, k + 1);
        let mut i: usize = 0;
        while i < k
            invariant
                i <= k,
                k <= n,
                values.len() == n + 1,
                next.len() == k + 1,
                forall|up: T, down: T| #[trigger] roll_back.requires((up, down)),
                forall|j: int| 0 <= j < i ==> roll_back.ensures((next[j + 1], next[j]), #[trigger] values@[j]),
                forall|j: int| i <= j <= k ==> #[trigger] values@[j] == next[j],
            decreases k - i,
        {
            let up = values[i + 1];
            let down = values[i];
            let v = roll_back(up, down);
            values.set(i, v);
            i = i + 1;
        }
        proof {
            let layer = values@.subrange(0, k as int);
            assert(rolled_back(roll_back, next, layer));
            let old_layers = layers;
            layers = seq![layer] + old_layers;
            assert forall|j: int| 0 < j < layers.len() implies #[trigger] layers[j] == old_layers[j - 1] by {}
            assert forall|j: int| 0 <= j < layers.len() - 1 implies rolled_back(
                roll_back,
                layers[j + 1],
                #[trigger] layers[j],
            ) by {
                if j > 0 {
                    assert(layers[j] == old_layers[j - 1]);
                    assert(layers[j + 1] == old_layers[j]);
                }
            }
            assert(layers.last() == old_layers.last());
        }
        k = k - 1;
    }
    let r = values[0];
    proof {
        assert(is_lattice(roll_back, leaves_view, layers));
        assert forall|g: spec_fn(T, T) -> T| computes(roll_back, g) implies r == #[trigger] lattice_root(g, leaves_view) by {
            lemma_lattice_root_determined(roll_back, g, leaves_view, layers);
        }
    }
    r
}

} // verus!
