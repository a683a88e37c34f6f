//! What the clusters are, whatever the order in which the points were given.
//!
//! Where being a neighbour goes both ways and one neighbour is enough to make
//! a core point, the clusters are the groups of points that are joined by
//! chains of neighbours, and the noise is the points without neighbours.
//! Neither depends on how the points are numbered.
use vstd::prelude::*;
use crate::dbscan::{
    clustering, dense, edge, in_cluster, is_noise, is_path, member_at, reach, valid_graph,
};

verus! {

/// Whether being a neighbour goes both ways.
pub open spec fn symmetric(g: Seq<Seq<usize>>) -> bool {
    forall|a: int, b: int| #[trigger] edge(g, a, b) ==> edge(g, b, a)
}

/// Whether each point of `path` but the last has the next one among its
/// neighbours.
pub open spec fn is_walk(g: Seq<Seq<usize>>, path: Seq<int>) -> bool {
    &&& path.len() > 0
    &&& forall|j: int| 0 <= j < path.len() - 1 ==> edge(g, #[trigger] path[j], path[j + 1])
}

/// Whether a chain of neighbours leads from `a` to `b`.
pub open spec fn connected(g: Seq<Seq<usize>>, a: int, b: int) -> bool {
    exists|path: Seq<int>| is_walk(g, path) && path[0] == a && path.last() == b
}

/// Whether `a` and `b` belong to one cluster.
pub open spec fn same_cluster(clusters: Seq<Seq<usize>>, a: int, b: int) -> bool {
    exists|k: int| in_cluster(clusters, k, a) && in_cluster(clusters, k, b)
}

/// Whether `perm` and `inv` renumber the points below `n` and undo each other.
pub open spec fn renumbering(n: int, perm: Seq<int>, inv: Seq<int>) -> bool {
    &&& perm.len() == n
    &&& inv.len() == n
    &&& forall|a: int| 0 <= a < n ==> 0 <= #[trigger] perm[a] < n && inv[perm[a]] == a
    &&& forall|b: int| 0 <= b < n ==> 0 <= #[trigger] inv[b] < n && perm[inv[b]] == b
}

/// Whether `g2` is `g1` with its points renumbered by `perm`.
pub open spec fn renumbered(g1: Seq<Seq<usize>>, g2: Seq<Seq<usize>>, perm: Seq<int>) -> bool {
    &&& g1.len() == g2.len()
    &&& forall|a: int, b: int|
        0 <= a < g1.len() && 0 <= b < g1.len() ==> (#[trigger] edge(g1, a, b) == edge(
            g2,
            perm[a],
            perm[b],
        ))
}

proof fn lemma_edge_in_range(g: Seq<Seq<usize>>, a: int, b: int)
    requires
        valid_graph(g),
        edge(g, a, b),
    ensures
        0 <= a < g.len(),
        0 <= b < g.len(),
{
    let j = choose|j: int| 0 <= j < g[a].len() && #[trigger] g[a][j] == b;
    assert(g[a][j] < g.len());
}

proof fn lemma_member_dense(
    g: Seq<Seq<usize>>,
    min_points: int,
    clusters: Seq<Seq<usize>>,
    noise: Seq<usize>,
    k: int,
    a: int,
)
    requires
        valid_graph(g),
        symmetric(g),
        min_points <= 1,
        clustering(g, min_points, clusters, noise),
        in_cluster(clusters, k, a),
    ensures
        dense(g, min_points, a),
        0 <= a < g.len(),
        connected(g, clusters[k][0] as int, a),
        0 <= k < clusters.len(),
{
    let j = choose|j: int| member_at(clusters, k, a, j);
    let s = clusters[k][0] as int;
    assert(clusters[k][j] < g.len());
    assert(reach(g, min_points, s, clusters[k][j] as int));
    let path = choose|path: Seq<int>| is_path(g, min_points, path) && path[0] == s && path.last() == a;
    assert(is_walk(g, path)) by {
        assert forall|x: int| 0 <= x < path.len() - 1 implies edge(g, #[trigger] path[x], path[x + 1]) by {
            assert(dense(g, min_points, path[x]));
        }
    }
    assert(clusters[k].len() > 0 && dense(g, min_points, s));
    if path.len() > 1 {
        let x = path.len() - 2;
        assert(dense(g, min_points, path[x]));
        assert(edge(g, path[x], path[x + 1]));
        assert(edge(g, a, path[x]));
    }
}

proof fn lemma_step_stays(
    g: Seq<Seq<usize>>,
    min_points: int,
    clusters: Seq<Seq<usize>>,
    noise: Seq<usize>,
    k: int,
    a: int,
    b: int,
)
    requires
        valid_graph(g),
        symmetric(g),
        min_points <= 1,
        clustering(g, min_points, clusters, noise),
        in_cluster(clusters, k, a),
        edge(g, a, b),
    ensures
        in_cluster(clusters, k, b),
{
    lemma_member_dense(g, min_points, clusters, noise, k, a);
    let k2 = choose|k2: int| k2 <= k && in_cluster(clusters, k2, b);
    lemma_member_dense(g, min_points, clusters, noise, k2, b);
    assert(edge(g, b, a));
    let k3 = choose|k3: int| k3 <= k2 && in_cluster(clusters, k3, a);
    assert(k3 == k);
}

proof fn lemma_walk_stays(
    g: Seq<Seq<usize>>,
    min_points: int,
    clusters: Seq<Seq<usize>>,
    noise: Seq<usize>,
    k: int,
    path: Seq<int>,
)
    requires
        valid_graph(g),
        symmetric(g),
        min_points <= 1,
        clustering(g, min_points, clusters, noise),
        is_walk(g, path),
        in_cluster(clusters, k, path[0]),
    ensures
        in_cluster(clusters, k, path.last()),
    decreases path.len(),
{
    if path.len() > 1 {
        let head = path.drop_last();
        assert(is_walk(g, head)) by {
            assert forall|j: int| 0 <= j < head.len() - 1 implies edge(g, #[trigger] head[j], head[j + 1]) by {
                assert(edge(g, path[j], path[j + 1]));
            }
        }
        lemma_walk_stays(g, min_points, clusters, noise, k, head);
        let x = path.len() - 2;
        assert(edge(g, path[x], path[x + 1]));
        assert(head.last() == path[x]);
        lemma_step_stays(g, min_points, clusters, noise, k, path[x], path.last());
    }
}

/// A chain of neighbours can be walked backwards.
pub proof fn lemma_connected_back(g: Seq<Seq<usize>>, a: int, b: int)
    requires
        symmetric(g),
        connected(g, a, b),
    ensures
        connected(g, b, a),
{
    let path = choose|path: Seq<int>| is_walk(g, path) && path[0] == a && path.last() == b;
    let back = Seq::new(path.len(), |j: int| path[path.len() - 1 - j]);
    assert forall|j: int| 0 <= j < back.len() - 1 implies edge(g, #[trigger] back[j], back[j + 1]) by {
        let x = path.len() - 2 - j;
        assert(edge(g, path[x], path[x + 1]));
    }
    assert(is_walk(g, back) && back[0] == b && back.last() == a);
}

/// Two chains of neighbours that meet make one.
pub proof fn lemma_connected_join(g: Seq<Seq<usize>>, a: int, b: int, c: int)
    requires
        connected(g, a, b),
        connected(g, b, c),
    ensures
        connected(g, a, c),
{
    let p = choose|path: Seq<int>| is_walk(g, path) && path[0] == a && path.last() == b;
    let q = choose|path: Seq<int>| is_walk(g, path) && path[0] == b && path.last() == c;
    let r = p.drop_last() + q;
    assert forall|j: int| 0 <= j < r.len() - 1 implies edge(g, #[trigger] r[j], r[j + 1]) by {
        if j < p.len() - 2 {
            assert(edge(g, p[j], p[j + 1]));
        } else if j == p.len() - 2 {
            assert(edge(g, p[j], p[j + 1]));
            assert(r[j + 1] == q[0]);
        } else {
            let x = j - (p.len() - 1);
            assert(edge(g, q[x], q[x + 1]));
        }
    }
    assert(is_walk(g, r) && r[0] == a && r.last() == c);
}

/// Where being a neighbour goes both ways and one neighbour makes a core
/// point, two points share a cluster exactly if the first is a core point
/// and a chain of neighbours joins them, and the noise is exactly the points
/// that are no core points.
pub proof fn lemma_clusters_are_components(
    g: Seq<Seq<usize>>,
    min_points: int,
    clusters: Seq<Seq<usize>>,
    noise: Seq<usize>,
)
    requires
        valid_graph(g),
        symmetric(g),
        min_points <= 1,
        clustering(g, min_points, clusters, noise),
    ensures
        forall|a: int, b: int|
            0 <= a < g.len() ==> (#[trigger] same_cluster(clusters, a, b) <==> dense(
                g,
                min_points,
                a,
            ) && connected(g, a, b)),
        forall|a: int| 0 <= a < g.len() ==> (#[trigger] is_noise(noise, a) <==> !dense(g, min_points, a)),
{
    assert forall|a: int, b: int| 0 <= a < g.len() implies (#[trigger] same_cluster(clusters, a, b)
        <==> dense(g, min_points, a) && connected(g, a, b)) by {
        if same_cluster(clusters, a, b) {
            let k = choose|k: int| in_cluster(clusters, k, a) && in_cluster(clusters, k, b);
            lemma_member_dense(g, min_points, clusters, noise, k, a);
            lemma_member_dense(g, min_points, clusters, noise, k, b);
            let s = clusters[k][0] as int;
            lemma_connected_back(g, s, a);
            lemma_connected_join(g, a, s, b);
        }
        if dense(g, min_points, a) && connected(g, a, b) {
            assert(!is_noise(noise, a));
            let k = choose|k: int| #[trigger] in_cluster(clusters, k, a);
            let path = choose|path: Seq<int>| is_walk(g, path) && path[0] == a && path.last() == b;
            lemma_walk_stays(g, min_points, clusters, noise, k, path);
        }
    }
    assert forall|a: int| 0 <= a < g.len() implies (#[trigger] is_noise(noise, a) <==> !dense(
        g,
        min_points,
        a,
    )) by {
        if !dense(g, min_points, a) && !is_noise(noise, a) {
            let k = choose|k: int| #[trigger] in_cluster(clusters, k, a);
            lemma_member_dense(g, min_points, clusters, noise, k, a);
        }
    }
}

proof fn lemma_connected_renumbered(
    g1: Seq<Seq<usize>>,
    g2: Seq<Seq<usize>>,
    perm: Seq<int>,
    inv: Seq<int>,
    a: int,
    b: int,
)
    requires
        valid_graph(g1),
        renumbering(g1.len() as int, perm, inv),
        renumbered(g1, g2, perm),
        0 <= a < g1.len(),
        connected(g1, a, b),
    ensures
        connected(g2, perm[a], perm[b]),
        0 <= b < g1.len(),
{
    let path = choose|path: Seq<int>| is_walk(g1, path) && path[0] == a && path.last() == b;
    assert forall|j: int| 0 <= j < path.len() implies 0 <= #[trigger] path[j] < g1.len() by {
        if j == 0 {
        } else {
            assert(edge(g1, path[j - 1], path[j - 1 + 1]));
            lemma_edge_in_range(g1, path[j - 1], path[j]);
        }
    }
    let image = Seq::new(path.len(), |j: int| perm[path[j]]);
    assert forall|j: int| 0 <= j < image.len() - 1 implies edge(g2, #[trigger] image[j], image[j + 1]) by {
        assert(0 <= path[j] < g1.len());
        assert(0 <= path[j + 1] < g1.len());
        assert(edge(g1, path[j], path[j + 1]));
    }
    assert(is_walk(g2, image) && image[0] == perm[a] && image.last() == perm[b]);
}

proof fn lemma_renumbered_back(
    g1: Seq<Seq<usize>>,
    g2: Seq<Seq<usize>>,
    perm: Seq<int>,
    inv: Seq<int>,
)
    requires
        valid_graph(g1),
        valid_graph(g2),
        symmetric(g1),
        renumbering(g1.len() as int, perm, inv),
        renumbered(g1, g2, perm),
    ensures
        renumbered(g2, g1, inv),
        renumbering(g2.len() as int, inv, perm),
        symmetric(g2),
{
    assert forall|x: int, y: int| 0 <= x < g2.len() && 0 <= y < g2.len() implies (#[trigger] edge(
        g2,
        x,
        y,
    ) == edge(g1, inv[x], inv[y])) by {
        assert(perm[inv[x]] == x && perm[inv[y]] == y);
        assert(edge(g1, inv[x], inv[y]) == edge(g2, perm[inv[x]], perm[inv[y]]));
    }
    assert forall|x: int, y: int| #[trigger] edge(g2, x, y) implies edge(g2, y, x) by {
        lemma_edge_in_range(g2, x, y);
        assert(edge(g2, x, y) == edge(g1, inv[x], inv[y]));
        assert(edge(g1, inv[y], inv[x]));
        assert(edge(g2, y, x) == edge(g1, inv[y], inv[x]));
    }
}

proof fn lemma_dense_renumbered(
    g1: Seq<Seq<usize>>,
    g2: Seq<Seq<usize>>,
    min_points: int,
    perm: Seq<int>,
    inv: Seq<int>,
    a: int,
)
    requires
        valid_graph(g1),
        valid_graph(g2),
        min_points <= 1,
        renumbering(g1.len() as int, perm, inv),
        renumbered(g1, g2, perm),
        0 <= a < g1.len(),
        dense(g1, min_points, a),
    ensures
        dense(g2, min_points, perm[a]),
{
    if min_points == 1 {
        let b = g1[a][0] as int;
        assert(edge(g1, a, b));
        lemma_edge_in_range(g1, a, b);
        assert(edge(g2, perm[a], perm[b]));
    }
}

/// Clustering does not depend on the order of the points.
///
/// Let being a neighbour go both ways, let one neighbour make a core point,
/// and let `g2` be `g1` with its points in another order, `perm` telling the
/// new number of each point. Then two points share a cluster of `g1` exactly
/// if they share a cluster of `g2`, and a point is noise in the one exactly
/// if it is noise in the other.
pub proof fn lemma_order_independent(
    g1: Seq<Seq<usize>>,
    g2: Seq<Seq<usize>>,
    min_points: int,
    perm: Seq<int>,
    inv: Seq<int>,
    clusters1: Seq<Seq<usize>>,
    noise1: Seq<usize>,
    clusters2: Seq<Seq<usize>>,
    noise2: Seq<usize>,
)
    requires
        valid_graph(g1),
        valid_graph(g2),
        symmetric(g1),
        min_points <= 1,
        renumbering(g1.len() as int, perm, inv),
        renumbered(g1, g2, perm),
        clustering(g1, min_points, clusters1, noise1),
        clustering(g2, min_points, clusters2, noise2),
    ensures
        forall|a: int, b: int|
            0 <= a < g1.len() && 0 <= b < g1.len() ==> (#[trigger] same_cluster(clusters1, a, b)
                <==> same_cluster(clusters2, perm[a], perm[b])),
        forall|a: int|
            0 <= a < g1.len() ==> (#[trigger] is_noise(noise1, a) <==> is_noise(noise2, perm[a])),
{
    lemma_renumbered_back(g1, g2, perm, inv);
    lemma_clusters_are_components(g1, min_points, clusters1, noise1);
    lemma_clusters_are_components(g2, min_points, clusters2, noise2);
    assert forall|a: int| 0 <= a < g1.len() implies (dense(g1, min_points, a) <==> dense(
        g2,
        min_points,
        #[trigger] perm[a],
    )) by {
        if dense(g1, min_points, a) {
            lemma_dense_renumbered(g1, g2, min_points, perm, inv, a);
        }
        if dense(g2, min_points, perm[a]) {
            lemma_dense_renumbered(g2, g1, min_points, inv, perm, perm[a]);
        }
    }
    assert forall|a: int, b: int| 0 <= a < g1.len() && 0 <= b < g1.len() implies (
    #[trigger] same_cluster(clusters1, a, b) <==> same_cluster(clusters2, perm[a], perm[b])) by {
        assert(dense(g1, min_points, a) <==> dense(g2, min_points, perm[a]));
        if connected(g1, a, b) {
            lemma_connected_renumbered(g1, g2, perm, inv, a, b);
        }
        if connected(g2, perm[a], perm[b]) {
            lemma_connected_renumbered(g2, g1, inv, perm, perm[a], perm[b]);
        }
        assert(same_cluster(clusters1, a, b) <==> dense(g1, min_points, a) && connected(g1, a, b));
        assert(same_cluster(clusters2, perm[a], perm[b]) <==> dense(g2, min_points, perm[a])
            && connected(g2, perm[a], perm[b]));
    }
    assert forall|a: int| 0 <= a < g1.len() implies (#[trigger] is_noise(noise1, a) <==> is_noise(
        noise2,
        perm[a],
    )) by {
        assert(dense(g1, min_points, a) <==> dense(g2, min_points, perm[a]));
        assert(is_noise(noise2, perm[a]) <==> !dense(g2, min_points, perm[a]));
    }
}

} // verus!
