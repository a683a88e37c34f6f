//! Density-based clustering of points that are given by their neighbours.
//!
//! The points are the numbers below `n`; `neighbors[a]` lists the points next
//! to `a`. A point with at least `min_points` neighbours is a core point. A
//! cluster grows from a core point by taking in the neighbours of each core
//! point that it holds. Points that no cluster takes in are noise.
use vstd::prelude::*;

verus! {

/// The lists of neighbours as sequences.
pub open spec fn graph_of(neighbors: Seq<Vec<usize>>) -> Seq<Seq<usize>> {
    neighbors.map_values(|v: Vec<usize>| v@)
}

/// Whether every neighbour that the lists name is a point.
pub open spec fn valid_graph(g: Seq<Seq<usize>>) -> bool {
    forall|a: int, j: int| 0 <= a < g.len() && 0 <= j < g[a].len() ==> (#[trigger] g[a][j]) < g.len()
}

/// Whether `b` is listed as a neighbour of `a`.
pub open spec fn edge(g: Seq<Seq<usize>>, a: int, b: int) -> bool {
    0 <= a < g.len() && exists|j: int| 0 <= j < g[a].len() && #[trigger] g[a][j] == b
}

/// Whether `a` is a core point: one with at least `min_points` neighbours.
pub open spec fn dense(g: Seq<Seq<usize>>, min_points: int, a: int) -> bool {
    0 <= a < g.len() && g[a].len() >= min_points
}

/// Whether each point of `path` but the last is a core point with the next
/// point of `path` among its neighbours.
pub open spec fn is_path(g: Seq<Seq<usize>>, min_points: int, path: Seq<int>) -> bool {
    &&& path.len() > 0
    &&& forall|j: int|
        0 <= j < path.len() - 1 ==> dense(g, min_points, #[trigger] path[j]) && edge(
            g,
            path[j],
            path[j + 1],
        )
}

/// Whether `b` can be reached from `a` through core points.
pub open spec fn reach(g: Seq<Seq<usize>>, min_points: int, a: int, b: int) -> bool {
    exists|path: Seq<int>| is_path(g, min_points, path) && path[0] == a && path.last() == b
}

/// Whether `a` stands at place `j` of the cluster `k`.
pub open spec fn member_at(clusters: Seq<Seq<usize>>, k: int, a: int, j: int) -> bool {
    0 <= k < clusters.len() && 0 <= j < clusters[k].len() && clusters[k][j] == a
}

/// Whether `a` belongs to the cluster `k`.
pub open spec fn in_cluster(clusters: Seq<Seq<usize>>, k: int, a: int) -> bool {
    exists|j: int| member_at(clusters, k, a, j)
}

/// Whether `a` is noise.
pub open spec fn is_noise(noise: Seq<usize>, a: int) -> bool {
    exists|j: int| 0 <= j < noise.len() && #[trigger] noise[j] == a
}

/// What a clustering of the points of `g` is.
///
/// Every point is in exactly one cluster or is noise, and stands there once.
/// A cluster starts with a core point, and each of its points can be reached
/// from that one through core points. The neighbours of a core point of a
/// cluster belong to that cluster or to an earlier one. Noise is never a core
/// point. The clusters come in the order of their first points, and the noise
/// in rising order.
pub open spec fn clustering(
    g: Seq<Seq<usize>>,
    min_points: int,
    clusters: Seq<Seq<usize>>,
    noise: Seq<usize>,
) -> bool {
    &&& forall|a: int|
        0 <= a < g.len() ==> is_noise(noise, a) || exists|k: int| #[trigger] in_cluster(clusters, k, a)
    &&& forall|k: int, j: int|
        0 <= k < clusters.len() && 0 <= j < clusters[k].len() ==> (#[trigger] clusters[k][j])
            < g.len()
    &&& forall|j: int| 0 <= j < noise.len() ==> (#[trigger] noise[j]) < g.len()
    &&& forall|k: int| 0 <= k < clusters.len() ==> (#[trigger] clusters[k]).no_duplicates()
    &&& noise.no_duplicates()
    &&& forall|a: int, k1: int, k2: int|
        #[trigger] in_cluster(clusters, k1, a) && #[trigger] in_cluster(clusters, k2, a) ==> k1
            == k2
    &&& forall|a: int, k: int| #[trigger] in_cluster(clusters, k, a) ==> !is_noise(noise, a)
    &&& forall|k: int|
        0 <= k < clusters.len() ==> (#[trigger] clusters[k]).len() > 0 && dense(
            g,
            min_points,
            clusters[k][0] as int,
        )
    &&& forall|k: int, j: int|
        0 <= k < clusters.len() && 0 <= j < clusters[k].len() ==> reach(
            g,
            min_points,
            clusters[k][0] as int,
            #[trigger] clusters[k][j] as int,
        )
    &&& forall|k: int, a: int, b: int|
        #[trigger] in_cluster(clusters, k, a) && dense(g, min_points, a) && #[trigger] edge(g, a, b)
            ==> exists|k2: int| k2 <= k && in_cluster(clusters, k2, b)
    &&& forall|a: int| is_noise(noise, a) ==> !dense(g, min_points, a)
    &&& first_points_rise(clusters)
    &&& forall|i: int, j: int| 0 <= i < j < noise.len() ==> noise[i] < noise[j]
}

/// Whether the first point of each cluster is less than that of the next.
pub open spec fn first_points_rise(clusters: Seq<Seq<usize>>) -> bool {
    forall|k1: int, k2: int|
        0 <= k1 < k2 < clusters.len() ==> (#[trigger] clusters[k1])[0] < (#[trigger] clusters[k2])[0]
}

/// What is known of a point while the points are clustered.
#[derive(Clone, Copy, PartialEq, Eq, Structural)]
enum Label {
    Unsolved,
    Noise,
    Cluster(usize),
}

spec fn unsolved_count(labels: Seq<Label>) -> nat
    decreases labels.len(),
{
    if labels.len() == 0 {
        0
    } else {
        unsolved_count(labels.drop_last()) + if labels.last() == Label::Unsolved {
            1nat
        } else {
            0nat
        }
    }
}

proof fn lemma_solve_one(labels: Seq<Label>, a: int, l: Label)
    requires
        0 <= a < labels.len(),
        labels[a] == Label::Unsolved,
        l != Label::Unsolved,
    ensures
        unsolved_count(labels.update(a, l)) + 1 == unsolved_count(labels),
    decreases labels.len(),
{
    let after = labels.update(a, l);
    if a == labels.len() - 1 {
        assert(after.drop_last() =~= labels.drop_last());
    } else {
        assert(after.drop_last() =~= labels.drop_last().update(a, l));
        lemma_solve_one(labels.drop_last(), a, l);
    }
}

proof fn lemma_relabel_solved(labels: Seq<Label>, a: int, l: Label)
    requires
        0 <= a < labels.len(),
        labels[a] != Label::Unsolved,
        l != Label::Unsolved,
    ensures
        unsolved_count(labels.update(a, l)) == unsolved_count(labels),
    decreases labels.len(),
{
    let after = labels.update(a, l);
    if a == labels.len() - 1 {
        assert(after.drop_last() =~= labels.drop_last());
    } else {
        assert(after.drop_last() =~= labels.drop_last().update(a, l));
        lemma_relabel_solved(labels.drop_last(), a, l);
    }
}

/// A point reaches itself.
pub proof fn lemma_reach_self(g: Seq<Seq<usize>>, min_points: int, a: int)
    ensures
        reach(g, min_points, a, a),
{
    let path = seq![a];
    assert(is_path(g, min_points, path) && path[0] == a && path.last() == a);
}

/// What a core point reaches, it reaches with its neighbours.
pub proof fn lemma_reach_step(g: Seq<Seq<usize>>, min_points: int, a: int, m: int, b: int)
    requires
        reach(g, min_points, a, m),
        dense(g, min_points, m),
        edge(g, m, b),
    ensures
        reach(g, min_points, a, b),
{
    let p = choose|path: Seq<int>| is_path(g, min_points, path) && path[0] == a && path.last() == m;
    let q = p.push(b);
    assert forall|j: int| 0 <= j < q.len() - 1 implies dense(g, min_points, #[trigger] q[j]) && edge(
        g,
        q[j],
        q[j + 1],
    ) by {
        if j < p.len() - 1 {
            assert(q[j] == p[j] && q[j + 1] == p[j + 1]);
            assert(dense(g, min_points, p[j]));
        } else {
            assert(q[j] == m && q[j + 1] == b);
        }
    }
    assert(is_path(g, min_points, q) && q[0] == a && q.last() == b);
}

/// What holds of the labels and the clusters between two steps. `all` holds
/// the finished clusters and, while a cluster grows, that cluster last;
/// `seed` holds the points that still wait to be looked at for it.
spec fn growing(
    g: Seq<Seq<usize>>,
    min_points: int,
    labels: Seq<Label>,
    all: Seq<Seq<usize>>,
    seed: Seq<usize>,
) -> bool {
    &&& labels.len() == g.len()
    &&& forall|k: int, j: int|
        0 <= k < all.len() && 0 <= j < all[k].len() ==> (#[trigger] all[k][j]) < g.len()
            && labels[all[k][j] as int] == Label::Cluster(k as usize)
    &&& forall|a: int|
        0 <= a < g.len() && (#[trigger] labels[a] is Cluster) ==> in_cluster(
            all,
            labels[a]->Cluster_0 as int,
            a,
        )
    &&& forall|k: int| 0 <= k < all.len() ==> (#[trigger] all[k]).no_duplicates()
    &&& forall|k: int|
        0 <= k < all.len() ==> (#[trigger] all[k]).len() > 0 && dense(g, min_points, all[k][0] as int)
    &&& forall|k: int, j: int|
        0 <= k < all.len() && 0 <= j < all[k].len() ==> reach(
            g,
            min_points,
            all[k][0] as int,
            #[trigger] all[k][j] as int,
        )
    &&& forall|a: int, j: int|
        0 <= a < g.len() && (labels[a] is Cluster) && dense(g, min_points, a) && 0 <= j
            < g[a].len() ==> closed_at(labels, seed, labels[a]->Cluster_0 as int, #[trigger] g[a][j])
    &&& forall|a: int| 0 <= a < g.len() && #[trigger] labels[a] == Label::Noise ==> !dense(g, min_points, a)
}

/// Whether the neighbour `b` of a core point of the cluster `k` is taken care
/// of: it belongs to a cluster that is not later, or it waits in the seed
/// while `k` is the cluster that grows.
spec fn closed_at(labels: Seq<Label>, seed: Seq<usize>, k: int, b: usize) -> bool {
    ||| b < labels.len() && (labels[b as int] is Cluster) && labels[b as int]->Cluster_0 <= k
    ||| seed.contains(b) && (forall|x: int|
        0 <= x < labels.len() && (#[trigger] labels[x] is Cluster) ==> labels[x]->Cluster_0 <= k)
}

/// Clusters the points whose neighbours `neighbors` lists.
///
/// Returns the clusters, in the order of their first points, and the noise in
/// rising order. See [`clustering`] for what holds of them.
pub fn dbscan(neighbors: &Vec<Vec<usize>>, min_points: usize) -> (r: (Vec<Vec<usize>>, Vec<usize>))
    requires
        valid_graph(graph_of(neighbors@)),
    ensures
        clustering(graph_of(neighbors@), min_points as int, graph_of(r.0@), r.1@),
{
    let ghost g = graph_of(neighbors@);
    let ghost mp = min_points as int;
    let n = neighbors.len();
    let mut labels: Vec<Label> = Vec::new();
    let mut i: usize = 0;
    while i < n
        invariant
            i <= n,
            labels.len() == i,
            forall|j: int| 0 <= j < i ==> labels[j] == Label::Unsolved,
        decreases n - i,
    {
        labels.push(Label::Unsolved);
        i += 1;
    }
    let mut clusters: Vec<Vec<usize>> = Vec::new();
    let mut p: usize = 0;
    assert(graph_of(clusters@) =~= Seq::<Seq<usize>>::empty());
    while p < n
        invariant
            p <= n,
            n == neighbors.len(),
            g == graph_of(neighbors@),
            mp == min_points,
            valid_graph(g),
            growing(g, mp, labels@, graph_of(clusters@), Seq::<usize>::empty()),
            forall|a: int| 0 <= a < p ==> labels[a] != Label::Unsolved,
            first_points_rise(graph_of(clusters@)),
            forall|k: int|
                0 <= k < clusters.len() ==> (#[trigger] graph_of(clusters@)[k])[0] < p,
        decreases n - p,
    {
        if labels[p] == Label::Unsolved {
            assert(g[p as int] == neighbors[p as int]@);
            if neighbors[p].len() < min_points {
                let ghost before = labels@;
                labels.set(p, Label::Noise);
                proof {
                    let all = graph_of(clusters@);
                    let none = Seq::<usize>::empty();
                    assert forall|a: int, j: int|
                        0 <= a < g.len() && (labels@[a] is Cluster) && dense(g, mp, a) && 0 <= j
                            < g[a].len() implies closed_at(
                        labels@,
                        none,
                        labels@[a]->Cluster_0 as int,
                        #[trigger] g[a][j],
                    ) by {
                        assert(closed_at(before, none, before[a]->Cluster_0 as int, g[a][j]));
                    }
                    assert forall|a: int|
                        0 <= a < g.len() && (#[trigger] labels@[a] is Cluster) implies in_cluster(
                        all,
                        labels@[a]->Cluster_0 as int,
                        a,
                    ) by {
                        assert(before[a] is Cluster);
                    }
                }
            } else {
                let k = clusters.len();
                let ghost done = graph_of(clusters@);
                let mut cur: Vec<usize> = Vec::new();
                cur.push(p);
                let ghost before = labels@;
                labels.set(p, Label::Cluster(k));
                let mut seed: Vec<usize> = Vec::new();
                let mut j: usize = 0;
                while j < neighbors[p].len()
                    invariant
                        j <= neighbors[p as int].len(),
                        p < neighbors.len(),
                        seed@ == neighbors[p as int]@.take(j as int),
                    decreases neighbors[p as int].len() - j,
                {
                    seed.push(neighbors[p][j]);
                    assert(neighbors[p as int]@.take(j + 1) =~= neighbors[p as int]@.take(j as int).push(
                        neighbors[p as int]@[j as int],
                    ));
                    j += 1;
                }
                assert(seed@ =~= g[p as int]) by {
                    assert(neighbors[p as int]@.take(neighbors[p as int].len() as int)
                        =~= neighbors[p as int]@);
                }
                proof {
                    lemma_solve_one(before, p as int, Label::Cluster(k));
                    lemma_reach_self(g, mp, p as int);
                    assert forall|j: int| 0 <= j < seed.len() implies (#[trigger] seed[j]) < n
                        && reach(g, mp, cur[0] as int, seed[j] as int) by {
                        assert(seed[j] == g[p as int][j]);
                        assert(edge(g, p as int, g[p as int][j] as int));
                        lemma_reach_step(g, mp, p as int, p as int, g[p as int][j] as int);
                    }
                    let all = done.push(cur@);
                    assert(growing(g, mp, labels@, all, seed@)) by {
                        assert forall|kk: int, jj: int|
                            0 <= kk < all.len() && 0 <= jj < all[kk].len() implies (
                        #[trigger] all[kk][jj]) < g.len() && labels@[all[kk][jj] as int]
                            == Label::Cluster(kk as usize) by {
                            if kk < done.len() {
                                assert(done[kk][jj] < g.len());
                                assert(before[done[kk][jj] as int] == Label::Cluster(kk as usize));
                            }
                        }
                        assert forall|a: int|
                            0 <= a < g.len() && (#[trigger] labels@[a] is Cluster) implies in_cluster(
                            all,
                            labels@[a]->Cluster_0 as int,
                            a,
                        ) by {
                            let kk = labels@[a]->Cluster_0;
                            if a == p {
                                assert(member_at(all, k as int, a, 0));
                            } else {
                                assert(before[a] is Cluster);
                                assert(in_cluster(done, kk as int, a));
                                let jj = choose|jj: int| member_at(done, kk as int, a, jj);
                                assert(member_at(all, kk as int, a, jj));
                            }
                        }
                        assert forall|kk: int| 0 <= kk < all.len() implies (
                        #[trigger] all[kk]).no_duplicates() by {
                            if kk < done.len() {
                                assert(done[kk].no_duplicates());
                            }
                        }
                        assert forall|kk: int| 0 <= kk < all.len() implies (
                        #[trigger] all[kk]).len() > 0 && dense(g, mp, all[kk][0] as int) by {
                            if kk < done.len() {
                                assert(done[kk].len() > 0);
                            }
                        }
                        assert forall|kk: int, jj: int|
                            0 <= kk < all.len() && 0 <= jj < all[kk].len() implies reach(
                            g,
                            mp,
                            all[kk][0] as int,
                            #[trigger] all[kk][jj] as int,
                        ) by {
                            if kk < done.len() {
                                assert(reach(g, mp, done[kk][0] as int, done[kk][jj] as int));
                            }
                        }
                        assert forall|a: int, jj: int|
                            0 <= a < g.len() && (labels@[a] is Cluster) && dense(g, mp, a) && 0
                                <= jj < g[a].len() implies closed_at(
                            labels@,
                            seed@,
                            labels@[a]->Cluster_0 as int,
                            #[trigger] g[a][jj],
                        ) by {
                            if a == p {
                                assert(seed@[jj] == g[a][jj]);
                            } else {
                                assert(closed_at(
                                    before,
                                    Seq::<usize>::empty(),
                                    before[a]->Cluster_0 as int,
                                    g[a][jj],
                                ));
                                assert(g[a][jj] != p);
                            }
                        }
                    }
                }
                while seed.len() > 0
                    invariant
                        n == neighbors.len(),
                        g == graph_of(neighbors@),
                        mp == min_points,
                        valid_graph(g),
                        k == done.len(),
                        done == graph_of(clusters@),
                        cur[0] == p,
                        growing(g, mp, labels@, done.push(cur@), seed@),
                        forall|a: int| 0 <= a < p ==> labels[a] != Label::Unsolved,
                        labels[p as int] != Label::Unsolved,
                        p < n,
                        cur.len() > 0,
                        forall|j: int| 0 <= j < seed.len() ==> (#[trigger] seed[j]) < n && reach(
                            g,
                            mp,
                            cur[0] as int,
                            seed[j] as int,
                        ),
                        forall|a: int|
                            0 <= a < n && (#[trigger] labels[a] is Cluster) ==> labels[a]->Cluster_0
                                <= k,
                    decreases unsolved_count(labels@), seed.len(),
                {
                    let ghost seed0 = seed@;
                    let ghost labels0 = labels@;
                    let ghost cur0 = cur@;
                    let ghost all0 = done.push(cur0);
                    let q = seed.pop().unwrap();
                    assert(seed0[seed0.len() - 1] == q);
                    assert(seed@ =~= seed0.drop_last());
                    let lq = labels[q];
                    match lq {
                        Label::Cluster(_) => {
                            proof {
                                let all = done.push(cur@);
                                assert forall|a: int, jj: int|
                                    0 <= a < g.len() && (labels@[a] is Cluster) && dense(g, mp, a)
                                        && 0 <= jj < g[a].len() implies closed_at(
                                    labels@,
                                    seed@,
                                    labels@[a]->Cluster_0 as int,
                                    #[trigger] g[a][jj],
                                ) by {
                                    let b = g[a][jj];
                                    let ka = labels@[a]->Cluster_0 as int;
                                    assert(closed_at(labels0, seed0, ka, b));
                                    lemma_still_closed(labels0, seed0, ka, b);
                                }
                            }
                        },
                        _ => {
                            labels.set(q, Label::Cluster(k));
                            cur.push(q);
                            let mut grown = false;
                            if lq == Label::Unsolved && neighbors[q].len() >= min_points {
                                grown = true;
                                let ghost seed1 = seed@;
                                let mut j: usize = 0;
                                while j < neighbors[q].len()
                                    invariant
                                        j <= neighbors[q as int].len(),
                                        q < neighbors.len(),
                                        seed@ == seed1 + neighbors[q as int]@.take(j as int),
                                    decreases neighbors[q as int].len() - j,
                                {
                                    seed.push(neighbors[q][j]);
                                    assert(neighbors[q as int]@.take(j + 1) =~= neighbors[q as int]@.take(
                                        j as int,
                                    ).push(neighbors[q as int]@[j as int]));
                                    assert(seed@ =~= seed1 + neighbors[q as int]@.take(j + 1));
                                    j += 1;
                                }
                                assert(neighbors[q as int]@.take(neighbors[q as int].len() as int)
                                    =~= neighbors[q as int]@);
                            }
                            proof {
                                assert(g[q as int] == neighbors[q as int]@);
                                let all = done.push(cur@);
                                let s0 = cur0[0] as int;
                                assert(cur@[0] == cur0[0]);
                                if lq == Label::Unsolved {
                                    lemma_solve_one(labels0, q as int, Label::Cluster(k));
                                } else {
                                    lemma_relabel_solved(labels0, q as int, Label::Cluster(k));
                                }
                                assert(!cur0.contains(q)) by {
                                    if cur0.contains(q) {
                                        let jj = choose|jj: int| 0 <= jj < cur0.len() && cur0[jj] == q;
                                        assert(all0[k as int][jj] == q);
                                        assert(labels0[all0[k as int][jj] as int] == Label::Cluster(
                                            k,
                                        ));
                                    }
                                }
                                assert forall|kk: int, jj: int|
                                    0 <= kk < all.len() && 0 <= jj < all[kk].len() implies (
                                #[trigger] all[kk][jj]) < g.len() && labels@[all[kk][jj] as int]
                                    == Label::Cluster(kk as usize) by {
                                    if kk < k || jj < cur0.len() {
                                        assert(all[kk][jj] == all0[kk][jj]);
                                        assert(labels0[all0[kk][jj] as int] == Label::Cluster(
                                            kk as usize,
                                        ));
                                    }
                                }
                                assert forall|a: int|
                                    0 <= a < g.len() && (#[trigger] labels@[a] is Cluster) implies in_cluster(
                                    all,
                                    labels@[a]->Cluster_0 as int,
                                    a,
                                ) by {
                                    let kk = labels@[a]->Cluster_0;
                                    if a == q {
                                        assert(member_at(all, k as int, a, cur0.len() as int));
                                    } else {
                                        assert(labels0[a] is Cluster);
                                        assert(in_cluster(all0, kk as int, a));
                                        let jj = choose|jj: int| member_at(all0, kk as int, a, jj);
                                        assert(member_at(all, kk as int, a, jj));
                                    }
                                }
                                assert forall|kk: int| 0 <= kk < all.len() implies (
                                #[trigger] all[kk]).no_duplicates() by {
                                    assert(all0[kk].no_duplicates());
                                    if kk == k {
                                        assert forall|x: int, y: int|
                                            0 <= x < cur@.len() && 0 <= y < cur@.len() && x
                                                != y implies cur@[x] != cur@[y] by {
                                            if x < cur0.len() && y < cur0.len() {
                                            } else if x < cur0.len() {
                                                assert(cur0.contains(cur0[x]));
                                            } else {
                                                assert(cur0.contains(cur0[y]));
                                            }
                                        }
                                    } else {
                                        assert(all[kk] == all0[kk]);
                                    }
                                }
                                assert forall|kk: int| 0 <= kk < all.len() implies (
                                #[trigger] all[kk]).len() > 0 && dense(g, mp, all[kk][0] as int) by {
                                    assert(all0[kk].len() > 0 && dense(g, mp, all0[kk][0] as int));
                                    assert(all[kk][0] == all0[kk][0]);
                                }
                                assert forall|kk: int, jj: int|
                                    0 <= kk < all.len() && 0 <= jj < all[kk].len() implies reach(
                                    g,
                                    mp,
                                    all[kk][0] as int,
                                    #[trigger] all[kk][jj] as int,
                                ) by {
                                    assert(all[kk][0] == all0[kk][0]);
                                    if kk < k || jj < cur0.len() {
                                        assert(all[kk][jj] == all0[kk][jj]);
                                        assert(reach(
                                            g,
                                            mp,
                                            all0[kk][0] as int,
                                            all0[kk][jj] as int,
                                        ));
                                    }
                                }
                                assert forall|a: int, jj: int|
                                    0 <= a < g.len() && (labels@[a] is Cluster) && dense(g, mp, a)
                                        && 0 <= jj < g[a].len() implies closed_at(
                                    labels@,
                                    seed@,
                                    labels@[a]->Cluster_0 as int,
                                    #[trigger] g[a][jj],
                                ) by {
                                    let b = g[a][jj];
                                    if a == q {
                                        assert(labels0[q as int] != Label::Noise);
                                        assert(grown);
                                        assert(seed@[seed0.len() - 1 + jj] == b);
                                    } else {
                                        let ka = labels0[a]->Cluster_0 as int;
                                        assert(closed_at(labels0, seed0, ka, b));
                                        if b == q {
                                            assert(labels0[a] == Label::Cluster(ka as usize));
                                        } else if b < labels0.len() && (labels0[b as int] is Cluster)
                                            && labels0[b as int]->Cluster_0 <= ka {
                                        } else {
                                            let x = choose|x: int|
                                                0 <= x < seed0.len() && seed0[x] == b;
                                            assert(x < seed0.len() - 1);
                                            assert(seed@[x] == b);
                                        }
                                    }
                                }
                                assert forall|j: int| 0 <= j < seed.len() implies (
                                #[trigger] seed[j]) < n && reach(
                                    g,
                                    mp,
                                    cur[0] as int,
                                    seed[j] as int,
                                ) by {
                                    if j < seed0.len() - 1 {
                                        assert(seed@[j] == seed0[j]);
                                    } else {
                                        let x = j - (seed0.len() - 1);
                                        assert(seed@[j] == g[q as int][x]);
                                        assert(reach(g, mp, s0, q as int));
                                        assert(edge(g, q as int, g[q as int][x] as int));
                                        lemma_reach_step(g, mp, s0, q as int, g[q as int][x] as int);
                                    }
                                }
                            }
                        },
                    }
                }
                clusters.push(cur);
                assert(graph_of(clusters@) =~= done.push(cur@));
                assert(first_points_rise(graph_of(clusters@))) by {
                    let all = graph_of(clusters@);
                    assert forall|k1: int, k2: int| 0 <= k1 < k2 < all.len() implies (
                    #[trigger] all[k1])[0] < (#[trigger] all[k2])[0] by {
                        assert(all[k1] == done[k1]);
                        if k2 < done.len() {
                            assert(all[k2] == done[k2]);
                        }
                    }
                }
            }
        }
        p += 1;
    }
    let mut noise: Vec<usize> = Vec::new();
    let mut a: usize = 0;
    while a < n
        invariant
            a <= n,
            n == labels.len(),
            forall|j: int| 0 <= j < noise.len() ==> (#[trigger] noise[j]) < a && labels[noise[j] as int]
                == Label::Noise,
            forall|x: int| 0 <= x < a && labels[x] == Label::Noise ==> is_noise(noise@, x),
            forall|i: int, j: int| 0 <= i < j < noise.len() ==> noise[i] < noise[j],
        decreases n - a,
    {
        if labels[a] == Label::Noise {
            let ghost before = noise@;
            noise.push(a);
            assert forall|x: int| 0 <= x < a + 1 && labels[x] == Label::Noise implies is_noise(
                noise@,
                x,
            ) by {
                if x < a {
                    let j = choose|j: int| 0 <= j < before.len() && before[j] == x;
                    assert(noise@[j] == x);
                } else {
                    assert(noise@[before.len() as int] == x);
                }
            }
        }
        a += 1;
    }
    proof {
        let all = graph_of(clusters@);
        let none = Seq::<usize>::empty();
        assert forall|x: int| 0 <= x < g.len() implies is_noise(noise@, x) || exists|kk: int| #[trigger]
            in_cluster(all, kk, x) by {
            match labels@[x] {
                Label::Cluster(kk) => {
                    assert(in_cluster(all, kk as int, x));
                },
                _ => {},
            }
        }
        assert forall|x: int, k1: int, k2: int|
            #[trigger] in_cluster(all, k1, x) && #[trigger] in_cluster(all, k2, x) implies k1
            == k2 by {
            let j1 = choose|j: int| member_at(all, k1, x, j);
            let j2 = choose|j: int| member_at(all, k2, x, j);
            assert(all.len() == clusters.len());
            assert(labels@[all[k1][j1] as int] == Label::Cluster(k1 as usize));
            assert(labels@[all[k2][j2] as int] == Label::Cluster(k2 as usize));
            assert(k1 as usize == k2 as usize);
        }
        assert forall|x: int, kk: int| #[trigger] in_cluster(all, kk, x) implies !is_noise(
            noise@,
            x,
        ) by {
            let j1 = choose|j: int| member_at(all, kk, x, j);
            assert(labels@[all[kk][j1] as int] == Label::Cluster(kk as usize));
        }
        assert forall|kk: int, x: int, b: int|
            #[trigger] in_cluster(all, kk, x) && dense(g, mp, x) && #[trigger] edge(
                g,
                x,
                b,
            ) implies exists|k2: int| k2 <= kk && in_cluster(all, k2, b) by {
            let j1 = choose|j: int| member_at(all, kk, x, j);
            assert(labels@[all[kk][j1] as int] == Label::Cluster(kk as usize));
            let jb = choose|jb: int| 0 <= jb < g[x].len() && g[x][jb] == b;
            assert(closed_at(labels@, none, kk, g[x][jb]));
            let k2 = labels@[b]->Cluster_0;
            assert(labels@[b] == Label::Cluster(k2));
            assert(in_cluster(all, k2 as int, b));
        }
        assert(noise@.no_duplicates());
    }
    (clusters, noise)
}

/// A neighbour that was taken care of stays so when a point is popped from
/// the seed whose label names a cluster.
proof fn lemma_still_closed(labels: Seq<Label>, seed: Seq<usize>, ka: int, b: usize)
    requires
        seed.len() > 0,
        seed.last() < labels.len(),
        labels[seed.last() as int] is Cluster,
        closed_at(labels, seed, ka, b),
    ensures
        closed_at(labels, seed.drop_last(), ka, b),
{
    if b < labels.len() && (labels[b as int] is Cluster) && labels[b as int]->Cluster_0 <= ka {
    } else {
        let x = choose|x: int| 0 <= x < seed.len() && seed[x] == b;
        if x < seed.len() - 1 {
            assert(seed.drop_last()[x] == b);
        } else {
            assert(labels[b as int] is Cluster);
        }
    }
}

} // verus!
