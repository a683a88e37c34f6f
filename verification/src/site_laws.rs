//! The bases and the ramps of a map do not depend on the order in which the
//! resources and the cells are listed.
use vstd::prelude::*;
use crate::cluster_laws::{
    connected, lemma_clusters_are_components, lemma_order_independent, renumbered, renumbering,
    same_cluster,
};
use crate::dbscan::{clustering, dense, in_cluster, is_noise, member_at};
use crate::expansion::{
    base_clusters, distances, each_once, is_site_of, lemma_resource_graph, members, minerals_of,
    resource_graph, sites_of, Expansion, ExpansionView, Resource, StartSite,
};
use crate::geometry::Grid;
use crate::order::{lemma_rising_order, rising_order};
use crate::ramp::{
    cell_graph, cells_at, lemma_cell_graph, ramp_clusters, ramps_of, Pos, Ramp, MIN_RAMP_CELLS,
};

verus! {

/// Whether `s2` holds the items of `s1` in another order, the item at place
/// `a` of `s1` standing at place `perm[a]` of `s2`.
pub open spec fn reordered<T>(s1: Seq<T>, s2: Seq<T>, perm: Seq<int>, inv: Seq<int>) -> bool {
    &&& s2.len() == s1.len()
    &&& renumbering(s1.len() as int, perm, inv)
    &&& forall|a: int| 0 <= a < s1.len() ==> s2[#[trigger] perm[a]] == s1[a]
}

/// Leaving out what stood there before takes no tag away.
pub proof fn lemma_each_once_holds(tags: Seq<u64>, t: u64)
    ensures
        each_once(tags).contains(t) <==> tags.contains(t),
    decreases tags.len(),
{
    if tags.len() > 0 {
        let head = tags.drop_last();
        let before = each_once(head);
        lemma_each_once_holds(head, t);
        lemma_each_once_holds(head, tags.last());
        if tags.contains(t) {
            let i = choose|i: int| 0 <= i < tags.len() && tags[i] == t;
            if i < tags.len() - 1 {
                assert(head[i] == t);
            }
        }
        if head.contains(t) {
            let i = choose|i: int| 0 <= i < head.len() && head[i] == t;
            assert(tags[i] == t);
        }
        if before.contains(tags.last()) {
        } else {
            let now = before.push(tags.last());
            assert(now[before.len() as int] == tags.last());
            if before.contains(t) {
                let i = choose|i: int| 0 <= i < before.len() && before[i] == t;
                assert(now[i] == t);
            }
            if now.contains(t) {
                let i = choose|i: int| 0 <= i < now.len() && now[i] == t;
                if i < before.len() {
                    assert(before[i] == t);
                } else {
                    assert(tags[tags.len() - 1] == t);
                }
            }
        }
    }
}

/// Whether one of the resources is of the kind and has the tag.
pub open spec fn holds_resource(s: Seq<Resource>, geyser: bool, t: u64) -> bool {
    exists|i: int| 0 <= i < s.len() && (#[trigger] s[i]).geyser == geyser && s[i].tag == t
}

/// The mineral fields among the resources are the resources that are no
/// geysers.
pub proof fn lemma_minerals_of(s: Seq<Resource>, t: u64)
    ensures
        minerals_of(s).len() <= s.len(),
        (exists|k: int| 0 <= k < minerals_of(s).len() && (#[trigger] minerals_of(s)[k]).tag == t)
            <==> holds_resource(s, false, t),
    decreases s.len(),
{
    reveal(Seq::filter);
    if s.len() > 0 {
        let head = s.drop_last();
        lemma_minerals_of(head, t);
        let mh = minerals_of(head);
        let m = minerals_of(s);
        if holds_resource(s, false, t) {
            let i = choose|i: int| 0 <= i < s.len() && (#[trigger] s[i]).geyser == false && s[i].tag == t;
            if i < s.len() - 1 {
                assert(head[i] == s[i]);
                assert(holds_resource(head, false, t));
                let k = choose|k: int| 0 <= k < mh.len() && (#[trigger] mh[k]).tag == t;
                assert(m[k] == mh[k]);
            } else {
                assert(m[m.len() - 1] == s[i]);
            }
        }
        if exists|k: int| 0 <= k < m.len() && (#[trigger] m[k]).tag == t {
            let k = choose|k: int| 0 <= k < m.len() && (#[trigger] m[k]).tag == t;
            if k < mh.len() {
                assert(mh[k] == m[k]);
                let i = choose|i: int|
                    0 <= i < head.len() && (#[trigger] head[i]).geyser == false && head[i].tag == t;
                assert(s[i] == head[i]);
            } else {
                assert(m[k] == s[s.len() - 1]);
            }
        }
    }
}

/// A base holds the resources of its group and no others: its mineral
/// fields are the mineral fields of the group, and its geysers are the
/// geysers of the group.
pub proof fn lemma_site_holds_its_resources(
    e: ExpansionView,
    s: Seq<Resource>,
    placement: &Grid<bool>,
    start: StartSite,
    enemy_start: StartSite,
    townhall: Option<u64>,
    t: u64,
)
    requires
        s.len() <= usize::MAX,
        is_site_of(e, s, placement, start, enemy_start, townhall),
    ensures
        e.minerals.contains(t) <==> holds_resource(s, false, t),
        e.geysers.contains(t) <==> holds_resource(s, true, t),
{
    let m = minerals_of(s);
    let keys = distances(m, e.loc);
    let order = rising_order(keys, m.len());
    let tags = order.map_values(|k: usize| m[k as int].tag);
    lemma_minerals_of(s, t);
    lemma_rising_order(keys, m.len());
    lemma_each_once_holds(tags, t);
    if tags.contains(t) {
        let j = choose|j: int| 0 <= j < tags.len() && tags[j] == t;
        assert(order.contains(order[j]));
        assert(m[order[j] as int].tag == t);
    }
    if exists|k: int| 0 <= k < m.len() && (#[trigger] m[k]).tag == t {
        let k = choose|k: int| 0 <= k < m.len() && (#[trigger] m[k]).tag == t;
        assert(order.contains(k as usize));
        let j = choose|j: int| 0 <= j < order.len() && order[j] == k as usize;
        assert(tags[j] == t);
    }
}

/// Which resources make up a base together does not depend on the order in
/// which the resources are listed.
///
/// Let `rs2` hold the resources of `rs1` in another order, and let both
/// lists be clustered as the search for bases clusters them. Then two
/// resources share a cluster of the one list exactly if they share a cluster
/// of the other, and a resource is left alone in the one exactly if it is
/// left alone in the other.
pub proof fn lemma_bases_order_independent(
    rs1: Seq<Resource>,
    rs2: Seq<Resource>,
    perm: Seq<int>,
    inv: Seq<int>,
    clusters1: Seq<Seq<usize>>,
    noise1: Seq<usize>,
    clusters2: Seq<Seq<usize>>,
    noise2: Seq<usize>,
)
    requires
        rs1.len() <= usize::MAX,
        reordered(rs1, rs2, perm, inv),
        clustering(resource_graph(rs1), 1, clusters1, noise1),
        clustering(resource_graph(rs2), 1, clusters2, noise2),
    ensures
        forall|a: int, b: int|
            0 <= a < rs1.len() && 0 <= b < rs1.len() ==> (#[trigger] same_cluster(clusters1, a, b)
                <==> same_cluster(clusters2, perm[a], perm[b])),
        forall|a: int|
            0 <= a < rs1.len() ==> (#[trigger] is_noise(noise1, a) <==> is_noise(noise2, perm[a])),
{
    let g1 = resource_graph(rs1);
    let g2 = resource_graph(rs2);
    lemma_resource_graph(rs1);
    lemma_resource_graph(rs2);
    assert(renumbered(g1, g2, perm)) by {
        assert forall|a: int, b: int| 0 <= a < g1.len() && 0 <= b < g1.len() implies (
        #[trigger] crate::dbscan::edge(g1, a, b) == crate::dbscan::edge(g2, perm[a], perm[b])) by {
            assert(rs2[perm[a]] == rs1[a]);
            assert(rs2[perm[b]] == rs1[b]);
            assert(inv[perm[a]] == a && inv[perm[b]] == b);
        }
    }
    lemma_order_independent(g1, g2, 1, perm, inv, clusters1, noise1, clusters2, noise2);
}

/// A list of places below `n` that names no place twice is no longer than
/// `n`.
pub proof fn lemma_cluster_fits(c: Seq<usize>, n: int)
    requires
        0 <= n,
        c.no_duplicates(),
        forall|j: int| 0 <= j < c.len() ==> (#[trigger] c[j]) < n,
    ensures
        c.len() <= n,
{
    let places = c.map_values(|x: usize| x as int);
    assert(places.no_duplicates()) by {
        assert forall|i: int, j: int|
            0 <= i < places.len() && 0 <= j < places.len() && i != j implies places[i]
            != places[j] by {
            assert(c[i] != c[j]);
        }
    }
    places.unique_seq_to_set();
    vstd::set_lib::lemma_int_range(0, n);
    assert(places.to_set().subset_of(vstd::set_lib::set_int_range(0, n))) by {
        assert forall|x: int| places.to_set().contains(x) implies vstd::set_lib::set_int_range(
            0,
            n,
        ).contains(x) by {
            let j = choose|j: int| 0 <= j < places.len() && places[j] == x;
            assert(c[j] < n);
        }
    }
    vstd::set_lib::lemma_len_subset(places.to_set(), vstd::set_lib::set_int_range(0, n));
}

/// A cluster that makes a base is one of the clusters, with more than one
/// resource.
pub proof fn lemma_base_cluster(clusters: Seq<Seq<usize>>, k: int)
    requires
        0 <= k < base_clusters(clusters).len(),
    ensures
        exists|j: int|
            0 <= j < clusters.len() && #[trigger] clusters[j] == base_clusters(clusters)[k]
                && clusters[j].len() > 1,
    decreases clusters.len(),
{
    reveal(Seq::filter);
    if clusters.len() > 0 {
        let head = clusters.drop_last();
        let bh = base_clusters(head);
        if k < bh.len() {
            lemma_base_cluster(head, k);
            let j = choose|j: int|
                0 <= j < head.len() && #[trigger] head[j] == bh[k] && head[j].len() > 1;
            assert(clusters[j] == head[j]);
        } else {
            assert(clusters[clusters.len() - 1] == base_clusters(clusters)[k]);
        }
    }
}

/// Whether two bases hold the same resources.
pub open spec fn same_resources(e1: ExpansionView, e2: ExpansionView) -> bool {
    &&& forall|t: u64| e1.minerals.contains(t) <==> e2.minerals.contains(t)
    &&& forall|t: u64| e1.geysers.contains(t) <==> e2.geysers.contains(t)
}

/// The resources of a cluster of the one list are those of the cluster of
/// the other list that holds the same resources at their new places.
proof fn lemma_same_members(
    rs1: Seq<Resource>,
    rs2: Seq<Resource>,
    perm: Seq<int>,
    inv: Seq<int>,
    clusters1: Seq<Seq<usize>>,
    noise1: Seq<usize>,
    clusters2: Seq<Seq<usize>>,
    noise2: Seq<usize>,
    j1: int,
    j2: int,
    geyser: bool,
    t: u64,
)
    requires
        rs1.len() <= usize::MAX,
        reordered(rs1, rs2, perm, inv),
        clustering(resource_graph(rs1), 1, clusters1, noise1),
        clustering(resource_graph(rs2), 1, clusters2, noise2),
        0 <= j1 < clusters1.len(),
        0 <= j2 < clusters2.len(),
        in_cluster(clusters2, j2, perm[clusters1[j1][0] as int]),
    ensures
        holds_resource(members(rs1, clusters1[j1]), geyser, t) <==> holds_resource(
            members(rs2, clusters2[j2]),
            geyser,
            t,
        ),
{
    lemma_bases_order_independent(rs1, rs2, perm, inv, clusters1, noise1, clusters2, noise2);
    let c1 = clusters1[j1];
    let c2 = clusters2[j2];
    let m1 = members(rs1, c1);
    let m2 = members(rs2, c2);
    let a0 = c1[0] as int;
    assert(member_at(clusters1, j1, a0, 0));
    assert(in_cluster(clusters1, j1, a0));
    assert(0 <= a0 < rs1.len());
    if holds_resource(m1, geyser, t) {
        let i = choose|i: int| 0 <= i < m1.len() && (#[trigger] m1[i]).geyser == geyser && m1[i].tag == t;
        let a = c1[i] as int;
        assert(member_at(clusters1, j1, a, i));
        assert(in_cluster(clusters1, j1, a));
        assert(0 <= a < rs1.len());
        assert(same_cluster(clusters1, a0, a));
        assert(same_cluster(clusters2, perm[a0], perm[a]));
        let j = choose|j: int| in_cluster(clusters2, j, perm[a0]) && in_cluster(clusters2, j, perm[a]);
        assert(j == j2);
        let i2 = choose|i2: int| member_at(clusters2, j2, perm[a], i2);
        assert(m2[i2] == rs2[perm[a]]);
        assert(rs2[perm[a]] == rs1[a]);
        assert(m2[i2] == m1[i]);
    }
    if holds_resource(m2, geyser, t) {
        let i2 = choose|i2: int|
            0 <= i2 < m2.len() && (#[trigger] m2[i2]).geyser == geyser && m2[i2].tag == t;
        let b = c2[i2] as int;
        assert(member_at(clusters2, j2, b, i2));
        assert(in_cluster(clusters2, j2, b));
        assert(0 <= b < rs2.len());
        let a = inv[b];
        assert(perm[a] == b);
        assert(same_cluster(clusters2, perm[a0], perm[a]));
        assert(same_cluster(clusters1, a0, a));
        let j = choose|j: int| in_cluster(clusters1, j, a0) && in_cluster(clusters1, j, a);
        assert(j == j1);
        let i = choose|i: int| member_at(clusters1, j1, a, i);
        assert(m1[i] == rs1[a]);
        assert(rs2[perm[a]] == rs1[a]);
        assert(m1[i] == m2[i2]);
    }
}

/// The bases of a map do not depend on the order in which the resources
/// are listed.
///
/// Let `rs2` hold the resources of `rs1` in another order, and let
/// `found1` and `found2` be the bases that the search makes of the one list
/// and of the other. Then for each base of the one there is a base of the
/// other that holds the same resources.
pub proof fn lemma_sites_order_independent(
    rs1: Seq<Resource>,
    rs2: Seq<Resource>,
    perm: Seq<int>,
    inv: Seq<int>,
    clusters1: Seq<Seq<usize>>,
    noise1: Seq<usize>,
    clusters2: Seq<Seq<usize>>,
    noise2: Seq<usize>,
    found1: Seq<Expansion>,
    found2: Seq<Expansion>,
    placement: &Grid<bool>,
    start: StartSite,
    enemy_start: StartSite,
    townhall: Option<u64>,
    k1: int,
)
    requires
        rs1.len() <= usize::MAX,
        reordered(rs1, rs2, perm, inv),
        clustering(resource_graph(rs1), 1, clusters1, noise1),
        clustering(resource_graph(rs2), 1, clusters2, noise2),
        sites_of(found1, clusters1, rs1, placement, start, enemy_start, townhall),
        sites_of(found2, clusters2, rs2, placement, start, enemy_start, townhall),
        0 <= k1 < found1.len(),
    ensures
        exists|k2: int| 0 <= k2 < found2.len() && same_resources(found1[k1]@, #[trigger] found2[k2]@),
{
    lemma_bases_order_independent(rs1, rs2, perm, inv, clusters1, noise1, clusters2, noise2);
    let big1 = base_clusters(clusters1);
    let big2 = base_clusters(clusters2);
    lemma_base_cluster(clusters1, k1);
    let j1 = choose|j: int|
        0 <= j < clusters1.len() && #[trigger] clusters1[j] == big1[k1] && clusters1[j].len() > 1;
    let c1 = clusters1[j1];
    let a0 = c1[0] as int;
    let a1 = c1[1] as int;
    assert(member_at(clusters1, j1, a0, 0));
    assert(member_at(clusters1, j1, a1, 1));
    assert(in_cluster(clusters1, j1, a0) && in_cluster(clusters1, j1, a1));
    assert(c1.no_duplicates());
    assert(a0 != a1);
    assert(0 <= a0 < rs1.len() && 0 <= a1 < rs1.len());
    assert(same_cluster(clusters1, a0, a1));
    assert(same_cluster(clusters2, perm[a0], perm[a1]));
    let j2 = choose|j: int| in_cluster(clusters2, j, perm[a0]) && in_cluster(clusters2, j, perm[a1]);
    let c2 = clusters2[j2];
    let x = choose|x: int| member_at(clusters2, j2, perm[a0], x);
    let y = choose|y: int| member_at(clusters2, j2, perm[a1], y);
    assert(inv[perm[a0]] == a0 && inv[perm[a1]] == a1);
    assert(x != y);
    assert(c2.len() > 1);
    let pred = |c: Seq<usize>| c.len() > 1;
    clusters2.lemma_filter_contains(pred, j2);
    assert(big2.contains(c2));
    let k2 = choose|k2: int| 0 <= k2 < big2.len() && big2[k2] == c2;
    let e1 = found1[k1]@;
    let e2 = found2[k2]@;
    lemma_cluster_fits(c1, rs1.len() as int);
    lemma_cluster_fits(c2, rs2.len() as int);
    assert(members(rs1, c1).len() == c1.len() && members(rs2, c2).len() == c2.len());
    assert(is_site_of(e1, members(rs1, c1), placement, start, enemy_start, townhall));
    assert(is_site_of(e2, members(rs2, c2), placement, start, enemy_start, townhall));
    assert forall|t: u64| e1.minerals.contains(t) <==> e2.minerals.contains(t) by {
        lemma_site_holds_its_resources(
            e1,
            members(rs1, c1),
            placement,
            start,
            enemy_start,
            townhall,
            t,
        );
        lemma_site_holds_its_resources(
            e2,
            members(rs2, c2),
            placement,
            start,
            enemy_start,
            townhall,
            t,
        );
        lemma_same_members(
            rs1,
            rs2,
            perm,
            inv,
            clusters1,
            noise1,
            clusters2,
            noise2,
            j1,
            j2,
            false,
            t,
        );
    }
    assert forall|t: u64| e1.geysers.contains(t) <==> e2.geysers.contains(t) by {
        lemma_site_holds_its_resources(
            e1,
            members(rs1, c1),
            placement,
            start,
            enemy_start,
            townhall,
            t,
        );
        lemma_site_holds_its_resources(
            e2,
            members(rs2, c2),
            placement,
            start,
            enemy_start,
            townhall,
            t,
        );
        lemma_same_members(
            rs1,
            rs2,
            perm,
            inv,
            clusters1,
            noise1,
            clusters2,
            noise2,
            j1,
            j2,
            true,
            t,
        );
    }
    assert(same_resources(e1, e2));
}

/// Two resources make up a base together exactly if a chain of resources
/// leads from the one to the other in which each lies next to the one
/// before; a resource with none next to it makes up no base.
pub proof fn lemma_bases_are_chains(rs: Seq<Resource>, clusters: Seq<Seq<usize>>, noise: Seq<usize>)
    requires
        rs.len() <= usize::MAX,
        clustering(resource_graph(rs), 1, clusters, noise),
    ensures
        forall|a: int, b: int|
            0 <= a < rs.len() ==> (#[trigger] same_cluster(clusters, a, b) <==> dense(
                resource_graph(rs),
                1,
                a,
            ) && connected(resource_graph(rs), a, b)),
        forall|a: int|
            0 <= a < rs.len() ==> (#[trigger] is_noise(noise, a) <==> !dense(resource_graph(rs), 1, a)),
{
    lemma_resource_graph(rs);
    lemma_clusters_are_components(resource_graph(rs), 1, clusters, noise);
}

/// Which cells make up a ramp together does not depend on the order in
/// which the cells of the slopes are listed.
///
/// Let `cells2` hold the cells of `cells1` in another order, and let both
/// lists be clustered as the search for ramps clusters them. Then two cells
/// share a cluster of the one list exactly if they share a cluster of the
/// other, and a cell is left alone in the one exactly if it is left alone in
/// the other.
pub proof fn lemma_ramps_order_independent(
    cells1: Seq<Pos>,
    cells2: Seq<Pos>,
    perm: Seq<int>,
    inv: Seq<int>,
    clusters1: Seq<Seq<usize>>,
    noise1: Seq<usize>,
    clusters2: Seq<Seq<usize>>,
    noise2: Seq<usize>,
)
    requires
        cells1.len() <= usize::MAX,
        reordered(cells1, cells2, perm, inv),
        clustering(cell_graph(cells1), 1, clusters1, noise1),
        clustering(cell_graph(cells2), 1, clusters2, noise2),
    ensures
        forall|a: int, b: int|
            0 <= a < cells1.len() && 0 <= b < cells1.len() ==> (#[trigger] same_cluster(
                clusters1,
                a,
                b,
            ) <==> same_cluster(clusters2, perm[a], perm[b])),
        forall|a: int|
            0 <= a < cells1.len() ==> (#[trigger] is_noise(noise1, a) <==> is_noise(
                noise2,
                perm[a],
            )),
{
    let g1 = cell_graph(cells1);
    let g2 = cell_graph(cells2);
    lemma_cell_graph(cells1);
    lemma_cell_graph(cells2);
    assert(renumbered(g1, g2, perm)) by {
        assert forall|a: int, b: int| 0 <= a < g1.len() && 0 <= b < g1.len() implies (
        #[trigger] crate::dbscan::edge(g1, a, b) == crate::dbscan::edge(g2, perm[a], perm[b])) by {
            assert(cells2[perm[a]] == cells1[a]);
            assert(cells2[perm[b]] == cells1[b]);
        }
    }
    lemma_order_independent(g1, g2, 1, perm, inv, clusters1, noise1, clusters2, noise2);
}

/// The places that a list names, as numbers.
pub open spec fn places_of(c: Seq<usize>) -> Seq<int> {
    c.map_values(|x: usize| x as int)
}

/// A list that names no place twice and whose places, renumbered, are all
/// named by another list is no longer than that list.
pub proof fn lemma_cluster_into(c1: Seq<usize>, c2: Seq<usize>, perm: Seq<int>, inv: Seq<int>)
    requires
        renumbering(perm.len() as int, perm, inv),
        c1.no_duplicates(),
        forall|i: int| 0 <= i < c1.len() ==> (#[trigger] c1[i]) < perm.len(),
        forall|i: int| 0 <= i < c1.len() ==> places_of(c2).contains(perm[#[trigger] c1[i] as int]),
    ensures
        c1.len() <= c2.len(),
{
    let moved = c1.map_values(|x: usize| perm[x as int]);
    let named = places_of(c2);
    assert(moved.no_duplicates()) by {
        assert forall|i: int, j: int|
            0 <= i < moved.len() && 0 <= j < moved.len() && i != j implies moved[i] != moved[j] by {
            assert(c1[i] != c1[j]);
            assert(inv[perm[c1[i] as int]] == c1[i]);
            assert(inv[perm[c1[j] as int]] == c1[j]);
        }
    }
    moved.unique_seq_to_set();
    named.lemma_cardinality_of_set();
    assert(moved.to_set().subset_of(named.to_set())) by {
        assert forall|x: int| moved.to_set().contains(x) implies named.to_set().contains(x) by {
            let i = choose|i: int| 0 <= i < moved.len() && moved[i] == x;
            assert(named.contains(perm[c1[i] as int]));
        }
    }
    assert(named.to_set().finite()) by {
        vstd::seq_lib::seq_to_set_is_finite(named);
    }
    vstd::set_lib::lemma_len_subset(moved.to_set(), named.to_set());
}

/// A cluster that makes a ramp is one of the clusters, with cells enough.
pub proof fn lemma_ramp_cluster(clusters: Seq<Seq<usize>>, k: int)
    requires
        0 <= k < ramp_clusters(clusters).len(),
    ensures
        exists|j: int|
            0 <= j < clusters.len() && #[trigger] clusters[j] == ramp_clusters(clusters)[k]
                && clusters[j].len() >= MIN_RAMP_CELLS,
    decreases clusters.len(),
{
    reveal(Seq::filter);
    if clusters.len() > 0 {
        let head = clusters.drop_last();
        let bh = ramp_clusters(head);
        if k < bh.len() {
            lemma_ramp_cluster(head, k);
            let j = choose|j: int|
                0 <= j < head.len() && #[trigger] head[j] == bh[k] && head[j].len()
                    >= MIN_RAMP_CELLS;
            assert(clusters[j] == head[j]);
        } else {
            assert(clusters[clusters.len() - 1] == ramp_clusters(clusters)[k]);
        }
    }
}

/// The ramps of a map do not depend on the order in which the cells of the
/// slopes are listed.
///
/// Let `cells2` hold the cells of `cells1` in another order, and let
/// `ramps1` and `ramps2` be the ramps that the search makes of the one list
/// and of the other. Then for each ramp of the one there is a ramp of the
/// other that holds the same cells.
pub proof fn lemma_ramps_same_cells(
    cells1: Seq<Pos>,
    cells2: Seq<Pos>,
    perm: Seq<int>,
    inv: Seq<int>,
    clusters1: Seq<Seq<usize>>,
    noise1: Seq<usize>,
    clusters2: Seq<Seq<usize>>,
    noise2: Seq<usize>,
    ramps1: Seq<Ramp>,
    ramps2: Seq<Ramp>,
    k1: int,
)
    requires
        cells1.len() <= usize::MAX,
        reordered(cells1, cells2, perm, inv),
        clustering(cell_graph(cells1), 1, clusters1, noise1),
        clustering(cell_graph(cells2), 1, clusters2, noise2),
        ramps_of(ramps1, clusters1, cells1),
        ramps_of(ramps2, clusters2, cells2),
        0 <= k1 < ramps1.len(),
    ensures
        exists|k2: int|
            0 <= k2 < ramps2.len() && forall|p: Pos|
                ramps1[k1].points@.contains(p) <==> (#[trigger] ramps2[k2]).points@.contains(p),
{
    lemma_ramps_order_independent(cells1, cells2, perm, inv, clusters1, noise1, clusters2, noise2);
    let big1 = ramp_clusters(clusters1);
    let big2 = ramp_clusters(clusters2);
    lemma_ramp_cluster(clusters1, k1);
    let j1 = choose|j: int|
        0 <= j < clusters1.len() && #[trigger] clusters1[j] == big1[k1] && clusters1[j].len()
            >= MIN_RAMP_CELLS;
    let c1 = clusters1[j1];
    let a0 = c1[0] as int;
    assert(member_at(clusters1, j1, a0, 0));
    assert(in_cluster(clusters1, j1, a0));
    assert(0 <= a0 < cells1.len());
    assert(!is_noise(noise1, a0));
    assert(!is_noise(noise2, perm[a0]));
    let j2 = choose|j: int| in_cluster(clusters2, j, perm[a0]);
    let c2 = clusters2[j2];
    assert(member_at(clusters2, j2, perm[a0], choose|x: int| member_at(clusters2, j2, perm[a0], x)));
    assert(0 <= j2 < clusters2.len());
    assert forall|i: int| 0 <= i < c1.len() implies places_of(c2).contains(
        perm[#[trigger] c1[i] as int],
    ) by {
        let a = c1[i] as int;
        assert(member_at(clusters1, j1, a, i));
        assert(in_cluster(clusters1, j1, a));
        assert(0 <= a < cells1.len());
        assert(same_cluster(clusters1, a0, a));
        assert(same_cluster(clusters2, perm[a0], perm[a]));
        let j = choose|j: int| in_cluster(clusters2, j, perm[a0]) && in_cluster(clusters2, j, perm[a]);
        assert(j == j2);
        let x = choose|x: int| member_at(clusters2, j2, perm[a], x);
        assert(places_of(c2)[x] == perm[a]);
    }
    assert(c1.no_duplicates());
    assert forall|i: int| 0 <= i < c1.len() implies (#[trigger] c1[i]) < perm.len() by {
        assert(member_at(clusters1, j1, c1[i] as int, i));
    }
    lemma_cluster_into(c1, c2, perm, inv);
    let pred = |c: Seq<usize>| c.len() >= MIN_RAMP_CELLS;
    clusters2.lemma_filter_contains(pred, j2);
    assert(big2.contains(c2));
    let k2 = choose|k2: int| 0 <= k2 < big2.len() && big2[k2] == c2;
    let one = ramps1[k1].points@;
    let other = ramps2[k2].points@;
    assert(one == cells_at(cells1, c1));
    assert(other == cells_at(cells2, c2));
    assert forall|p: Pos| one.contains(p) <==> other.contains(p) by {
        if one.contains(p) {
            let i = choose|i: int| 0 <= i < one.len() && one[i] == p;
            let a = c1[i] as int;
            assert(places_of(c2).contains(perm[c1[i] as int]));
            let x = choose|x: int| 0 <= x < places_of(c2).len() && places_of(c2)[x] == perm[a];
            assert(member_at(clusters1, j1, a, i));
            assert(0 <= a < cells1.len());
            assert(cells2[perm[a]] == cells1[a]);
            assert(other[x] == p);
        }
        if other.contains(p) {
            let x = choose|x: int| 0 <= x < other.len() && other[x] == p;
            let b = c2[x] as int;
            assert(member_at(clusters2, j2, b, x));
            assert(in_cluster(clusters2, j2, b));
            assert(0 <= b < cells2.len());
            let a = inv[b];
            assert(perm[a] == b);
            assert(same_cluster(clusters2, perm[a0], perm[a]));
            assert(same_cluster(clusters1, a0, a));
            let j = choose|j: int| in_cluster(clusters1, j, a0) && in_cluster(clusters1, j, a);
            assert(j == j1);
            let i = choose|i: int| member_at(clusters1, j1, a, i);
            assert(cells2[perm[a]] == cells1[a]);
            assert(one[i] == p);
        }
    }
}

/// Two cells make up a ramp together exactly if a chain of touching cells
/// leads from the one to the other; a cell that none touches makes up no
/// ramp.
pub proof fn lemma_ramps_are_chains(cells: Seq<Pos>, clusters: Seq<Seq<usize>>, noise: Seq<usize>)
    requires
        cells.len() <= usize::MAX,
        clustering(cell_graph(cells), 1, clusters, noise),
    ensures
        forall|a: int, b: int|
            0 <= a < cells.len() ==> (#[trigger] same_cluster(clusters, a, b) <==> dense(
                cell_graph(cells),
                1,
                a,
            ) && connected(cell_graph(cells), a, b)),
        forall|a: int|
            0 <= a < cells.len() ==> (#[trigger] is_noise(noise, a) <==> !dense(cell_graph(cells), 1, a)),
{
    lemma_cell_graph(cells);
    lemma_clusters_are_components(cell_graph(cells), 1, clusters, noise);
}

} // verus!
