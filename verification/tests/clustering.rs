use sc2_core::dbscan::dbscan;

fn as_sets(clusters: &[Vec<usize>]) -> Vec<Vec<usize>> {
    let mut sets: Vec<Vec<usize>> = clusters
        .iter()
        .map(|c| {
            let mut c = c.clone();
            c.sort();
            c
        })
        .collect();
    sets.sort();
    sets
}

fn graph_of_edges(n: usize, edges: &[(usize, usize)]) -> Vec<Vec<usize>> {
    let mut g = vec![Vec::new(); n];
    for &(a, b) in edges {
        g[a].push(b);
        g[b].push(a);
    }
    g
}

fn renumber(graph: &[Vec<usize>], perm: &[usize]) -> Vec<Vec<usize>> {
    let mut g = vec![Vec::new(); graph.len()];
    for (a, list) in graph.iter().enumerate() {
        g[perm[a]] = list.iter().map(|b| perm[*b]).collect();
    }
    g
}

#[test]
fn no_points_make_no_clusters() {
    let (clusters, noise) = dbscan(&vec![], 1);
    assert!(clusters.is_empty());
    assert!(noise.is_empty());
}

#[test]
fn points_without_neighbours_are_noise() {
    let (clusters, noise) = dbscan(&vec![vec![], vec![], vec![]], 1);
    assert!(clusters.is_empty());
    assert_eq!(noise, vec![0, 1, 2]);
}

#[test]
fn with_no_neighbours_asked_for_every_point_is_a_cluster() {
    let (clusters, noise) = dbscan(&vec![vec![], vec![]], 0);
    assert_eq!(clusters, vec![vec![0], vec![1]]);
    assert!(noise.is_empty());
}

#[test]
fn chains_of_neighbours_make_one_cluster_each() {
    let g = graph_of_edges(7, &[(0, 1), (1, 2), (4, 5)]);
    let (clusters, noise) = dbscan(&g, 1);
    assert_eq!(as_sets(&clusters), vec![vec![0, 1, 2], vec![4, 5]]);
    assert_eq!(noise, vec![3, 6]);
    assert_eq!(clusters[0][0], 0);
    assert_eq!(clusters[1][0], 4);
}

#[test]
fn every_point_is_in_one_cluster_or_noise_and_there_once() {
    let g = graph_of_edges(9, &[(0, 8), (8, 3), (2, 5), (5, 6), (6, 2), (1, 7)]);
    let (clusters, noise) = dbscan(&g, 1);
    let mut seen: Vec<usize> = clusters.iter().flatten().copied().chain(noise.iter().copied()).collect();
    seen.sort();
    assert_eq!(seen, (0..9).collect::<Vec<_>>());
}

#[test]
fn a_point_with_too_few_neighbours_joins_the_cluster_of_a_core_point() {
    // 0 - 1 - 2, and 1 - 3: with two neighbours asked for only 1 is a core point.
    let g = graph_of_edges(5, &[(0, 1), (1, 2), (1, 3)]);
    let (clusters, noise) = dbscan(&g, 2);
    assert_eq!(as_sets(&clusters), vec![vec![0, 1, 2, 3]]);
    assert_eq!(noise, vec![4]);
    assert_eq!(clusters[0][0], 1);
}

#[test]
fn points_that_no_core_point_reaches_stay_noise() {
    // A chain of two: with two neighbours asked for neither is a core point.
    let g = graph_of_edges(2, &[(0, 1)]);
    let (clusters, noise) = dbscan(&g, 2);
    assert!(clusters.is_empty());
    assert_eq!(noise, vec![0, 1]);
}

#[test]
fn the_clusters_do_not_depend_on_the_order_of_the_points() {
    let g = graph_of_edges(8, &[(0, 1), (1, 2), (3, 4), (5, 6), (6, 3)]);
    let (clusters, noise) = dbscan(&g, 1);
    let perms: Vec<Vec<usize>> = vec![
        vec![7, 6, 5, 4, 3, 2, 1, 0],
        vec![3, 0, 5, 1, 7, 2, 6, 4],
        vec![1, 2, 3, 4, 5, 6, 7, 0],
    ];
    for perm in perms {
        let (c2, n2) = dbscan(&renumber(&g, &perm), 1);
        let mapped: Vec<Vec<usize>> =
            clusters.iter().map(|c| c.iter().map(|a| perm[*a]).collect()).collect();
        assert_eq!(as_sets(&mapped), as_sets(&c2));
        let mut noise_mapped: Vec<usize> = noise.iter().map(|a| perm[*a]).collect();
        noise_mapped.sort();
        assert_eq!(noise_mapped, n2);
    }
}
