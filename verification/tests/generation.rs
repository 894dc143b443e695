use procedural_tree::enums::{LeafBillboard, TreeType};
use procedural_tree::errors::IndicesOverflowError;
use procedural_tree::mesh::{BranchOutcome, DebugColor, IndexWidth, Placement};
use procedural_tree::meshgen::{generate_tree, TreeMesh};
use procedural_tree::settings::{BranchRecursionLevel, TreeSettings};

fn bare(tree_type: TreeType, sections: u8, segments: u8) -> TreeSettings {
    let mut settings = TreeSettings::default();
    settings.tree_type = tree_type;
    settings.branch.levels = BranchRecursionLevel::Zero;
    settings.branch.children = [0, 0, 0];
    settings.branch.sections = [sections, 1, 1, 1];
    settings.branch.segments = [segments, 1, 1, 1];
    settings
}

fn evergreen() -> TreeSettings {
    let mut settings = TreeSettings::default();
    settings.tree_type = TreeType::Evergreen;
    settings
}

fn same(a: &TreeMesh, b: &TreeMesh) -> bool {
    a.records == b.records
        && a.branches.vertices == b.branches.vertices
        && a.branches.indices == b.branches.indices
        && a.leaves.vertices == b.leaves.vertices
        && a.leaves.indices == b.leaves.indices
}

#[test]
fn bare_trunk_is_one_branch_with_leaves_at_its_tip() {
    for tree_type in [TreeType::Deciduous, TreeType::Evergreen] {
        let settings = bare(tree_type, 5, 7);
        let tree = generate_tree(&settings, IndexWidth::U16).unwrap();
        assert_eq!(tree.records.len(), 1);
        assert_eq!(tree.branches.vertices.len(), (5 + 1) * (7 + 1));
        assert_eq!(tree.branches.indices.len(), 6 * 5 * 7);
        let record = tree.records[0];
        assert_eq!(record.state.placement, Placement::Root);
        assert_eq!(record.state.sections, 5);
        assert_eq!(record.state.segments, 7);
        assert_eq!(record.first_vertex, 0);
        assert_eq!(record.outcome, BranchOutcome::Leaves { quads: 2 });
        assert!(record.pointed);
        assert_eq!(tree.leaves.vertices.len(), 8);
        assert_eq!(tree.leaves.indices, vec![0, 1, 2, 0, 2, 3, 4, 5, 6, 4, 6, 7]);
        assert!(tree.leaves.vertices.iter().all(|v| v.site == 0));
    }
}

#[test]
fn single_billboard_gives_one_quad() {
    let mut settings = bare(TreeType::Evergreen, 1, 3);
    settings.leaves.leaf_billboard = LeafBillboard::Single;
    let tree = generate_tree(&settings, IndexWidth::U16).unwrap();
    assert_eq!(tree.records[0].outcome, BranchOutcome::Leaves { quads: 1 });
    assert_eq!(tree.leaves.vertices.len(), 4);
    assert_eq!(tree.leaves.indices, vec![0, 1, 2, 0, 2, 3]);
    let corners: Vec<u8> = tree.leaves.vertices.iter().map(|v| v.corner).collect();
    assert_eq!(corners, vec![0, 1, 2, 3]);
    let uvs: Vec<(u8, u8)> = tree.leaves.vertices.iter().map(|v| (v.uv.u_numerator, v.uv.v)).collect();
    assert_eq!(uvs, vec![(0, 1), (0, 0), (1, 0), (1, 1)]);
    assert!(tree.leaves.vertices.iter().all(|v| v.uv.u_denominator == 1 && v.quad == 0));
}

#[test]
fn double_billboard_numbers_its_quads() {
    let settings = bare(TreeType::Evergreen, 1, 3);
    let tree = generate_tree(&settings, IndexWidth::U16).unwrap();
    let quads: Vec<u8> = tree.leaves.vertices.iter().map(|v| v.quad).collect();
    assert_eq!(quads, vec![0, 0, 0, 0, 1, 1, 1, 1]);
    let corners: Vec<u8> = tree.leaves.vertices.iter().map(|v| v.corner).collect();
    assert_eq!(corners, vec![0, 1, 2, 3, 0, 1, 2, 3]);
}

#[test]
fn triangles_of_a_small_branch() {
    let settings = bare(TreeType::Evergreen, 1, 2);
    let tree = generate_tree(&settings, IndexWidth::U16).unwrap();
    assert_eq!(tree.branches.indices, vec![0, 3, 1, 1, 3, 4, 1, 4, 2, 2, 4, 5]);
}

#[test]
fn vertices_of_a_small_branch() {
    let settings = bare(TreeType::Evergreen, 1, 2);
    let tree = generate_tree(&settings, IndexWidth::U16).unwrap();
    let seen: Vec<(u32, u8, u8, u8, u8, u8)> = tree
        .branches
        .vertices
        .iter()
        .map(|v| (v.branch, v.ring, v.step, v.uv.u_numerator, v.uv.u_denominator, v.uv.v))
        .collect();
    assert_eq!(
        seen,
        vec![
            (0, 0, 0, 0, 2, 0),
            (0, 0, 1, 1, 2, 0),
            (0, 0, 0, 2, 2, 0),
            (0, 1, 0, 0, 2, 1),
            (0, 1, 1, 1, 2, 1),
            (0, 1, 0, 2, 2, 1),
        ]
    );
    assert!(tree.branches.vertices.iter().all(|v| v.color == DebugColor::Red));
}

#[test]
fn overflow_of_16_bit_indices_is_an_error() {
    let mut settings = evergreen();
    settings.branch.children = [255, 255, 255];
    settings.branch.sections = [255, 255, 255, 255];
    settings.branch.segments = [255, 255, 255, 255];
    assert!(matches!(generate_tree(&settings, IndexWidth::U16), Err(IndicesOverflowError)));
}

#[test]
fn one_vertex_too_many_is_an_error() {
    // 256 rings of 256 vertices are 65536 vertices, one more than 16 bits count
    let full = bare(TreeType::Evergreen, 255, 255);
    assert!(generate_tree(&full, IndexWidth::U16).is_err());
    let wide = generate_tree(&full, IndexWidth::U32).unwrap();
    assert_eq!(wide.branches.vertices.len(), 65536);
    assert_eq!(*wide.branches.indices.iter().max().unwrap(), 65535);
    // 256 rings of 255 vertices fit
    let fitting = bare(TreeType::Evergreen, 255, 254);
    let tree = generate_tree(&fitting, IndexWidth::U16).unwrap();
    assert_eq!(tree.branches.vertices.len(), 65280);
}

#[test]
fn too_many_leaves_are_an_error() {
    // 91 * 91 tips with 8 leaf vertices each are 66248 leaf vertices
    let mut settings = evergreen();
    settings.branch.levels = BranchRecursionLevel::Two;
    settings.branch.children = [91, 91, 0];
    settings.branch.sections = [1, 1, 1, 1];
    settings.branch.segments = [1, 1, 1, 1];
    assert!(generate_tree(&settings, IndexWidth::U16).is_err());
    let tree = generate_tree(&settings, IndexWidth::U32).unwrap();
    assert_eq!(tree.leaves.vertices.len(), 66248);
    assert_eq!(tree.branches.vertices.len(), 4 * (1 + 91 + 91 * 91));
    // 90 * 90 tips are 64800 leaf vertices
    settings.branch.children = [90, 90, 0];
    let tree = generate_tree(&settings, IndexWidth::U16).unwrap();
    assert_eq!(tree.leaves.vertices.len(), 64800);
}

#[test]
fn default_evergreen_tree_has_the_expected_size() {
    let tree = generate_tree(&evergreen(), IndexWidth::U16).unwrap();
    assert_eq!(tree.records.len(), 1 + 10 + 40 + 120);
    assert_eq!(tree.branches.vertices.len(), 117 + 10 * 63 + 40 * 35 + 120 * 20);
    assert_eq!(tree.branches.indices.len(), 576 + 10 * 288 + 40 * 144 + 120 * 72);
    assert_eq!(tree.leaves.vertices.len(), 120 * 8);
    assert_eq!(tree.leaves.indices.len(), 120 * 12);
    assert!(tree.records.iter().all(|r| r.pointed));
}

#[test]
fn default_deciduous_tree_is_a_trunk_of_four_pieces() {
    let tree = generate_tree(&TreeSettings::default(), IndexWidth::U16).unwrap();
    assert_eq!(tree.records.len(), 4);
    for (i, record) in tree.records.iter().enumerate() {
        assert_eq!(record.state.level, 0);
        assert_eq!(record.state.recursion_count, i);
        assert_eq!(record.state.sections, 12);
        assert_eq!(record.state.segments, 8);
        assert_eq!(record.first_vertex as usize, i * 117);
        assert_eq!(record.first_leaf_vertex, 0);
        if i == 0 {
            assert_eq!(record.state.placement, Placement::Root);
        } else {
            assert_eq!(record.state.placement, Placement::Continuation { of: i as u32 - 1 });
        }
        if i < 3 {
            assert_eq!(record.outcome, BranchOutcome::Continue);
            assert!(!record.pointed);
        } else {
            assert_eq!(record.outcome, BranchOutcome::Leaves { quads: 2 });
            assert!(record.pointed);
        }
    }
    assert_eq!(tree.branches.vertices.len(), 4 * 117);
    assert_eq!(tree.leaves.vertices.len(), 8);
    assert!(tree.leaves.vertices.iter().all(|v| v.site == 3));
    let colors: Vec<DebugColor> = tree.records.iter().map(|r| tree.branches.vertices[r.first_vertex as usize].color).collect();
    assert_eq!(colors, vec![DebugColor::Red, DebugColor::Green, DebugColor::Blue, DebugColor::Cyan]);
}

#[test]
fn children_follow_their_parent_in_order() {
    let mut settings = evergreen();
    settings.branch.levels = BranchRecursionLevel::Two;
    settings.branch.children = [2, 3, 0];
    let tree = generate_tree(&settings, IndexWidth::U16).unwrap();
    let placements: Vec<Placement> = tree.records.iter().map(|r| r.state.placement).collect();
    assert_eq!(
        placements,
        vec![
            Placement::Root,
            Placement::Child { parent: 0, ordinal: 0, count: 2 },
            Placement::Child { parent: 1, ordinal: 0, count: 3 },
            Placement::Child { parent: 1, ordinal: 1, count: 3 },
            Placement::Child { parent: 1, ordinal: 2, count: 3 },
            Placement::Child { parent: 0, ordinal: 1, count: 2 },
            Placement::Child { parent: 5, ordinal: 0, count: 3 },
            Placement::Child { parent: 5, ordinal: 1, count: 3 },
            Placement::Child { parent: 5, ordinal: 2, count: 3 },
        ]
    );
    let levels: Vec<(usize, usize)> = tree.records.iter().map(|r| (r.state.level, r.state.recursion_count)).collect();
    assert_eq!(levels, vec![(0, 0), (1, 1), (2, 2), (2, 2), (2, 2), (1, 1), (2, 2), (2, 2), (2, 2)]);
    let outcomes: Vec<BranchOutcome> = tree.records.iter().map(|r| r.outcome).collect();
    assert_eq!(outcomes[0], BranchOutcome::Children { count: 2 });
    assert_eq!(outcomes[1], BranchOutcome::Children { count: 3 });
    assert_eq!(outcomes[2], BranchOutcome::Leaves { quads: 2 });
    let leaf_starts: Vec<u32> = tree.records.iter().map(|r| r.first_leaf_vertex).collect();
    assert_eq!(leaf_starts, vec![0, 0, 0, 8, 16, 24, 24, 32, 40]);
}

#[test]
fn a_level_without_children_ends_the_tree_there() {
    let mut settings = evergreen();
    settings.branch.children = [10, 0, 3];
    let tree = generate_tree(&settings, IndexWidth::U16).unwrap();
    assert_eq!(tree.records.len(), 1 + 10);
    assert_eq!(tree.records[0].outcome, BranchOutcome::Children { count: 10 });
    for record in &tree.records[1..] {
        assert_eq!(record.outcome, BranchOutcome::Children { count: 0 });
        assert_eq!(record.state.recursion_count, 1);
    }
    assert!(tree.leaves.vertices.is_empty());
    assert!(tree.leaves.indices.is_empty());
    assert_eq!(tree.branches.vertices.len(), 117 + 10 * 63);
}

#[test]
fn a_trunk_without_children_stands_alone() {
    let mut settings = evergreen();
    settings.branch.children = [0, 4, 3];
    let tree = generate_tree(&settings, IndexWidth::U16).unwrap();
    assert_eq!(tree.records.len(), 1);
    assert_eq!(tree.records[0].outcome, BranchOutcome::Children { count: 0 });
    assert!(tree.leaves.vertices.is_empty());
}

#[test]
fn counts_of_zero_are_read_as_one() {
    let settings = bare(TreeType::Deciduous, 0, 0);
    let tree = generate_tree(&settings, IndexWidth::U16).unwrap();
    assert_eq!(tree.records[0].state.sections, 1);
    assert_eq!(tree.records[0].state.segments, 1);
    assert_eq!(tree.branches.vertices.len(), 4);
    assert_eq!(tree.branches.indices, vec![0, 2, 1, 1, 2, 3]);
    assert!(same(&tree, &generate_tree(&bare(TreeType::Deciduous, 1, 1), IndexWidth::U16).unwrap()));
}

#[test]
fn generation_is_deterministic() {
    for settings in [TreeSettings::default(), evergreen()] {
        let a = generate_tree(&settings, IndexWidth::U16).unwrap();
        let b = generate_tree(&settings, IndexWidth::U16).unwrap();
        assert!(same(&a, &b));
        let wide = generate_tree(&settings, IndexWidth::U32).unwrap();
        assert!(same(&a, &wide));
    }
}

#[test]
fn every_ring_closes_on_its_first_vertex() {
    let tree = generate_tree(&evergreen(), IndexWidth::U16).unwrap();
    let mut rings = 0;
    for (id, record) in tree.records.iter().enumerate() {
        let stride = record.state.segments as usize + 1;
        for ring in 0..=record.state.sections as usize {
            let start = record.first_vertex as usize + ring * stride;
            let first = tree.branches.vertices[start];
            let last = tree.branches.vertices[start + record.state.segments as usize];
            assert_eq!((first.branch, first.ring, first.step), (id as u32, ring as u8, 0));
            assert_eq!((last.branch, last.ring, last.step), (id as u32, ring as u8, 0));
            assert_eq!(first.uv.v, last.uv.v);
            assert_eq!(first.uv.v, (ring % 2) as u8);
            assert_eq!(first.color, last.color);
            assert_eq!(first.uv.u_numerator, 0);
            assert_eq!(last.uv.u_numerator, last.uv.u_denominator);
            assert_ne!(first.uv, last.uv);
            rings += 1;
        }
    }
    assert_eq!(rings, 13 + 10 * 9 + 40 * 7 + 120 * 5);
}

#[test]
fn every_index_names_a_vertex() {
    for settings in [TreeSettings::default(), evergreen()] {
        let tree = generate_tree(&settings, IndexWidth::U16).unwrap();
        assert!(tree.branches.indices.iter().all(|&i| (i as usize) < tree.branches.vertices.len()));
        assert!(tree.leaves.indices.iter().all(|&i| (i as usize) < tree.leaves.vertices.len()));
        assert_eq!(tree.branches.indices.len() % 3, 0);
        assert_eq!(tree.leaves.indices.len() % 3, 0);
    }
}

#[test]
fn the_triangles_of_a_branch_stay_within_the_branch() {
    let tree = generate_tree(&evergreen(), IndexWidth::U16).unwrap();
    let mut next = 0;
    for record in &tree.records {
        let cells = record.state.sections as usize * record.state.segments as usize;
        let own = (record.state.sections as u32 + 1) * (record.state.segments as u32 + 1);
        for &index in &tree.branches.indices[next..next + 6 * cells] {
            assert!(record.first_vertex <= index && index < record.first_vertex + own);
        }
        next += 6 * cells;
    }
    assert_eq!(next, tree.branches.indices.len());
}

#[test]
fn recursion_depth_stays_within_the_levels() {
    for levels in [BranchRecursionLevel::Zero, BranchRecursionLevel::One, BranchRecursionLevel::Two, BranchRecursionLevel::Three] {
        for tree_type in [TreeType::Deciduous, TreeType::Evergreen] {
            let mut settings = TreeSettings::default();
            settings.tree_type = tree_type;
            settings.branch.levels = levels;
            let tree = generate_tree(&settings, IndexWidth::U16).unwrap();
            let deepest = tree.records.iter().map(|r| r.state.recursion_count).max().unwrap();
            assert_eq!(deepest, usize::from(levels));
            for record in &tree.records {
                match record.state.placement {
                    Placement::Root => assert_eq!(record.state.recursion_count, 0),
                    Placement::Continuation { of } => assert_eq!(
                        tree.records[of as usize].state.recursion_count + 1,
                        record.state.recursion_count
                    ),
                    Placement::Child { parent, .. } => assert_eq!(
                        tree.records[parent as usize].state.recursion_count + 1,
                        record.state.recursion_count
                    ),
                }
            }
        }
    }
}

#[test]
fn tips_are_where_branches_end() {
    let deciduous = generate_tree(&TreeSettings::default(), IndexWidth::U16).unwrap();
    for record in &deciduous.records {
        assert_eq!(record.pointed, matches!(record.outcome, BranchOutcome::Leaves { .. }));
    }
    let evergreen = generate_tree(&evergreen(), IndexWidth::U16).unwrap();
    assert!(evergreen.records.iter().all(|r| r.pointed));
}

#[test]
fn every_branch_hangs_where_its_record_says() {
    let mut mixed = evergreen();
    mixed.branch.children = [3, 0, 2];
    for settings in [TreeSettings::default(), evergreen(), mixed] {
        let tree = generate_tree(&settings, IndexWidth::U16).unwrap();
        for (i, record) in tree.records.iter().enumerate() {
            match record.state.placement {
                Placement::Root => assert_eq!(i, 0),
                Placement::Continuation { of } => {
                    assert_eq!(of as usize + 1, i);
                    assert_eq!(tree.records[of as usize].outcome, BranchOutcome::Continue);
                }
                Placement::Child { parent, ordinal, count } => {
                    assert!((parent as usize) < i);
                    assert_eq!(tree.records[parent as usize].outcome, BranchOutcome::Children { count });
                    assert!(ordinal < count);
                }
            }
        }
    }
}

#[test]
fn leaves_sit_on_their_branch() {
    let tree = generate_tree(&evergreen(), IndexWidth::U16).unwrap();
    let mut sites = 0;
    for (i, record) in tree.records.iter().enumerate() {
        if let BranchOutcome::Leaves { quads } = record.outcome {
            for quad in 0..quads {
                for corner in 0..4u8 {
                    let place = record.first_leaf_vertex as usize + 4 * quad as usize + corner as usize;
                    let vertex = tree.leaves.vertices[place];
                    assert_eq!((vertex.site, vertex.quad, vertex.corner), (i as u32, quad, corner));
                }
            }
            sites += 1;
        }
    }
    assert_eq!(sites, 120);
}
