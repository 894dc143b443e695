use procedural_tree::draws::{draw_count, draw_schedule};
use procedural_tree::emit::{
    build_rings, build_triangles, generate_leaf, leaf_vertex_count, vertex_count,
};
use procedural_tree::enums::{LeafBillboard, TreeType};
use procedural_tree::growth::Growth;
use procedural_tree::mesh::{
    BranchGenState, BranchOutcome, IndexWidth, LeafVertex, MeshBuffers, Placement, RingVertex,
    SectionData,
};
use procedural_tree::meshgen::{
    build_branch, generate_branches_internal, generate_child_branches, generate_tree, growth,
    recurse_a_branch, TreeMesh,
};
use procedural_tree::settings::{BranchRecursionLevel, TreeSettings};
use procedural_tree::shares::{
    bracketing_sections, length_share, taper_pieces, target_pieces, Ratio,
};

fn state(level: usize, recursion_count: usize, sections: u8, segments: u8) -> BranchGenState {
    BranchGenState { level, recursion_count, sections, segments, placement: Placement::Root }
}

fn with_levels(tree_type: TreeType, levels: BranchRecursionLevel) -> TreeSettings {
    let mut settings = TreeSettings::default();
    settings.tree_type = tree_type;
    settings.branch.levels = levels;
    settings
}

#[test]
fn target_pieces_are_triangular_numbers() {
    let levels = [
        BranchRecursionLevel::Zero,
        BranchRecursionLevel::One,
        BranchRecursionLevel::Two,
        BranchRecursionLevel::Three,
    ];
    let pieces = levels.map(|l| target_pieces(&with_levels(TreeType::Deciduous, l)));
    assert_eq!(pieces, [1, 3, 6, 10]);
}

#[test]
fn trunk_pieces_share_the_length_of_the_trunk() {
    let settings = with_levels(TreeType::Deciduous, BranchRecursionLevel::Three);
    let shares: Vec<Ratio> = (0..=3).map(|depth| length_share(&settings, &state(0, depth, 12, 8))).collect();
    assert_eq!(
        shares,
        vec![
            Ratio { numerator: 4, denominator: 10 },
            Ratio { numerator: 3, denominator: 10 },
            Ratio { numerator: 2, denominator: 10 },
            Ratio { numerator: 1, denominator: 10 },
        ]
    );
    assert_eq!(shares.iter().map(|s| s.numerator).sum::<u32>(), 10);
    let bare = with_levels(TreeType::Deciduous, BranchRecursionLevel::Zero);
    assert_eq!(length_share(&bare, &state(0, 0, 1, 1)), Ratio { numerator: 1, denominator: 1 });
}

#[test]
fn other_branches_have_their_whole_length() {
    let whole = Ratio { numerator: 1, denominator: 1 };
    let evergreen = with_levels(TreeType::Evergreen, BranchRecursionLevel::Three);
    assert_eq!(length_share(&evergreen, &state(0, 0, 12, 8)), whole);
    assert_eq!(length_share(&evergreen, &state(2, 2, 6, 4)), whole);
    let deciduous = with_levels(TreeType::Deciduous, BranchRecursionLevel::Three);
    assert_eq!(length_share(&deciduous, &state(1, 1, 8, 6)), whole);
}

#[test]
fn a_deciduous_trunk_tapers_over_all_its_pieces() {
    let deciduous = with_levels(TreeType::Deciduous, BranchRecursionLevel::Three);
    assert_eq!(taper_pieces(&deciduous, &state(0, 0, 12, 8)), 4);
    assert_eq!(taper_pieces(&deciduous, &state(0, 3, 12, 8)), 4);
    assert_eq!(taper_pieces(&deciduous, &state(1, 1, 8, 6)), 1);
    let short = with_levels(TreeType::Deciduous, BranchRecursionLevel::One);
    assert_eq!(taper_pieces(&short, &state(0, 0, 12, 8)), 2);
    let evergreen = with_levels(TreeType::Evergreen, BranchRecursionLevel::Three);
    assert_eq!(taper_pieces(&evergreen, &state(0, 0, 12, 8)), 1);
}

#[test]
fn children_sit_between_two_rings() {
    assert_eq!(bracketing_sections(0, 5), (0, 1));
    assert_eq!(bracketing_sections(3, 5), (3, 4));
    assert_eq!(bracketing_sections(4, 5), (4, 4));
    assert_eq!(bracketing_sections(5, 5), (4, 4));
    assert_eq!(bracketing_sections(usize::MAX, 5), (4, 4));
    assert_eq!(bracketing_sections(0, 1), (0, 0));
    assert_eq!(bracketing_sections(7, 1), (0, 0));
}

#[test]
fn growth_follows_type_level_and_depth() {
    let deciduous = with_levels(TreeType::Deciduous, BranchRecursionLevel::Two);
    assert_eq!(growth(&deciduous, &state(0, 0, 1, 1)), Growth::Continue);
    assert_eq!(growth(&deciduous, &state(0, 1, 1, 1)), Growth::Continue);
    assert_eq!(growth(&deciduous, &state(0, 2, 1, 1)), Growth::Leaves);
    assert_eq!(growth(&deciduous, &state(1, 1, 1, 1)), Growth::Children);
    assert_eq!(growth(&deciduous, &state(2, 2, 1, 1)), Growth::Leaves);
    let evergreen = with_levels(TreeType::Evergreen, BranchRecursionLevel::Two);
    assert_eq!(growth(&evergreen, &state(0, 0, 1, 1)), Growth::Children);
    assert_eq!(growth(&evergreen, &state(1, 1, 1, 1)), Growth::Children);
    assert_eq!(growth(&evergreen, &state(2, 2, 1, 1)), Growth::Leaves);
    let bare = with_levels(TreeType::Evergreen, BranchRecursionLevel::Zero);
    assert_eq!(growth(&bare, &state(0, 0, 1, 1)), Growth::Leaves);
}

#[test]
fn no_children_without_count_or_rings() {
    let settings = TreeSettings::default();
    let rings = vec![SectionData { branch: 7, ring: 0, tip: false }];
    assert!(generate_child_branches(0, 1, &rings, &settings).is_empty());
    assert!(generate_child_branches(3, 1, &Vec::new(), &settings).is_empty());
}

#[test]
fn children_are_numbered_and_take_their_counts_from_the_settings() {
    let settings = TreeSettings::default();
    let rings = vec![
        SectionData { branch: 7, ring: 0, tip: false },
        SectionData { branch: 7, ring: 1, tip: true },
    ];
    let children = generate_child_branches(3, 2, &rings, &settings);
    let expected: Vec<BranchGenState> = (0..3)
        .map(|ordinal| BranchGenState {
            level: 2,
            recursion_count: 2,
            sections: 6,
            segments: 4,
            placement: Placement::Child { parent: 7, ordinal, count: 3 },
        })
        .collect();
    assert_eq!(children, expected);
}

#[test]
fn rings_are_built_in_order() {
    let mut vertices: Vec<RingVertex> = Vec::new();
    let rings = build_rings(&state(1, 1, 2, 3), 5, true, &mut vertices);
    assert_eq!(
        rings,
        vec![
            SectionData { branch: 5, ring: 0, tip: false },
            SectionData { branch: 5, ring: 1, tip: false },
            SectionData { branch: 5, ring: 2, tip: true },
        ]
    );
    assert_eq!(vertices.len(), 12);
    let steps: Vec<u8> = vertices.iter().map(|v| v.step).collect();
    assert_eq!(steps, vec![0, 1, 2, 0, 0, 1, 2, 0, 0, 1, 2, 0]);
    let blunt = build_rings(&state(1, 1, 2, 3), 5, false, &mut vertices);
    assert!(blunt.iter().all(|ring| !ring.tip));
    assert_eq!(vertices.len(), 24);
}

#[test]
fn triangles_start_at_the_first_vertex_of_the_branch() {
    let mut indices: Vec<u32> = vec![9];
    build_triangles(&state(0, 0, 2, 1), 100, &mut indices);
    assert_eq!(indices, vec![9, 100, 102, 101, 101, 102, 103, 102, 104, 103, 103, 104, 105]);
}

#[test]
fn leaves_are_appended_or_refused() {
    let mut leaves: MeshBuffers<LeafVertex> = MeshBuffers::new();
    assert!(generate_leaf(LeafBillboard::Single, 3, 11, &mut leaves).is_ok());
    assert!(generate_leaf(LeafBillboard::Double, 4, 11, &mut leaves).is_err());
    assert_eq!(leaves.vertices.len(), 4);
    assert_eq!(leaves.indices.len(), 6);
    assert!(generate_leaf(LeafBillboard::Double, 4, 12, &mut leaves).is_ok());
    assert_eq!(leaves.vertices.len(), 12);
    assert_eq!(leaves.indices, vec![0, 1, 2, 0, 2, 3, 4, 5, 6, 4, 6, 7, 8, 9, 10, 8, 10, 11]);
    let sites: Vec<u32> = leaves.vertices.iter().map(|v| v.site).collect();
    assert_eq!(sites, vec![3, 3, 3, 3, 4, 4, 4, 4, 4, 4, 4, 4]);
    assert!(generate_leaf(LeafBillboard::Single, 5, 12, &mut leaves).is_err());
    assert_eq!(leaves.vertices.len(), 12);
}

#[test]
fn a_branch_is_built_or_the_tree_left_alone() {
    let settings = with_levels(TreeType::Evergreen, BranchRecursionLevel::Zero);
    let mut mesh = TreeMesh::new();
    assert!(build_branch(&settings, state(0, 0, 1, 1), 3, &mut mesh).is_err());
    assert!(mesh.records.is_empty() && mesh.branches.vertices.is_empty() && mesh.leaves.vertices.is_empty());
    assert!(build_branch(&settings, state(0, 0, 1, 1), 7, &mut mesh).is_err());
    assert!(mesh.records.is_empty() && mesh.branches.vertices.is_empty() && mesh.leaves.vertices.is_empty());
    let rings = build_branch(&settings, state(0, 0, 1, 1), 8, &mut mesh).unwrap();
    assert_eq!(rings.len(), 2);
    assert!(rings[1].tip && !rings[0].tip);
    assert_eq!(mesh.records.len(), 1);
    assert_eq!(mesh.records[0].outcome, BranchOutcome::Leaves { quads: 2 });
    assert_eq!(mesh.branches.vertices.len(), 4);
    assert_eq!(mesh.leaves.vertices.len(), 8);
}

#[test]
fn the_recursion_can_start_anywhere() {
    let settings = with_levels(TreeType::Evergreen, BranchRecursionLevel::Two);
    let part = generate_branches_internal(&settings, state(1, 1, 8, 6), IndexWidth::U16).unwrap();
    assert_eq!(part.records.len(), 1 + 4);
    assert_eq!(part.branches.vertices.len(), 63 + 4 * 35);
    let whole = generate_tree(&settings, IndexWidth::U16).unwrap();
    assert_eq!(whole.records.len(), 1 + 10 * (1 + 4));
    let mut mesh = TreeMesh::new();
    assert!(recurse_a_branch(&settings, state(1, 1, 8, 6), 63 + 4 * 35 - 1, &mut mesh).is_err());
    let mut mesh = TreeMesh::new();
    assert!(recurse_a_branch(&settings, state(1, 1, 8, 6), 63 + 4 * 35, &mut mesh).is_ok());
    assert_eq!(mesh.records, part.records);
    assert!(recurse_a_branch(&settings, state(2, 2, 1, 1), 63 + 4 * 35 + 4, &mut mesh).is_ok());
    assert_eq!(mesh.records.len(), 6);
    assert_eq!(mesh.records[5].first_vertex, 63 + 4 * 35);
    assert_eq!(mesh.records[5].first_leaf_vertex, 32);
}

#[test]
fn draws_are_counted_per_branch() {
    let mut settings = with_levels(TreeType::Evergreen, BranchRecursionLevel::Two);
    settings.branch.children = [2, 0, 0];
    settings.branch.sections = [3, 5, 1, 1];
    let tree = generate_tree(&settings, IndexWidth::U16).unwrap();
    let counts: Vec<u32> = tree.records.iter().map(draw_count).collect();
    // the trunk bends 3 times and places 2 children, each child bends 5 times
    assert_eq!(counts, vec![2 * 3 + 1 + 2, 2 * 5, 2 * 5]);
    assert_eq!(draw_schedule(&tree.records), vec![0, 9, 19, 29]);
    let bare = with_levels(TreeType::Deciduous, BranchRecursionLevel::One);
    let tree = generate_tree(&bare, IndexWidth::U16).unwrap();
    // two trunk pieces of 12 sections, and one draw for the leaves
    assert_eq!(draw_schedule(&tree.records), vec![0, 24, 49]);
    assert_eq!(draw_schedule(&Vec::new()), vec![0]);
}

#[test]
fn vertices_are_counted_per_branch() {
    assert_eq!(vertex_count(&state(0, 0, 12, 8)), 13 * 9);
    assert_eq!(vertex_count(&state(0, 0, 255, 255)), 65536);
    assert_eq!(vertex_count(&state(0, 0, 0, 0)), 1);
    assert_eq!(leaf_vertex_count(&BranchOutcome::Leaves { quads: 2 }), 8);
    assert_eq!(leaf_vertex_count(&BranchOutcome::Leaves { quads: 1 }), 4);
    assert_eq!(leaf_vertex_count(&BranchOutcome::Continue), 0);
    assert_eq!(leaf_vertex_count(&BranchOutcome::Children { count: 9 }), 0);
}
