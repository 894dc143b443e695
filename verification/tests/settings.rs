use procedural_tree::enums::{LeafBillboard, TreeType};
use procedural_tree::errors::IndicesOverflowError;
use procedural_tree::mesh::{narrow_indices, DebugColor, IndexWidth};
use procedural_tree::settings::{
    BranchForce, BranchParams, BranchRecursionLevel, LeafParams, Scalar, TreeMeshSettings,
    TreeSettings, Vector3,
};

fn number(s: Scalar) -> f32 {
    f32::from_bits(s.to_bits())
}

fn numbers(a: [Scalar; 4]) -> [f32; 4] {
    a.map(number)
}

#[test]
fn scalar_keeps_its_bits() {
    for x in [0.0f32, -0.0, 1.0, 0.1, -7.25, f32::EPSILON, f32::MAX, f32::INFINITY] {
        let s = Scalar::from_bits(x.to_bits());
        assert_eq!(s.to_bits(), x.to_bits());
        assert_eq!(s.bits, x.to_bits());
    }
    let nan = Scalar::from_bits(f32::NAN.to_bits());
    assert!(number(nan).is_nan());
}

#[test]
fn default_branch_force() {
    let force = BranchForce::default();
    assert_eq!(
        force.direction,
        Vector3 {
            x: Scalar::from_bits(0.0f32.to_bits()),
            y: Scalar::from_bits(1.0f32.to_bits()),
            z: Scalar::from_bits(0.0f32.to_bits()),
        }
    );
    assert_eq!(number(force.strength), 0.05);
    assert_eq!(number(force.radius_cutoff), 0.1);
}

#[test]
fn default_branch_params() {
    let branch = BranchParams::default();
    assert_eq!(branch.levels, BranchRecursionLevel::Three);
    assert_eq!(numbers(branch.angle), [0.0, 39.0, 39.0, 59.0]);
    assert_eq!(branch.children, [10, 4, 3]);
    assert_eq!(branch.force, BranchForce::default());
    assert_eq!(numbers(branch.gnarliness), [-0.05, 0.20, 0.16, 0.05]);
    assert_eq!(numbers(branch.length), [4.5, 2.9, 1.5, 0.45]);
    assert_eq!(number(branch.trunk_base_radius), 0.2);
    assert_eq!(numbers(branch.radius_factor), [1.0, 0.5, 0.5, 0.5]);
    assert_eq!(branch.sections, [12, 8, 6, 4]);
    assert_eq!(branch.segments, [8, 6, 4, 3]);
    assert_eq!(numbers(branch.start), [0.0, 0.32, 0.4, 0.0]);
    assert_eq!(numbers(branch.taper), [0.8, 0.72, 0.86, 0.7]);
    assert_eq!(numbers(branch.twist), [0.09, -0.07, 0.0, 0.0]);
}

#[test]
fn default_leaf_params() {
    let leaves = LeafParams::default();
    assert_eq!(leaves.leaf_billboard, LeafBillboard::Double);
    assert_eq!(number(leaves.angle), 60.0);
    assert_eq!(leaves.count, 3);
    assert_eq!(number(leaves.start), 0.25);
    assert_eq!(number(leaves.size), 0.25);
    assert_eq!(number(leaves.size_variance), 0.4);
}

#[test]
fn default_tree_settings() {
    let settings = TreeSettings::default();
    assert_eq!(settings.tree_type, TreeType::Deciduous);
    assert_eq!(settings.branch, BranchParams::default());
    assert_eq!(settings.leaves, LeafParams::default());
    let shared: TreeMeshSettings = TreeMeshSettings::default();
    assert_eq!(shared, settings);
}

#[test]
fn recursion_level_from_number() {
    assert_eq!(BranchRecursionLevel::try_from(0u8), Ok(BranchRecursionLevel::Zero));
    assert_eq!(BranchRecursionLevel::try_from(1u8), Ok(BranchRecursionLevel::One));
    assert_eq!(BranchRecursionLevel::try_from(2u8), Ok(BranchRecursionLevel::Two));
    assert_eq!(BranchRecursionLevel::try_from(3u8), Ok(BranchRecursionLevel::Three));
    assert_eq!(BranchRecursionLevel::try_from(4u8), Err(()));
    assert_eq!(BranchRecursionLevel::try_from(255u8), Err(()));
}

#[test]
fn recursion_level_to_number() {
    let all = [
        BranchRecursionLevel::Zero,
        BranchRecursionLevel::One,
        BranchRecursionLevel::Two,
        BranchRecursionLevel::Three,
    ];
    for (n, level) in all.into_iter().enumerate() {
        assert_eq!(u8::from(level), n as u8);
        assert_eq!(usize::from(level), n);
        assert_eq!(level.index(), n);
        assert_eq!(BranchRecursionLevel::try_from(u8::from(level)), Ok(level));
    }
}

#[test]
fn counts_are_read_from_the_settings() {
    let mut settings = TreeSettings::default();
    assert_eq!(settings.levels(), 3);
    assert_eq!(
        [0, 1, 2, 3].map(|level| settings.section_count(level)),
        [12, 8, 6, 4]
    );
    assert_eq!(
        [0, 1, 2, 3].map(|level| settings.segment_count(level)),
        [8, 6, 4, 3]
    );
    assert_eq!([0, 1, 2, 3, 4, 100].map(|depth| settings.child_count(depth)), [10, 4, 3, 0, 0, 0]);
    settings.branch.sections = [0, 255, 1, 0];
    settings.branch.segments = [1, 0, 0, 255];
    assert_eq!([0, 1, 2, 3].map(|level| settings.section_count(level)), [1, 255, 1, 1]);
    assert_eq!([0, 1, 2, 3].map(|level| settings.segment_count(level)), [1, 1, 1, 255]);
    settings.branch.levels = BranchRecursionLevel::One;
    assert_eq!(settings.levels(), 1);
}

#[test]
fn billboards_have_one_or_two_quads() {
    assert_eq!(LeafBillboard::Single.quads(), 1);
    assert_eq!(LeafBillboard::Double.quads(), 2);
}

#[test]
fn index_widths_count_as_far_as_their_type() {
    assert_eq!(IndexWidth::U16.max_vertices(), u16::MAX as u32);
    assert_eq!(IndexWidth::U32.max_vertices(), u32::MAX);
}

#[test]
fn debug_colors_cycle_with_the_depth() {
    let colors: Vec<DebugColor> = (0..9).map(DebugColor::for_depth).collect();
    assert_eq!(
        colors,
        vec![
            DebugColor::Red,
            DebugColor::Green,
            DebugColor::Blue,
            DebugColor::Cyan,
            DebugColor::Red,
            DebugColor::Green,
            DebugColor::Blue,
            DebugColor::Cyan,
            DebugColor::Red,
        ]
    );
    assert_eq!(DebugColor::Red.rgba(), [1, 0, 0, 1]);
    assert_eq!(DebugColor::Green.rgba(), [0, 1, 0, 1]);
    assert_eq!(DebugColor::Blue.rgba(), [0, 0, 1, 1]);
    assert_eq!(DebugColor::Cyan.rgba(), [0, 1, 1, 1]);
}

#[test]
fn overflow_error_says_what_to_do() {
    let text = IndicesOverflowError.message();
    assert_eq!(
        text,
        "Indices overflow in mesh generation: Please reduce amount of levels, sections, segments or leaves or use 32 bit indices."
    );
}

#[test]
fn indices_are_narrowed_where_they_fit() {
    assert_eq!(narrow_indices(&vec![0, 1, 65535, 7]), Some(vec![0u16, 1, 65535, 7]));
    assert_eq!(narrow_indices(&vec![0, 65536, 7]), None);
    assert_eq!(narrow_indices(&vec![u32::MAX]), None);
    assert_eq!(narrow_indices(&Vec::new()), Some(Vec::new()));
}
