//! Branching skeleton and mesh layout of procedurally generated trees.
//!
//! The crate decides everything about a tree mesh that is a matter of
//! counting: which branches exist, how they hang together, how many rings and
//! vertices each one has, where every vertex sits on its ring, which triangles
//! join them, and when a mesh outgrows its index type. Coordinates are not
//! computed here. Every vertex is described by where it comes from, and a host
//! evaluates those descriptions with its own vector arithmetic and its own
//! source of random numbers.
//!
//! [`meshgen::generate_tree`] builds a tree from [`settings::TreeSettings`].
//! What it returns is stated in [`growth`], which says which branches a tree
//! has, and in [`layout`], which says where their vertices and triangles lie.
//! [`laws`] and [`lineage`] hold what follows for every tree, [`lookup`] finds
//! the vertices of a branch, [`shares`] gives the proportions of a branch as
//! whole numbers, and [`draws`] says when the host draws its random numbers.

pub mod enums;
pub mod errors;
pub mod settings;
pub mod mesh;
pub mod layout;
pub mod growth;
pub mod emit;
pub mod meshgen;
pub mod shares;
pub mod lookup;
pub mod laws;
pub mod lineage;
pub mod draws;
