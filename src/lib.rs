//! Data model behind a lazily populated package browser: a tree of
//! packages, their versions and the platforms of each version, filled in
//! from a catalog as the user expands rows, with a substring filter over the
//! top-level rows.
pub mod expansion;
pub mod filter;
pub mod sites;
pub mod state;
pub mod tree;
