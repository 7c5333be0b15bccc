//! Converts Minecraft schematics into Quake 2 (Valve 220) brush maps.
//!
//! The pipeline is: parse a schematic into a [`parser::VoxelMap`], drop
//! invisible and hidden blocks with [`filter::filter_blocks`], merge the
//! remaining blocks into brushes with [`optimizer::optimize_mesh`], and render
//! the brushes as `.map` text with [`exporter::render_map`].

pub mod text;
pub mod model;
pub mod block_shapes;
pub mod filter;
pub mod optimizer;
pub mod blockstate;
pub mod parser;
pub mod exporter;
pub mod coverage;
