//! Composite raster maps of a country's regions: the region adjacency graph, the project
//! canvas, the compositing of thematic layers onto it, and the cutting of the rendered
//! images into coordinate-named tiles.
pub mod canvas;
pub mod catalog;
pub mod compositing;
pub mod config;
pub mod geometry;
pub mod layers;
pub mod regions;
pub mod satellite;
pub mod staging;
pub mod text;
pub mod tiles;
pub mod toolkit;
pub mod types;
