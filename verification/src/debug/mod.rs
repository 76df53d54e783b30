pub mod tile_viewer;
