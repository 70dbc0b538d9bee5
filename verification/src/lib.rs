pub mod math;
pub mod trig;
pub mod tuple;
pub mod color;
pub mod matrix;
pub mod transformation;
pub mod pattern;
pub mod material;
pub mod ray;
pub mod shape;
pub mod sphere;
pub mod plane;
pub mod cube;
pub mod lighting;
pub mod world;
pub mod canvas;
pub mod camera;
pub mod test;
pub mod laws;
