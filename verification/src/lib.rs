pub mod bullet;
pub mod entities;
pub mod explosion;
pub mod game;
pub mod helpers;
pub mod rng;
pub mod ship;
