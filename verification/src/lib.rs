pub mod biomes;
pub mod events;
pub mod layers;
pub mod prelude;
