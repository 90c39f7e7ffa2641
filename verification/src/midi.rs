pub mod components;
pub mod events;
pub mod systems;
