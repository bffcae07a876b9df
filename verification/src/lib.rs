//! Rules of a pet-training game engine: Bluetooth LE devices and their
//! virtual test network, the event bridge with the page, the critter
//! catalog, sprite sheets, and scoring.

pub mod bluetooth;
pub mod catalog;
pub mod critters;
pub mod engine;
pub mod events;
pub mod game;
pub mod ieee;
pub mod keyed;
pub mod sprites;
pub mod text;
pub mod zephyr;
