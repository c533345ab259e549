//! Decision logic of the overlay controller: settings model, trigger bot state
//! machine, feature workers, ESP helpers and text utilities, each with a
//! contract proved by Verus.

pub mod text;
pub mod settings;
pub mod trigger;
pub mod esp;
pub mod workers;
pub mod bomb;
pub mod crosshair;
pub mod cloud;
pub mod application;
pub mod grenade;
