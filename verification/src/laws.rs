//! What holds of the panel as a whole.

pub mod cores;
pub mod delays;
pub mod feeds;
pub mod keys;
pub mod lines;
pub mod places;
pub mod reach;
pub mod settings;
pub mod shown;
pub mod steps;
pub mod views;
pub mod words;
