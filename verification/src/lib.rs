pub mod event;
pub mod hash;
pub mod input;
pub mod launcher;
pub mod ui;
pub mod update;
