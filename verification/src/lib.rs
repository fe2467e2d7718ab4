use vstd::prelude::*;

pub mod autostart;
pub mod content;
pub mod export;
pub mod history;
pub mod icon;
pub mod monitor;
pub mod plan;
pub mod startup;
pub mod store;
pub mod text;
pub mod view;
