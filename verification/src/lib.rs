use vstd::prelude::*;

pub mod checks;
pub mod classes;
pub mod items;
pub mod key_order;
pub mod driver;
pub mod draw_laws;
pub mod error;
pub mod frame;
pub mod meta;
pub mod model;
pub mod physics;
pub mod pose;
pub mod post;
pub mod refs;
pub mod render;
pub mod schema;
pub mod types;
pub mod validate;
pub mod version;
pub mod views;
