pub mod get;
pub mod model;
pub mod post;
pub mod put;
