//! The statement tree, its builders and its rendering to text.

pub mod ast;
pub mod convert;
pub mod execution_plan;
pub mod helpers;
pub mod locality;
pub mod model;
pub mod render;
pub mod rewrites;
pub mod string;
