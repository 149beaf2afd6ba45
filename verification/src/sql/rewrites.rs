//! Rewrites of statement trees that keep their meaning.

pub mod constant_folding;
