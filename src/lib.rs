//! Turtle interpretation of L-system command streams: a verified interpreter
//! that turns commands into a tree of coordinate frames and the instances
//! placed in them, and the bookkeeping of one model per production iteration.
pub mod command;
pub mod material;
pub mod turtle;
pub mod laws;
pub mod manager;
pub mod input;
pub mod event;
pub mod window;
pub mod web;
