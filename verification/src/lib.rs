//! The decisions of a small multi-window desktop shell: which window a
//! command opens, focuses or closes, and what a tray click sets off.

pub mod action;
pub mod command;
pub mod label;
pub mod lifecycle;
pub mod registry;
pub mod window;
