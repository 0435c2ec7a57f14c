//! Menu, input and status logic of a terminal front end for managing an
//! EasyTier network: navigation between pages, the text shown on each page,
//! the messages that follow each command, and the small text algorithms they
//! rest on.

pub mod behaviour;
pub mod install;
pub mod laws;
pub mod model;
pub mod random;
pub mod screen;
pub mod state;
pub mod text;
