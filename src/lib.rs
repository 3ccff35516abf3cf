//! A Gopher front end for a headless CMS: request parsing, menu and document
//! rendering, and the per-connection decision logic.
pub mod content;
pub mod document;
pub mod handler;
pub mod menu;
pub mod selector;
pub mod text;
