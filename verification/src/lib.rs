//! Interaction core of an immediate-mode GUI toolkit.
//!
//! The crate turns raw per-frame input (pointer position, button level
//! states, pressed keys, entered text) into discrete widget states and value
//! mutations for three direct-manipulation controls: a multi-point envelope
//! editor, a 2D value pad and a text field.  Rendering, font metrics and
//! window polling are external collaborators; the core works on plain pixel
//! and value units (`i64`) and exact rational proportions, so that every
//! per-frame computation is total and verified.
//!
//! Button transitions are inferred by comparing the sampled level state
//! against the state persisted from the previous frame; a press-and-release
//! that falls entirely between two samples is not observed.  This is a known
//! limitation of the level-sampling design, kept deliberately.

pub mod mapping;
pub mod geometry;
pub mod input;
pub mod xy_pad;
pub mod envelope_editor;
pub mod text_box;
pub mod store;
