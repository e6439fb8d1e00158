//! Deterministic creature appearance: seeded names and head sprites,
//! palette tables read from an atlas image, and recoloured sprite sheets.
//!
//! - `stream`: the seeded source of draws.
//! - `names`: names made of syllables from fixed lists.
//! - `head`: the head sprite, from template to pixels.
//! - `color`: colors, palettes and the four marker colors.
//! - `palettes`: the table of palettes and its atlas.
//! - `indexed`: recoloured sprites, kept for each registered source.
//! - `greacher`: a creature, its seed and what was generated from it.
//! - `animation`: the frame of its sheet that a body shows.
//! - `image`: decoded images and their load status.

pub mod animation;
pub mod color;
pub mod greacher;
pub mod head;
pub mod image;
pub mod indexed;
pub mod names;
pub mod palettes;
pub mod stream;
