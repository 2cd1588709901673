//! Roll ranges of item identifications, and the id string that packs an
//! item's name, rolls, powders and reroll count into one line.
use vstd::prelude::*;

pub mod codec;
pub mod items;
pub mod render;
pub mod rolls;
pub mod select;
pub mod text;

verus! {

} // verus!
