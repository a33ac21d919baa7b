use vstd::prelude::*;

pub mod digest;
pub mod ini;
pub mod mister;
pub mod num;
pub mod paths;
pub mod steamdeck;
pub mod text;
pub mod windows;

verus! {

} // verus!
