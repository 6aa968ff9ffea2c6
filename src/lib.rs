//! Classification of terminal key events into vim-style key tokens, and the
//! accumulation of those tokens into a pending key sequence.
use vstd::prelude::*;

pub mod key;
pub mod sequence;
pub mod source;
pub mod consumer;
pub mod pos;

verus! {

} // verus!
