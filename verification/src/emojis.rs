//! The dataset as loaded at startup: an ordered collection of records, fixed
//! for the run. Reading the cache file, refreshing it over the network and
//! decoding its entries happen outside the library, which receives the
//! finished records.

use crate::emoji::Emoji;
use vstd::prelude::*;

verus! {

/// The full dataset of a run, in its loaded order.
pub struct Emojis {
    pub gitmojis: Vec<Emoji>,
}

impl Emojis {
    /// Wraps loaded records as the run's dataset.
    pub fn new(gitmojis: Vec<Emoji>) -> (r: Self)
        ensures
            r.gitmojis@ == gitmojis@,
    {
        Emojis { gitmojis }
    }
}

} // verus!
