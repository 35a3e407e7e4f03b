//! The word lists about animals, materials and moods alone, under their
//! earlier entry point.
use vstd::prelude::*;

use crate::data::{dataset_entries, gen_switch, lemma_datasets_well_formed, not_found_text};
use crate::text::text_equals;

verus! {

/// The entries of the list named `key` among the animal, material and mood
/// lists; the top-level domains and television series are not among them.
pub open spec fn corpora_entries(key: Seq<char>) -> Option<Seq<Seq<char>>> {
    if key == "tlds"@ || key == "tvshow"@ {
        None
    } else {
        dataset_entries(key)
    }
}

/// A word drawn uniformly from the list named `name`; for a name that no
/// list here has, the text "Error: dataset not found".
pub fn gen_corpora_switch(name: String) -> (r: String)
    ensures
        match corpora_entries(name@) {
            Some(e) => e.contains(r@) && r@.len() > 0,
            None => r@ == not_found_text(),
        },
{
    proof {
        lemma_datasets_well_formed(name@);
    }
    if text_equals(name.as_str(), "tlds") || text_equals(name.as_str(), "tvshow") {
        String::from_str("Error: dataset not found")
    } else {
        gen_switch(name)
    }
}

} // verus!
