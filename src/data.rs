//! Bundled word lists, looked up by name, and the table of primes.
use vstd::prelude::*;

pub mod corpora;
pub mod primes;
pub mod tlds;

use crate::data::corpora::{
    cat_list, cats, dinosaur_list, dinosaurs, dog_list, dogs, fabric_list, fabrics, gemstone_list,
    gemstones, horse_list, horses, mood_list, moods, tv_show_list, tv_shows,
};
use crate::data::primes::{prime_list, prime_table};
use crate::data::tlds::{tld_list, tlds};
use crate::random::random_index;
use crate::str_views;
use crate::text::text_equals;

verus! {

/// Every entry of the list has at least one character.
pub open spec fn entries_nonempty(s: Seq<Seq<char>>) -> bool {
    forall|i: int| 0 <= i < s.len() ==> #[trigger] s[i].len() > 0
}

/// The entries of the word list named `key`, if there is one.
pub open spec fn dataset_entries(key: Seq<char>) -> Option<Seq<Seq<char>>> {
    if key == "dinosaur"@ {
        Some(dinosaurs())
    } else if key == "cat"@ {
        Some(cats())
    } else if key == "dog"@ {
        Some(dogs())
    } else if key == "horse"@ {
        Some(horses())
    } else if key == "fabric"@ {
        Some(fabrics())
    } else if key == "gemstone"@ {
        Some(gemstones())
    } else if key == "mood"@ {
        Some(moods())
    } else if key == "tlds"@ {
        Some(tlds())
    } else if key == "tvshow"@ {
        Some(tv_shows())
    } else {
        None
    }
}

/// The text returned in place of a word when no list has the requested name.
pub open spec fn not_found_text() -> Seq<char> {
    "Error: dataset not found"@
}

/// Every bundled word list has at least one entry, and no entry is empty.
pub proof fn lemma_datasets_well_formed(key: Seq<char>)
    ensures
        dataset_entries(key) matches Some(e) ==> e.len() > 0 && entries_nonempty(e),
{
    crate::data::corpora::lemma_dinosaurs_entries_nonempty();
    crate::data::corpora::lemma_cats_entries_nonempty();
    crate::data::corpora::lemma_dogs_entries_nonempty();
    crate::data::corpora::lemma_horses_entries_nonempty();
    crate::data::corpora::lemma_fabrics_entries_nonempty();
    crate::data::corpora::lemma_gemstones_entries_nonempty();
    crate::data::corpora::lemma_moods_entries_nonempty();
    crate::data::corpora::lemma_tv_shows_entries_nonempty();
    crate::data::tlds::lemma_tlds_entries_nonempty();
}

/// The word list named `key`.
fn get_dataset(key: &str) -> (r: Option<Vec<&'static str>>)
    ensures
        match r {
            Some(v) => dataset_entries(key@) == Some(str_views(v@)) && v.len() == str_views(v@).len(),
            None => dataset_entries(key@) is None,
        },
{
    if text_equals(key, "dinosaur") {
        Some(dinosaur_list())
    } else if text_equals(key, "cat") {
        Some(cat_list())
    } else if text_equals(key, "dog") {
        Some(dog_list())
    } else if text_equals(key, "horse") {
        Some(horse_list())
    } else if text_equals(key, "fabric") {
        Some(fabric_list())
    } else if text_equals(key, "gemstone") {
        Some(gemstone_list())
    } else if text_equals(key, "mood") {
        Some(mood_list())
    } else if text_equals(key, "tlds") {
        Some(tld_list())
    } else if text_equals(key, "tvshow") {
        Some(tv_show_list())
    } else {
        None
    }
}

/// A word drawn uniformly from the list named `name`; for a name that no
/// list has, the text "Error: dataset not found".
pub fn gen_switch(name: String) -> (r: String)
    ensures
        match dataset_entries(name@) {
            Some(e) => e.contains(r@) && r@.len() > 0,
            None => r@ == not_found_text(),
        },
{
    proof {
        lemma_datasets_well_formed(name@);
    }
    match get_dataset(name.as_str()) {
        Some(words) => crate::pick_random(&words),
        None => String::from_str("Error: dataset not found"),
    }
}

/// The same as `gen_switch`, under its earlier name.
pub fn gen_corpora_switch(name: String) -> (r: String)
    ensures
        match dataset_entries(name@) {
            Some(e) => e.contains(r@) && r@.len() > 0,
            None => r@ == not_found_text(),
        },
{
    gen_switch(name)
}

/// One of the first thousand primes, drawn uniformly.
pub fn gen_prime() -> (r: usize)
    ensures
        prime_table().contains(r),
{
    let index = random_index(prime_list().len());
    prime_at(index)
}

/// The prime at `index` in the table of the first thousand primes.
pub fn prime_at(index: usize) -> (r: usize)
    requires
        index < prime_table().len(),
    ensures
        r == prime_table()[index as int],
{
    let primes = prime_list();
    primes[index]
}

} // verus!
