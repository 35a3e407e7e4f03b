//! Word lists about animals, materials, moods and television.
use vstd::prelude::*;

use crate::str_views;
use crate::data::entries_nonempty;

verus! {

/// Dinosaur genera.
pub open spec fn dinosaurs() -> Seq<Seq<char>> {
    seq![
        "Allosaurus"@,
        "Ankylosaurus"@,
        "Apatosaurus"@,
        "Archaeopteryx"@,
        "Brachiosaurus"@,
        "Carnotaurus"@,
        "Compsognathus"@,
        "Deinonychus"@,
        "Diplodocus"@,
        "Gallimimus"@,
        "Iguanodon"@,
        "Maiasaura"@,
        "Pachycephalosaurus"@,
        "Parasaurolophus"@,
        "Spinosaurus"@,
        "Stegosaurus"@,
        "Styracosaurus"@,
        "Triceratops"@,
        "Tyrannosaurus"@,
        "Velociraptor"@,
    ]
}

/// The entries of `dinosaurs`, as string slices.
pub fn dinosaur_list() -> (v: Vec<&'static str>)
    ensures
        str_views(v@) == dinosaurs(),
        v.len() == dinosaurs().len(),
{
    let v = vec![
        "Allosaurus",
        "Ankylosaurus",
        "Apatosaurus",
        "Archaeopteryx",
        "Brachiosaurus",
        "Carnotaurus",
        "Compsognathus",
        "Deinonychus",
        "Diplodocus",
        "Gallimimus",
        "Iguanodon",
        "Maiasaura",
        "Pachycephalosaurus",
        "Parasaurolophus",
        "Spinosaurus",
        "Stegosaurus",
        "Styracosaurus",
        "Triceratops",
        "Tyrannosaurus",
        "Velociraptor",
    ];
    assert(str_views(v@) =~= dinosaurs());
    v
}

/// No entry of the list is empty.
pub proof fn lemma_dinosaurs_entries_nonempty()
    ensures
        entries_nonempty(dinosaurs()),
{
        reveal_strlit("Allosaurus");
        reveal_strlit("Ankylosaurus");
        reveal_strlit("Apatosaurus");
        reveal_strlit("Archaeopteryx");
        reveal_strlit("Brachiosaurus");
        reveal_strlit("Carnotaurus");
        reveal_strlit("Compsognathus");
        reveal_strlit("Deinonychus");
        reveal_strlit("Diplodocus");
        reveal_strlit("Gallimimus");
        reveal_strlit("Iguanodon");
        reveal_strlit("Maiasaura");
        reveal_strlit("Pachycephalosaurus");
        reveal_strlit("Parasaurolophus");
        reveal_strlit("Spinosaurus");
        reveal_strlit("Stegosaurus");
        reveal_strlit("Styracosaurus");
        reveal_strlit("Triceratops");
        reveal_strlit("Tyrannosaurus");
        reveal_strlit("Velociraptor");
    assert(entries_nonempty(dinosaurs()));
}

/// Cat breeds.
pub open spec fn cats() -> Seq<Seq<char>> {
    seq![
        "Abyssinian"@,
        "American Shorthair"@,
        "Balinese"@,
        "Bengal"@,
        "Birman"@,
        "Bombay"@,
        "British Shorthair"@,
        "Burmese"@,
        "Chartreux"@,
        "Cornish Rex"@,
        "Devon Rex"@,
        "Egyptian Mau"@,
        "Havana Brown"@,
        "Maine Coon"@,
        "Manx"@,
        "Norwegian Forest Cat"@,
        "Persian"@,
        "Ragdoll"@,
        "Russian Blue"@,
        "Siamese"@,
        "Sphynx"@,
        "Turkish Angora"@,
    ]
}

/// The entries of `cats`, as string slices.
pub fn cat_list() -> (v: Vec<&'static str>)
    ensures
        str_views(v@) == cats(),
        v.len() == cats().len(),
{
    let v = vec![
        "Abyssinian",
        "American Shorthair",
        "Balinese",
        "Bengal",
        "Birman",
        "Bombay",
        "British Shorthair",
        "Burmese",
        "Chartreux",
        "Cornish Rex",
        "Devon Rex",
        "Egyptian Mau",
        "Havana Brown",
        "Maine Coon",
        "Manx",
        "Norwegian Forest Cat",
        "Persian",
        "Ragdoll",
        "Russian Blue",
        "Siamese",
        "Sphynx",
        "Turkish Angora",
    ];
    assert(str_views(v@) =~= cats());
    v
}

/// No entry of the list is empty.
pub proof fn lemma_cats_entries_nonempty()
    ensures
        entries_nonempty(cats()),
{
        reveal_strlit("Abyssinian");
        reveal_strlit("American Shorthair");
        reveal_strlit("Balinese");
        reveal_strlit("Bengal");
        reveal_strlit("Birman");
        reveal_strlit("Bombay");
        reveal_strlit("British Shorthair");
        reveal_strlit("Burmese");
        reveal_strlit("Chartreux");
        reveal_strlit("Cornish Rex");
        reveal_strlit("Devon Rex");
        reveal_strlit("Egyptian Mau");
        reveal_strlit("Havana Brown");
        reveal_strlit("Maine Coon");
        reveal_strlit("Manx");
        reveal_strlit("Norwegian Forest Cat");
        reveal_strlit("Persian");
        reveal_strlit("Ragdoll");
        reveal_strlit("Russian Blue");
        reveal_strlit("Siamese");
        reveal_strlit("Sphynx");
        reveal_strlit("Turkish Angora");
    assert(entries_nonempty(cats()));
}

/// Dog breeds.
pub open spec fn dogs() -> Seq<Seq<char>> {
    seq![
        "Akita"@,
        "Basset Hound"@,
        "Beagle"@,
        "Bernese Mountain Dog"@,
        "Border Collie"@,
        "Boxer"@,
        "Bulldog"@,
        "Chihuahua"@,
        "Dachshund"@,
        "Dalmatian"@,
        "Doberman Pinscher"@,
        "German Shepherd"@,
        "Golden Retriever"@,
        "Great Dane"@,
        "Greyhound"@,
        "Labrador Retriever"@,
        "Newfoundland"@,
        "Poodle"@,
        "Pug"@,
        "Rottweiler"@,
        "Saint Bernard"@,
        "Siberian Husky"@,
    ]
}

/// The entries of `dogs`, as string slices.
pub fn dog_list() -> (v: Vec<&'static str>)
    ensures
        str_views(v@) == dogs(),
        v.len() == dogs().len(),
{
    let v = vec![
        "Akita",
        "Basset Hound",
        "Beagle",
        "Bernese Mountain Dog",
        "Border Collie",
        "Boxer",
        "Bulldog",
        "Chihuahua",
        "Dachshund",
        "Dalmatian",
        "Doberman Pinscher",
        "German Shepherd",
        "Golden Retriever",
        "Great Dane",
        "Greyhound",
        "Labrador Retriever",
        "Newfoundland",
        "Poodle",
        "Pug",
        "Rottweiler",
        "Saint Bernard",
        "Siberian Husky",
    ];
    assert(str_views(v@) =~= dogs());
    v
}

/// No entry of the list is empty.
pub proof fn lemma_dogs_entries_nonempty()
    ensures
        entries_nonempty(dogs()),
{
        reveal_strlit("Akita");
        reveal_strlit("Basset Hound");
        reveal_strlit("Beagle");
        reveal_strlit("Bernese Mountain Dog");
        reveal_strlit("Border Collie");
        reveal_strlit("Boxer");
        reveal_strlit("Bulldog");
        reveal_strlit("Chihuahua");
        reveal_strlit("Dachshund");
        reveal_strlit("Dalmatian");
        reveal_strlit("Doberman Pinscher");
        reveal_strlit("German Shepherd");
        reveal_strlit("Golden Retriever");
        reveal_strlit("Great Dane");
        reveal_strlit("Greyhound");
        reveal_strlit("Labrador Retriever");
        reveal_strlit("Newfoundland");
        reveal_strlit("Poodle");
        reveal_strlit("Pug");
        reveal_strlit("Rottweiler");
        reveal_strlit("Saint Bernard");
        reveal_strlit("Siberian Husky");
    assert(entries_nonempty(dogs()));
}

/// Horse breeds.
pub open spec fn horses() -> Seq<Seq<char>> {
    seq![
        "Akhal-Teke"@,
        "American Quarter Horse"@,
        "Andalusian"@,
        "Appaloosa"@,
        "Arabian"@,
        "Belgian"@,
        "Clydesdale"@,
        "Connemara"@,
        "Friesian"@,
        "Haflinger"@,
        "Hanoverian"@,
        "Icelandic Horse"@,
        "Lipizzaner"@,
        "Morgan"@,
        "Mustang"@,
        "Paint"@,
        "Percheron"@,
        "Shetland Pony"@,
        "Shire"@,
        "Thoroughbred"@,
        "Trakehner"@,
    ]
}

/// The entries of `horses`, as string slices.
pub fn horse_list() -> (v: Vec<&'static str>)
    ensures
        str_views(v@) == horses(),
        v.len() == horses().len(),
{
    let v = vec![
        "Akhal-Teke",
        "American Quarter Horse",
        "Andalusian",
        "Appaloosa",
        "Arabian",
        "Belgian",
        "Clydesdale",
        "Connemara",
        "Friesian",
        "Haflinger",
        "Hanoverian",
        "Icelandic Horse",
        "Lipizzaner",
        "Morgan",
        "Mustang",
        "Paint",
        "Percheron",
        "Shetland Pony",
        "Shire",
        "Thoroughbred",
        "Trakehner",
    ];
    assert(str_views(v@) =~= horses());
    v
}

/// No entry of the list is empty.
pub proof fn lemma_horses_entries_nonempty()
    ensures
        entries_nonempty(horses()),
{
        reveal_strlit("Akhal-Teke");
        reveal_strlit("American Quarter Horse");
        reveal_strlit("Andalusian");
        reveal_strlit("Appaloosa");
        reveal_strlit("Arabian");
        reveal_strlit("Belgian");
        reveal_strlit("Clydesdale");
        reveal_strlit("Connemara");
        reveal_strlit("Friesian");
        reveal_strlit("Haflinger");
        reveal_strlit("Hanoverian");
        reveal_strlit("Icelandic Horse");
        reveal_strlit("Lipizzaner");
        reveal_strlit("Morgan");
        reveal_strlit("Mustang");
        reveal_strlit("Paint");
        reveal_strlit("Percheron");
        reveal_strlit("Shetland Pony");
        reveal_strlit("Shire");
        reveal_strlit("Thoroughbred");
        reveal_strlit("Trakehner");
    assert(entries_nonempty(horses()));
}

/// Fabrics.
pub open spec fn fabrics() -> Seq<Seq<char>> {
    seq![
        "batiste"@,
        "brocade"@,
        "calico"@,
        "canvas"@,
        "chambray"@,
        "chiffon"@,
        "corduroy"@,
        "cotton"@,
        "crepe"@,
        "denim"@,
        "flannel"@,
        "gabardine"@,
        "gingham"@,
        "jersey"@,
        "linen"@,
        "muslin"@,
        "organza"@,
        "poplin"@,
        "satin"@,
        "seersucker"@,
        "silk"@,
        "taffeta"@,
        "tweed"@,
        "velvet"@,
        "wool"@,
    ]
}

/// The entries of `fabrics`, as string slices.
pub fn fabric_list() -> (v: Vec<&'static str>)
    ensures
        str_views(v@) == fabrics(),
        v.len() == fabrics().len(),
{
    let v = vec![
        "batiste",
        "brocade",
        "calico",
        "canvas",
        "chambray",
        "chiffon",
        "corduroy",
        "cotton",
        "crepe",
        "denim",
        "flannel",
        "gabardine",
        "gingham",
        "jersey",
        "linen",
        "muslin",
        "organza",
        "poplin",
        "satin",
        "seersucker",
        "silk",
        "taffeta",
        "tweed",
        "velvet",
        "wool",
    ];
    assert(str_views(v@) =~= fabrics());
    v
}

/// No entry of the list is empty.
pub proof fn lemma_fabrics_entries_nonempty()
    ensures
        entries_nonempty(fabrics()),
{
        reveal_strlit("batiste");
        reveal_strlit("brocade");
        reveal_strlit("calico");
        reveal_strlit("canvas");
        reveal_strlit("chambray");
        reveal_strlit("chiffon");
        reveal_strlit("corduroy");
        reveal_strlit("cotton");
        reveal_strlit("crepe");
        reveal_strlit("denim");
        reveal_strlit("flannel");
        reveal_strlit("gabardine");
        reveal_strlit("gingham");
        reveal_strlit("jersey");
        reveal_strlit("linen");
        reveal_strlit("muslin");
        reveal_strlit("organza");
        reveal_strlit("poplin");
        reveal_strlit("satin");
        reveal_strlit("seersucker");
        reveal_strlit("silk");
        reveal_strlit("taffeta");
        reveal_strlit("tweed");
        reveal_strlit("velvet");
        reveal_strlit("wool");
    assert(entries_nonempty(fabrics()));
}

/// Gemstones.
pub open spec fn gemstones() -> Seq<Seq<char>> {
    seq![
        "agate"@,
        "alexandrite"@,
        "amber"@,
        "amethyst"@,
        "aquamarine"@,
        "beryl"@,
        "bloodstone"@,
        "carnelian"@,
        "citrine"@,
        "diamond"@,
        "emerald"@,
        "garnet"@,
        "jade"@,
        "jasper"@,
        "lapis lazuli"@,
        "malachite"@,
        "moonstone"@,
        "onyx"@,
        "opal"@,
        "pearl"@,
        "peridot"@,
        "ruby"@,
        "sapphire"@,
        "spinel"@,
        "tanzanite"@,
        "topaz"@,
        "tourmaline"@,
        "turquoise"@,
        "zircon"@,
    ]
}

/// The entries of `gemstones`, as string slices.
pub fn gemstone_list() -> (v: Vec<&'static str>)
    ensures
        str_views(v@) == gemstones(),
        v.len() == gemstones().len(),
{
    let v = vec![
        "agate",
        "alexandrite",
        "amber",
        "amethyst",
        "aquamarine",
        "beryl",
        "bloodstone",
        "carnelian",
        "citrine",
        "diamond",
        "emerald",
        "garnet",
        "jade",
        "jasper",
        "lapis lazuli",
        "malachite",
        "moonstone",
        "onyx",
        "opal",
        "pearl",
        "peridot",
        "ruby",
        "sapphire",
        "spinel",
        "tanzanite",
        "topaz",
        "tourmaline",
        "turquoise",
        "zircon",
    ];
    assert(str_views(v@) =~= gemstones());
    v
}

/// No entry of the list is empty.
pub proof fn lemma_gemstones_entries_nonempty()
    ensures
        entries_nonempty(gemstones()),
{
        reveal_strlit("agate");
        reveal_strlit("alexandrite");
        reveal_strlit("amber");
        reveal_strlit("amethyst");
        reveal_strlit("aquamarine");
        reveal_strlit("beryl");
        reveal_strlit("bloodstone");
        reveal_strlit("carnelian");
        reveal_strlit("citrine");
        reveal_strlit("diamond");
        reveal_strlit("emerald");
        reveal_strlit("garnet");
        reveal_strlit("jade");
        reveal_strlit("jasper");
        reveal_strlit("lapis lazuli");
        reveal_strlit("malachite");
        reveal_strlit("moonstone");
        reveal_strlit("onyx");
        reveal_strlit("opal");
        reveal_strlit("pearl");
        reveal_strlit("peridot");
        reveal_strlit("ruby");
        reveal_strlit("sapphire");
        reveal_strlit("spinel");
        reveal_strlit("tanzanite");
        reveal_strlit("topaz");
        reveal_strlit("tourmaline");
        reveal_strlit("turquoise");
        reveal_strlit("zircon");
    assert(entries_nonempty(gemstones()));
}

/// Moods.
pub open spec fn moods() -> Seq<Seq<char>> {
    seq![
        "amused"@,
        "angry"@,
        "anxious"@,
        "bored"@,
        "calm"@,
        "cheerful"@,
        "confident"@,
        "content"@,
        "curious"@,
        "determined"@,
        "excited"@,
        "gloomy"@,
        "grateful"@,
        "grumpy"@,
        "happy"@,
        "hopeful"@,
        "irritated"@,
        "lonely"@,
        "melancholy"@,
        "nervous"@,
        "optimistic"@,
        "relaxed"@,
        "restless"@,
        "sad"@,
        "thoughtful"@,
        "tired"@,
    ]
}

/// The entries of `moods`, as string slices.
pub fn mood_list() -> (v: Vec<&'static str>)
    ensures
        str_views(v@) == moods(),
        v.len() == moods().len(),
{
    let v = vec![
        "amused",
        "angry",
        "anxious",
        "bored",
        "calm",
        "cheerful",
        "confident",
        "content",
        "curious",
        "determined",
        "excited",
        "gloomy",
        "grateful",
        "grumpy",
        "happy",
        "hopeful",
        "irritated",
        "lonely",
        "melancholy",
        "nervous",
        "optimistic",
        "relaxed",
        "restless",
        "sad",
        "thoughtful",
        "tired",
    ];
    assert(str_views(v@) =~= moods());
    v
}

/// No entry of the list is empty.
pub proof fn lemma_moods_entries_nonempty()
    ensures
        entries_nonempty(moods()),
{
        reveal_strlit("amused");
        reveal_strlit("angry");
        reveal_strlit("anxious");
        reveal_strlit("bored");
        reveal_strlit("calm");
        reveal_strlit("cheerful");
        reveal_strlit("confident");
        reveal_strlit("content");
        reveal_strlit("curious");
        reveal_strlit("determined");
        reveal_strlit("excited");
        reveal_strlit("gloomy");
        reveal_strlit("grateful");
        reveal_strlit("grumpy");
        reveal_strlit("happy");
        reveal_strlit("hopeful");
        reveal_strlit("irritated");
        reveal_strlit("lonely");
        reveal_strlit("melancholy");
        reveal_strlit("nervous");
        reveal_strlit("optimistic");
        reveal_strlit("relaxed");
        reveal_strlit("restless");
        reveal_strlit("sad");
        reveal_strlit("thoughtful");
        reveal_strlit("tired");
    assert(entries_nonempty(moods()));
}

/// Television series.
pub open spec fn tv_shows() -> Seq<Seq<char>> {
    seq![
        "Breaking Bad"@,
        "Cheers"@,
        "Doctor Who"@,
        "Friends"@,
        "Game of Thrones"@,
        "Lost"@,
        "Mad Men"@,
        "M*A*S*H"@,
        "Seinfeld"@,
        "Star Trek"@,
        "The Office"@,
        "The Simpsons"@,
        "The Sopranos"@,
        "The West Wing"@,
        "The Wire"@,
        "The X-Files"@,
        "Twin Peaks"@,
    ]
}

/// The entries of `tv_shows`, as string slices.
pub fn tv_show_list() -> (v: Vec<&'static str>)
    ensures
        str_views(v@) == tv_shows(),
        v.len() == tv_shows().len(),
{
    let v = vec![
        "Breaking Bad",
        "Cheers",
        "Doctor Who",
        "Friends",
        "Game of Thrones",
        "Lost",
        "Mad Men",
        "M*A*S*H",
        "Seinfeld",
        "Star Trek",
        "The Office",
        "The Simpsons",
        "The Sopranos",
        "The West Wing",
        "The Wire",
        "The X-Files",
        "Twin Peaks",
    ];
    assert(str_views(v@) =~= tv_shows());
    v
}

/// No entry of the list is empty.
pub proof fn lemma_tv_shows_entries_nonempty()
    ensures
        entries_nonempty(tv_shows()),
{
        reveal_strlit("Breaking Bad");
        reveal_strlit("Cheers");
        reveal_strlit("Doctor Who");
        reveal_strlit("Friends");
        reveal_strlit("Game of Thrones");
        reveal_strlit("Lost");
        reveal_strlit("Mad Men");
        reveal_strlit("M*A*S*H");
        reveal_strlit("Seinfeld");
        reveal_strlit("Star Trek");
        reveal_strlit("The Office");
        reveal_strlit("The Simpsons");
        reveal_strlit("The Sopranos");
        reveal_strlit("The West Wing");
        reveal_strlit("The Wire");
        reveal_strlit("The X-Files");
        reveal_strlit("Twin Peaks");
    assert(entries_nonempty(tv_shows()));
}

} // verus!
