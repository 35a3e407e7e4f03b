//! Top-level domains.
use vstd::prelude::*;

use crate::str_views;
use crate::data::entries_nonempty;

verus! {

/// Generic top-level domains, without the leading dot.
pub open spec fn generic_tlds() -> Seq<Seq<char>> {
    seq![
        "com"@,
        "net"@,
        "org"@,
        "edu"@,
        "gov"@,
        "mil"@,
        "int"@,
        "info"@,
        "biz"@,
        "name"@,
        "pro"@,
        "io"@,
        "dev"@,
        "app"@,
        "email"@,
        "online"@,
        "site"@,
        "tech"@,
        "store"@,
        "blog"@,
        "cloud"@,
    ]
}

/// The entries of `generic_tlds`, as string slices.
pub fn generic_tld_list() -> (v: Vec<&'static str>)
    ensures
        str_views(v@) == generic_tlds(),
        v.len() == generic_tlds().len(),
{
    let v = vec![
        "com",
        "net",
        "org",
        "edu",
        "gov",
        "mil",
        "int",
        "info",
        "biz",
        "name",
        "pro",
        "io",
        "dev",
        "app",
        "email",
        "online",
        "site",
        "tech",
        "store",
        "blog",
        "cloud",
    ];
    assert(str_views(v@) =~= generic_tlds());
    v
}

/// No entry of the list is empty.
pub proof fn lemma_generic_tlds_entries_nonempty()
    ensures
        entries_nonempty(generic_tlds()),
{
        reveal_strlit("com");
        reveal_strlit("net");
        reveal_strlit("org");
        reveal_strlit("edu");
        reveal_strlit("gov");
        reveal_strlit("mil");
        reveal_strlit("int");
        reveal_strlit("info");
        reveal_strlit("biz");
        reveal_strlit("name");
        reveal_strlit("pro");
        reveal_strlit("io");
        reveal_strlit("dev");
        reveal_strlit("app");
        reveal_strlit("email");
        reveal_strlit("online");
        reveal_strlit("site");
        reveal_strlit("tech");
        reveal_strlit("store");
        reveal_strlit("blog");
        reveal_strlit("cloud");
    assert(entries_nonempty(generic_tlds()));
}

/// Country-code top-level domains, without the leading dot.
pub open spec fn country_tlds() -> Seq<Seq<char>> {
    seq![
        "de"@,
        "fr"@,
        "uk"@,
        "us"@,
        "ca"@,
        "au"@,
        "jp"@,
        "cn"@,
        "in"@,
        "br"@,
        "nl"@,
        "se"@,
        "no"@,
        "fi"@,
        "dk"@,
        "ch"@,
        "at"@,
        "be"@,
        "es"@,
        "it"@,
        "pl"@,
        "cz"@,
        "eu"@,
        "nz"@,
        "za"@,
        "mx"@,
        "ar"@,
        "kr"@,
        "ru"@,
    ]
}

/// The entries of `country_tlds`, as string slices.
pub fn country_tld_list() -> (v: Vec<&'static str>)
    ensures
        str_views(v@) == country_tlds(),
        v.len() == country_tlds().len(),
{
    let v = vec![
        "de",
        "fr",
        "uk",
        "us",
        "ca",
        "au",
        "jp",
        "cn",
        "in",
        "br",
        "nl",
        "se",
        "no",
        "fi",
        "dk",
        "ch",
        "at",
        "be",
        "es",
        "it",
        "pl",
        "cz",
        "eu",
        "nz",
        "za",
        "mx",
        "ar",
        "kr",
        "ru",
    ];
    assert(str_views(v@) =~= country_tlds());
    v
}

/// No entry of the list is empty.
pub proof fn lemma_country_tlds_entries_nonempty()
    ensures
        entries_nonempty(country_tlds()),
{
        reveal_strlit("de");
        reveal_strlit("fr");
        reveal_strlit("uk");
        reveal_strlit("us");
        reveal_strlit("ca");
        reveal_strlit("au");
        reveal_strlit("jp");
        reveal_strlit("cn");
        reveal_strlit("in");
        reveal_strlit("br");
        reveal_strlit("nl");
        reveal_strlit("se");
        reveal_strlit("no");
        reveal_strlit("fi");
        reveal_strlit("dk");
        reveal_strlit("ch");
        reveal_strlit("at");
        reveal_strlit("be");
        reveal_strlit("es");
        reveal_strlit("it");
        reveal_strlit("pl");
        reveal_strlit("cz");
        reveal_strlit("eu");
        reveal_strlit("nz");
        reveal_strlit("za");
        reveal_strlit("mx");
        reveal_strlit("ar");
        reveal_strlit("kr");
        reveal_strlit("ru");
    assert(entries_nonempty(country_tlds()));
}

/// Top-level domains, without the leading dot: the generic ones, then the
/// country codes.
pub open spec fn tlds() -> Seq<Seq<char>> {
    generic_tlds() + country_tlds()
}

/// The entries of `tlds`, as string slices.
pub fn tld_list() -> (v: Vec<&'static str>)
    ensures
        str_views(v@) == tlds(),
        v.len() == tlds().len(),
{
    let mut v = generic_tld_list();
    let mut rest = country_tld_list();
    let ghost a = v@;
    let ghost b = rest@;
    v.append(&mut rest);
    assert(str_views(v@) =~= str_views(a) + str_views(b));
    v
}

/// No entry of the list is empty.
pub proof fn lemma_tlds_entries_nonempty()
    ensures
        entries_nonempty(tlds()),
{
    lemma_generic_tlds_entries_nonempty();
    lemma_country_tlds_entries_nonempty();
    assert forall|i: int| 0 <= i < tlds().len() implies #[trigger] tlds()[i].len() > 0 by {
        if i < generic_tlds().len() {
            assert(tlds()[i] == generic_tlds()[i]);
        } else {
            assert(tlds()[i] == country_tlds()[i - generic_tlds().len()]);
        }
    }
}

} // verus!
