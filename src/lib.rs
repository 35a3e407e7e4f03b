//! Fake data for tests and templates: usernames, domains, e-mail addresses,
//! HTTP methods, integers in a range, IPv4 addresses, picks from a
//! caller-given list and from bundled word lists.
use vstd::prelude::*;

pub mod corpora;
pub mod data;
pub mod random;
pub mod text;

use crate::data::tlds::{tld_list, tlds};
use crate::random::{random_in_range, random_index};
use crate::text::{decimal, int_to_text, parse_i32, parse_i32_value, split_commas, split_on_commas};

verus! {

/// Why an argument list was refused.
#[derive(Debug, Clone, Copy, PartialEq, Eq, Structural)]
pub enum GenError {
    /// A token is not an integer, or there are more tokens than allowed.
    ParseError,
    /// The lower bound lies above the upper one.
    InvalidRange,
}

/// The views of a list of string slices.
pub open spec fn str_views(items: Seq<&str>) -> Seq<Seq<char>> {
    items.map_values(|s: &str| s@)
}

/// An element of `items`, drawn uniformly.
pub fn pick_random(items: &Vec<&str>) -> (r: String)
    requires
        items.len() > 0,
    ensures
        str_views(items@).contains(r@),
{
    let index = random_index(items.len());
    let r = pick_one(items, index);
    assert(str_views(items@)[index as int] == r@);
    r
}

/// The element at `index`, as an owned string.
pub fn pick_one(items: &Vec<&str>, index: usize) -> (r: String)
    requires
        index < items.len(),
    ensures
        r@ == items@[index as int]@,
{
    String::from_str(items[index])
}

/// Splits a comma-separated argument list into its tokens.
pub fn parse_args_to_vec(input: &str) -> (r: Vec<String>)
    ensures
        r@.map_values(|t: String| t@) == split_commas(input@),
        r.len() >= 1,
{
    proof {
        crate::text::lemma_split_nonempty(input@);
    }
    let r = split_on_commas(input);
    assert(r@.map_values(|t: String| t@).len() == r.len());
    r
}

/// The token at `index` of the comma-separated list `input`.
pub fn enum_choice(input: &str, index: usize) -> (r: String)
    requires
        index < split_commas(input@).len(),
    ensures
        r@ == split_commas(input@)[index as int],
{
    let tokens = parse_args_to_vec(input);
    assert(tokens@.map_values(|t: String| t@)[index as int] == tokens@[index as int]@);
    tokens[index].clone()
}

/// A token of the comma-separated list `input`, drawn uniformly. The empty
/// string is a list of one empty token, and a list of one token always gives
/// that token.
pub fn gen_enum(input: &str) -> (r: String)
    ensures
        split_commas(input@).contains(r@),
        !input@.contains(',') ==> r@ == input@,
{
    proof {
        if !input@.contains(',') {
            crate::text::lemma_split_without_commas(input@);
        }
    }
    let count = parse_args_to_vec(input).len();
    let index = random_index(count);
    enum_choice(input, index)
}

/// The nine standard HTTP request methods.
pub open spec fn http_methods() -> Seq<Seq<char>> {
    seq![
        "GET"@,
        "HEAD"@,
        "POST"@,
        "PUT"@,
        "DELETE"@,
        "CONNECT"@,
        "OPTIONS"@,
        "TRACE"@,
        "PATCH"@,
    ]
}

fn http_method_list() -> (v: Vec<&'static str>)
    ensures
        str_views(v@) == http_methods(),
        v.len() == http_methods().len(),
{
    let v = vec!["GET", "HEAD", "POST", "PUT", "DELETE", "CONNECT", "OPTIONS", "TRACE", "PATCH"];
    assert(str_views(v@) =~= http_methods());
    v
}

/// One of the nine standard HTTP methods, drawn uniformly.
pub fn gen_http_method() -> (r: String)
    ensures
        http_methods().contains(r@),
{
    let methods = http_method_list();
    pick_random(&methods)
}

/// The inclusive bounds that the argument list `s` of `gen_int` asks for:
/// "high" means `0..=high`, "low,high" means `low..=high`, each an `i32`.
pub open spec fn int_bounds(s: Seq<char>) -> Result<(int, int), GenError> {
    let toks = split_commas(s);
    if toks.len() == 1 {
        match parse_i32_value(toks[0]) {
            Some(h) => if 0 <= h { Ok((0, h)) } else { Err(GenError::InvalidRange) },
            None => Err(GenError::ParseError),
        }
    } else if toks.len() == 2 {
        match (parse_i32_value(toks[0]), parse_i32_value(toks[1])) {
            (Some(l), Some(h)) => if l <= h { Ok((l, h)) } else { Err(GenError::InvalidRange) },
            _ => Err(GenError::ParseError),
        }
    } else {
        Err(GenError::ParseError)
    }
}

/// Reads the bounds of `gen_int` from its argument list.
pub fn parse_int_range(input: &str) -> (r: Result<(i32, i32), GenError>)
    ensures
        match r {
            Ok((lo, hi)) => int_bounds(input@) == Ok::<(int, int), GenError>((lo as int, hi as int)),
            Err(e) => int_bounds(input@) == Err::<(int, int), GenError>(e),
        },
{
    let toks = parse_args_to_vec(input);
    let ghost views = toks@.map_values(|t: String| t@);
    if toks.len() == 1 {
        assert(views[0] == toks@[0]@);
        match parse_i32(toks[0].as_str()) {
            Some(h) => if 0 <= h { Ok((0, h)) } else { Err(GenError::InvalidRange) },
            None => Err(GenError::ParseError),
        }
    } else if toks.len() == 2 {
        assert(views[0] == toks@[0]@);
        assert(views[1] == toks@[1]@);
        let lo = parse_i32(toks[0].as_str());
        let hi = parse_i32(toks[1].as_str());
        match (lo, hi) {
            (Some(l), Some(h)) => if l <= h { Ok((l, h)) } else { Err(GenError::InvalidRange) },
            _ => Err(GenError::ParseError),
        }
    } else {
        Err(GenError::ParseError)
    }
}

/// An integer drawn uniformly from the inclusive range that `input` names
/// ("high" or "low,high"), as decimal text.
pub fn gen_int(input: &str) -> (r: Result<String, GenError>)
    ensures
        match r {
            Ok(t) => exists|v: int|
                #![trigger decimal(v)]
                int_bounds(input@) matches Ok((lo, hi)) && lo <= v <= hi && t@ == decimal(v)
                    && parse_i32_value(t@) == Some(v),
            Err(e) => int_bounds(input@) == Err::<(int, int), GenError>(e),
        },
{
    match parse_int_range(input) {
        Ok((lo, hi)) => {
            let v = random_in_range(lo, hi);
            let t = int_to_text(v as i64);
            assert(t@ == decimal(v as int));
            proof {
                crate::text::lemma_decimal_parses(v as int);
            }
            Ok(t)
        },
        Err(e) => Err(e),
    }
}

/// The dotted-quad text of the address `a.b.c.d`.
pub open spec fn ipv4_text(a: int, b: int, c: int, d: int) -> Seq<char> {
    decimal(a) + seq!['.'] + decimal(b) + seq!['.'] + decimal(c) + seq!['.'] + decimal(d)
}

/// Writes the address `a.b.c.d` in dotted-quad form.
pub fn format_ipv4(a: u8, b: u8, c: u8, d: u8) -> (r: String)
    ensures
        r@ == ipv4_text(a as int, b as int, c as int, d as int),
{
    let mut out = int_to_text(a as i64);
    push_dot_and_number(&mut out, b);
    push_dot_and_number(&mut out, c);
    push_dot_and_number(&mut out, d);
    out
}

fn push_dot_and_number(out: &mut String, n: u8)
    ensures
        final(out)@ == old(out)@ + seq!['.'] + decimal(n as int),
{
    crate::text::push_char(out, '.');
    let t = int_to_text(n as i64);
    out.append(t.as_str());
}

/// An octet drawn uniformly from `lo..=hi`.
fn random_octet(lo: u8, hi: u8) -> (r: u8)
    requires
        lo <= hi,
    ensures
        lo <= r <= hi,
{
    random_in_range(lo as i32, hi as i32) as u8
}

/// An IPv4 address whose four octets are each drawn uniformly from `1..=254`.
pub fn gen_ipv4() -> (r: String)
    ensures
        exists|a: int, b: int, c: int, d: int|
            #![trigger ipv4_text(a, b, c, d)]
            1 <= a <= 254 && 1 <= b <= 254 && 1 <= c <= 254 && 1 <= d <= 254 && r@ == ipv4_text(a, b, c, d),
{
    let a = random_octet(1, 254);
    let b = random_octet(1, 254);
    let c = random_octet(1, 254);
    let d = random_octet(1, 254);
    format_ipv4(a, b, c, d)
}

/// The first octet of the private block that `starting_range` selects: 172
/// and 192 select their blocks, anything else the block of 10.
pub open spec fn private_first_octet(starting_range: usize) -> int {
    if starting_range == 172 {
        172
    } else if starting_range == 192 {
        192
    } else {
        10
    }
}

/// Whether `b` may stand second in an address of the private block whose
/// first octet is `a`: 10.(1-254), 172.(16-31), 192.168.
pub open spec fn private_second_octet_ok(a: int, b: int) -> bool {
    if a == 172 {
        16 <= b <= 31
    } else if a == 192 {
        b == 168
    } else {
        1 <= b <= 254
    }
}

/// A private (RFC 1918) address in the block that `starting_range` selects,
/// its free octets drawn uniformly.
pub fn gen_private_ipv4(starting_range: usize) -> (r: String)
    ensures
        exists|b: int, c: int, d: int|
            #![trigger ipv4_text(private_first_octet(starting_range), b, c, d)]
            private_second_octet_ok(private_first_octet(starting_range), b) && 1 <= c <= 254 && 1 <= d <= 254
                && r@ == ipv4_text(private_first_octet(starting_range), b, c, d),
        private_first_octet(starting_range) == 10 ==> r@.take(3) == seq!['1', '0', '.'],
        private_first_octet(starting_range) == 172 ==> r@.take(4) == seq!['1', '7', '2', '.'],
        private_first_octet(starting_range) == 192 ==> r@.take(8) == seq!['1', '9', '2', '.', '1', '6', '8', '.'],
{
    let a: u8 = if starting_range == 172 {
        172
    } else if starting_range == 192 {
        192
    } else {
        10
    };
    let b: u8 = if a == 172 {
        random_octet(16, 31)
    } else if a == 192 {
        168
    } else {
        random_octet(1, 254)
    };
    let c = random_octet(1, 254);
    let d = random_octet(1, 254);
    let r = format_ipv4(a, b, c, d);
    proof {
        reveal_with_fuel(crate::text::nat_digits, 3);
        let tail = seq!['.'] + decimal(b as int) + seq!['.'] + decimal(c as int) + seq!['.'] + decimal(d as int);
        assert(a as int == private_first_octet(starting_range));
        assert(r@ == ipv4_text(private_first_octet(starting_range), b as int, c as int, d as int));
        assert(r@ =~= decimal(a as int) + tail);
        if a == 192 {
            assert(decimal(192) =~= seq!['1', '9', '2']);
            assert(decimal(168) =~= seq!['1', '6', '8']);
        } else if a == 172 {
            assert(decimal(172) =~= seq!['1', '7', '2']);
        } else {
            assert(decimal(10) =~= seq!['1', '0']);
        }
    }
    r
}

/// Handles that `gen_username` picks from.
pub open spec fn usernames() -> Seq<Seq<char>> {
    seq![
        "devankoshal"@,
        "jesseddy"@,
        "ahmadajmi"@,
        "KarimMove"@,
        "benefritz"@,
        "meln1ks"@,
        "shaneIxD"@,
        "BryanHorsey"@,
        "AnthraX"@,
        "AmbientTech"@,
        "CrucifiX"@,
        "BronzeGamer"@,
        "Scarface"@,
        "b0rnc0nfused"@,
        "XxX_SlAyEr_XxX"@,
    ]
}

fn username_list() -> (v: Vec<&'static str>)
    ensures
        str_views(v@) == usernames(),
        v.len() == usernames().len(),
{
    let v = vec![
        "devankoshal",
        "jesseddy",
        "ahmadajmi",
        "KarimMove",
        "benefritz",
        "meln1ks",
        "shaneIxD",
        "BryanHorsey",
        "AnthraX",
        "AmbientTech",
        "CrucifiX",
        "BronzeGamer",
        "Scarface",
        "b0rnc0nfused",
        "XxX_SlAyEr_XxX",
    ];
    assert(str_views(v@) =~= usernames());
    v
}

/// Names that `gen_domain` puts before the top-level domain.
pub open spec fn domain_labels() -> Seq<Seq<char>> {
    seq![
        "some"@,
        "random"@,
        "names"@,
        "we"@,
        "make"@,
        "up"@,
        "for"@,
        "testing"@,
    ]
}

fn domain_label_list() -> (v: Vec<&'static str>)
    ensures
        str_views(v@) == domain_labels(),
        v.len() == domain_labels().len(),
{
    let v = vec![
        "some",
        "random",
        "names",
        "we",
        "make",
        "up",
        "for",
        "testing",
    ];
    assert(str_views(v@) =~= domain_labels());
    v
}

/// Host names of the e-mail addresses that `gen_email` writes.
pub open spec fn mail_hosts() -> Seq<Seq<char>> {
    seq![
        "mail-services"@,
        "postfach"@,
        "box.mail"@,
        "mail.cyberspace"@,
        "hmail"@,
        "coldmail"@,
        "nahoo"@,
        "mail"@,
    ]
}

fn mail_host_list() -> (v: Vec<&'static str>)
    ensures
        str_views(v@) == mail_hosts(),
        v.len() == mail_hosts().len(),
{
    let v = vec![
        "mail-services",
        "postfach",
        "box.mail",
        "mail.cyberspace",
        "hmail",
        "coldmail",
        "nahoo",
        "mail",
    ];
    assert(str_views(v@) =~= mail_hosts());
    v
}

/// Top-level domains of the e-mail addresses that `gen_email` writes.
pub open spec fn mail_tlds() -> Seq<Seq<char>> {
    seq![
        "de"@,
        "org"@,
        "com"@,
        "net"@,
        "io"@,
        "email"@,
        "dev"@,
    ]
}

fn mail_tld_list() -> (v: Vec<&'static str>)
    ensures
        str_views(v@) == mail_tlds(),
        v.len() == mail_tlds().len(),
{
    let v = vec![
        "de",
        "org",
        "com",
        "net",
        "io",
        "email",
        "dev",
    ];
    assert(str_views(v@) =~= mail_tlds());
    v
}

/// Whether no entry of `items` holds the character `c`.
pub open spec fn lacks_char(items: Seq<Seq<char>>, c: char) -> bool {
    forall|i: int, j: int| 0 <= i < items.len() && 0 <= j < items[i].len() ==> #[trigger] items[i][j] != c
}

proof fn lemma_mail_parts_lack_at()
    ensures
        lacks_char(usernames(), '@'),
        lacks_char(mail_hosts(), '@'),
        lacks_char(mail_tlds(), '@'),
{
    reveal_strlit("devankoshal");
    reveal_strlit("jesseddy");
    reveal_strlit("ahmadajmi");
    reveal_strlit("KarimMove");
    reveal_strlit("benefritz");
    reveal_strlit("meln1ks");
    reveal_strlit("shaneIxD");
    reveal_strlit("BryanHorsey");
    reveal_strlit("AnthraX");
    reveal_strlit("AmbientTech");
    reveal_strlit("CrucifiX");
    reveal_strlit("BronzeGamer");
    reveal_strlit("Scarface");
    reveal_strlit("b0rnc0nfused");
    reveal_strlit("XxX_SlAyEr_XxX");
    reveal_strlit("mail-services");
    reveal_strlit("postfach");
    reveal_strlit("box.mail");
    reveal_strlit("mail.cyberspace");
    reveal_strlit("hmail");
    reveal_strlit("coldmail");
    reveal_strlit("nahoo");
    reveal_strlit("mail");
    reveal_strlit("de");
    reveal_strlit("org");
    reveal_strlit("com");
    reveal_strlit("net");
    reveal_strlit("io");
    reveal_strlit("email");
    reveal_strlit("dev");
}

/// Whether `s` holds exactly one `@`, with a `.` somewhere after it.
pub open spec fn is_address_shaped(s: Seq<char>) -> bool {
    exists|i: int|
        0 <= i < s.len() && s[i] == '@' && (forall|j: int| 0 <= j < s.len() && #[trigger] s[j] == '@' ==> j == i)
            && (exists|k: int| i < k < s.len() && #[trigger] s[k] == '.')
}

/// The address with the user part `user` at host `host` under the top-level domain `tld`.
pub open spec fn email_text(user: Seq<char>, host: Seq<char>, tld: Seq<char>) -> Seq<char> {
    user + seq!['@'] + host + seq!['.'] + tld
}

/// Every address that `gen_email` can write holds exactly one `@`, and a `.`
/// after it.
pub proof fn lemma_email_shape(user: Seq<char>, host: Seq<char>, tld: Seq<char>)
    requires
        usernames().contains(user),
        mail_hosts().contains(host),
        mail_tlds().contains(tld),
    ensures
        is_address_shaped(email_text(user, host, tld)),
{
    lemma_mail_parts_lack_at();
    let s = email_text(user, host, tld);
    let i = user.len() as int;
    let k = i + 1 + host.len();
    let ui = choose|x: int| 0 <= x < usernames().len() && usernames()[x] == user;
    let hi = choose|x: int| 0 <= x < mail_hosts().len() && mail_hosts()[x] == host;
    let ti = choose|x: int| 0 <= x < mail_tlds().len() && mail_tlds()[x] == tld;
    assert(s[i] == '@');
    assert(s[k] == '.');
    assert forall|j: int| 0 <= j < s.len() && #[trigger] s[j] == '@' implies j == i by {
        if j < i {
            assert(s[j] == usernames()[ui][j]);
        } else if i < j < k {
            assert(s[j] == mail_hosts()[hi][j - i - 1]);
        } else if j > k {
            assert(s[j] == mail_tlds()[ti][j - k - 1]);
        }
    }
}

/// A handle drawn uniformly from a fixed list.
pub fn gen_username() -> (r: String)
    ensures
        usernames().contains(r@),
{
    let names = username_list();
    pick_random(&names)
}

/// The domain name `label` under the top-level domain `tld`.
pub fn format_domain(label: &str, tld: &str) -> (r: String)
    ensures
        r@ == label@ + seq!['.'] + tld@,
{
    let mut domain = String::from_str(label);
    crate::text::push_char(&mut domain, '.');
    domain.append(tld);
    domain
}

/// A domain name: a label from a fixed list, a dot, and a top-level domain
/// from the bundled list, each drawn uniformly.
pub fn gen_domain() -> (r: String)
    ensures
        exists|label: Seq<char>, tld: Seq<char>|
            #![trigger domain_labels().contains(label), tlds().contains(tld)]
            domain_labels().contains(label) && tlds().contains(tld) && r@ == label + seq!['.'] + tld,
{
    let tld = pick_random(&tld_list());
    let label = pick_random(&domain_label_list());
    format_domain(label.as_str(), tld.as_str())
}

/// The e-mail address of `user` at host `host` under the top-level domain `tld`.
pub fn format_email(user: &str, host: &str, tld: &str) -> (r: String)
    ensures
        r@ == email_text(user@, host@, tld@),
{
    let mut email = String::from_str(user);
    crate::text::push_char(&mut email, '@');
    email.append(host);
    crate::text::push_char(&mut email, '.');
    email.append(tld);
    email
}

/// An e-mail address: a handle from `gen_username`, then `@`, a host name, a
/// dot and a top-level domain, each drawn uniformly.
pub fn gen_email() -> (r: String)
    ensures
        exists|user: Seq<char>, host: Seq<char>, tld: Seq<char>|
            #![trigger email_text(user, host, tld)]
            usernames().contains(user) && mail_hosts().contains(host) && mail_tlds().contains(tld)
                && r@ == email_text(user, host, tld),
        is_address_shaped(r@),
{
    let user = gen_username();
    let tld = pick_random(&mail_tld_list());
    let host = pick_random(&mail_host_list());
    let email = format_email(user.as_str(), host.as_str(), tld.as_str());
    proof {
        lemma_email_shape(user@, host@, tld@);
    }
    email
}

} // verus!
