use fakedata_generator::corpora::gen_corpora_switch;
use fakedata_generator::data::{gen_corpora_switch as data_corpora_switch, gen_prime, gen_switch, prime_at};
use fakedata_generator::random::offset_in_range;
use fakedata_generator::text::{int_to_text, parse_i32};
use fakedata_generator::{
    enum_choice, format_domain, format_email, format_ipv4, gen_domain, gen_email, gen_enum, gen_http_method, gen_int, gen_ipv4,
    gen_private_ipv4, gen_username, parse_args_to_vec, parse_int_range, pick_one, GenError,
};

const KEYS: [&str; 9] = [
    "dinosaur", "cat", "dog", "horse", "fabric", "gemstone", "mood", "tlds", "tvshow",
];

fn octets(ip: &str) -> Vec<u32> {
    let parts: Vec<&str> = ip.split('.').collect();
    assert_eq!(parts.len(), 4, "{}", ip);
    parts.iter().map(|p| p.parse::<u32>().unwrap()).collect()
}

fn is_prime(n: usize) -> bool {
    n >= 2 && (2..n).take_while(|d| d * d <= n).all(|d| n % d != 0)
}

#[test]
fn dataset_words_are_nonempty_and_stable() {
    for key in KEYS {
        for _ in 0..50 {
            let w = gen_switch(key.to_string());
            assert!(!w.is_empty());
            assert_ne!(w, "Error: dataset not found");
            assert!(!w.contains(','));
        }
    }
}

#[test]
fn dataset_unknown_key_gives_sentinel() {
    assert_eq!(gen_switch("nonexistent".to_string()), "Error: dataset not found");
    assert_eq!(gen_switch(String::new()), "Error: dataset not found");
    assert_eq!(gen_switch("Cat".to_string()), "Error: dataset not found");
    assert_eq!(data_corpora_switch("nope".to_string()), "Error: dataset not found");
}

#[test]
fn corpora_switch_covers_only_its_lists() {
    assert_ne!(gen_corpora_switch("horse".to_string()), "Error: dataset not found");
    assert_ne!(gen_corpora_switch("gemstone".to_string()), "Error: dataset not found");
    assert_eq!(gen_corpora_switch("tlds".to_string()), "Error: dataset not found");
    assert_eq!(gen_corpora_switch("tvshow".to_string()), "Error: dataset not found");
    assert_ne!(data_corpora_switch("tvshow".to_string()), "Error: dataset not found");
}

#[test]
fn enum_draws_stay_in_list_and_are_uniform() {
    let mut counts = [0usize; 3];
    for _ in 0..10000 {
        match gen_enum("a,b,c").as_str() {
            "a" => counts[0] += 1,
            "b" => counts[1] += 1,
            "c" => counts[2] += 1,
            other => panic!("unexpected token {}", other),
        }
    }
    for c in counts {
        assert!(c > 2900 && c < 3800, "{:?}", counts);
    }
}

#[test]
fn enum_single_token() {
    for _ in 0..100 {
        assert_eq!(gen_enum("solo"), "solo");
    }
}

#[test]
fn enum_empty_input_is_one_empty_token() {
    assert_eq!(gen_enum(""), "");
    assert_eq!(parse_args_to_vec(""), vec![String::new()]);
}

#[test]
fn enum_reaches_last_token() {
    let mut seen_last = false;
    for _ in 0..500 {
        if gen_enum("x,y") == "y" {
            seen_last = true;
        }
    }
    assert!(seen_last);
}

#[test]
fn split_keeps_empty_tokens() {
    assert_eq!(parse_args_to_vec("a,,b,"), vec!["a", "", "b", ""]);
    assert_eq!(parse_args_to_vec("Hallo Welt,ß"), vec!["Hallo Welt", "ß"]);
}

#[test]
fn enum_choice_by_index() {
    assert_eq!(enum_choice("a,b,c", 0), "a");
    assert_eq!(enum_choice("a,b,c", 2), "c");
    assert_eq!(pick_one(&vec!["x", "y"], 1), "y");
}

#[test]
fn int_equal_bounds() {
    for _ in 0..50 {
        assert_eq!(gen_int("5,5").unwrap(), "5");
    }
}

#[test]
fn int_in_inclusive_range() {
    let mut seen = [false; 101];
    for _ in 0..20000 {
        let i = gen_int("1,100").unwrap().parse::<i32>().unwrap();
        assert!((1..=100).contains(&i));
        seen[i as usize] = true;
    }
    assert!(seen[1] && seen[100]);
}

#[test]
fn int_single_bound_starts_at_zero() {
    for _ in 0..50 {
        let i = gen_int("3").unwrap().parse::<i32>().unwrap();
        assert!((0..=3).contains(&i));
    }
    assert_eq!(gen_int("0").unwrap(), "0");
    assert_eq!(parse_int_range("7"), Ok((0, 7)));
}

#[test]
fn int_negative_bounds() {
    assert_eq!(parse_int_range("-10,-2"), Ok((-10, -2)));
    let i = gen_int("-3,-3").unwrap();
    assert_eq!(i, "-3");
    assert_eq!(parse_int_range("+4,2147483647"), Ok((4, i32::MAX)));
    assert_eq!(parse_int_range("-2147483648,0"), Ok((i32::MIN, 0)));
}

#[test]
fn int_errors() {
    assert_eq!(gen_int("abc"), Err(GenError::ParseError));
    assert_eq!(gen_int(""), Err(GenError::ParseError));
    assert_eq!(gen_int("1,2,3"), Err(GenError::ParseError));
    assert_eq!(gen_int("1,x"), Err(GenError::ParseError));
    assert_eq!(gen_int("2147483648"), Err(GenError::ParseError));
    assert_eq!(gen_int(" 5"), Err(GenError::ParseError));
    assert_eq!(gen_int("9,3"), Err(GenError::InvalidRange));
    assert_eq!(gen_int("-4"), Err(GenError::InvalidRange));
}

#[test]
fn decimal_text() {
    assert_eq!(int_to_text(0), "0");
    assert_eq!(int_to_text(1230), "1230");
    assert_eq!(int_to_text(-42), "-42");
    assert_eq!(int_to_text(i64::MIN), "-9223372036854775808");
    assert_eq!(int_to_text(i64::MAX), "9223372036854775807");
}

#[test]
fn decimal_parse() {
    assert_eq!(parse_i32("0"), Some(0));
    assert_eq!(parse_i32("-0"), Some(0));
    assert_eq!(parse_i32("+17"), Some(17));
    assert_eq!(parse_i32("007"), Some(7));
    assert_eq!(parse_i32("-2147483648"), Some(i32::MIN));
    assert_eq!(parse_i32("-2147483649"), None);
    assert_eq!(parse_i32("2147483647"), Some(i32::MAX));
    assert_eq!(parse_i32("99999999999999999999"), None);
    assert_eq!(parse_i32("-"), None);
    assert_eq!(parse_i32("+"), None);
    assert_eq!(parse_i32(""), None);
    assert_eq!(parse_i32("1e3"), None);
}

#[test]
fn http_method_is_standard() {
    let verbs = ["GET", "HEAD", "POST", "PUT", "DELETE", "CONNECT", "OPTIONS", "TRACE", "PATCH"];
    let mut seen = [false; 9];
    for _ in 0..2000 {
        let m = gen_http_method();
        let pos = verbs.iter().position(|v| *v == m).unwrap();
        seen[pos] = true;
    }
    assert!(seen.iter().all(|s| *s));
}

#[test]
fn ipv4_octets_in_range() {
    for _ in 0..200 {
        let ip = gen_ipv4();
        for o in octets(&ip) {
            assert!((1..=254).contains(&o), "{}", ip);
        }
    }
}

#[test]
fn ipv4_formatting() {
    assert_eq!(format_ipv4(192, 168, 0, 1), "192.168.0.1");
    assert_eq!(format_ipv4(1, 22, 254, 9), "1.22.254.9");
}

#[test]
fn private_ipv4_blocks() {
    for _ in 0..200 {
        let a = gen_private_ipv4(10);
        assert!(a.starts_with("10."));
        let o = octets(&a);
        assert!((1..=254).contains(&o[1]) && (1..=254).contains(&o[2]) && (1..=254).contains(&o[3]));

        let b = gen_private_ipv4(172);
        assert!(b.starts_with("172."));
        let o = octets(&b);
        assert!((16..=31).contains(&o[1]), "{}", b);

        let c = gen_private_ipv4(192);
        assert!(c.starts_with("192.168."));

        assert!(gen_private_ipv4(7).starts_with("10."));
    }
}

#[test]
fn email_shape() {
    for _ in 0..200 {
        let e = gen_email();
        assert_eq!(e.matches('@').count(), 1, "{}", e);
        let after = &e[e.find('@').unwrap() + 1..];
        assert!(after.contains('.'), "{}", e);
    }
}

#[test]
fn username_and_domain() {
    let users = "devankoshal,jesseddy,ahmadajmi,KarimMove,benefritz,meln1ks,shaneIxD,BryanHorsey,AnthraX,AmbientTech,CrucifiX,BronzeGamer,Scarface,b0rnc0nfused,XxX_SlAyEr_XxX";
    for _ in 0..100 {
        let u = gen_username();
        assert!(users.split(',').any(|x| x == u));
        let d = gen_domain();
        let (label, tld) = d.split_once('.').unwrap();
        assert!("some,random,names,we,make,up,for,testing".split(',').any(|x| x == label));
        assert!(!tld.is_empty());
    }
}

#[test]
fn prime_from_table() {
    for _ in 0..500 {
        let p = gen_prime();
        assert!(is_prime(p), "{}", p);
        assert!(p <= 7919);
    }
}

#[test]
fn email_and_domain_formatting() {
    assert_eq!(format_email("jesseddy", "box.mail", "io"), "jesseddy@box.mail.io");
    assert_eq!(format_domain("names", "eu"), "names.eu");
}

#[test]
fn prime_table_entries() {
    assert_eq!(prime_at(0), 2);
    assert_eq!(prime_at(4), 11);
    assert_eq!(prime_at(999), 7919);
}

#[test]
fn offset_within_range() {
    assert_eq!(offset_in_range(-5, 5, 0), -5);
    assert_eq!(offset_in_range(-5, 5, 10), 5);
    assert_eq!(offset_in_range(i32::MIN, i32::MAX, 4294967295), i32::MAX);
}
