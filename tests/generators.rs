use fakedata_generator::data;
use fakedata_generator::data::gen_prime;
use fakedata_generator::{gen_enum, gen_http_method, gen_int, gen_private_ipv4};

#[test]
fn test_gen_int() {
    let mut res = gen_int("1,10").unwrap().parse::<i32>().unwrap();
    assert_eq!(true, (res >= 1 && res <= 10));

    res = gen_int("10,300").unwrap().parse::<i32>().unwrap();
    assert_eq!(true, (res >= 10 && res <= 300));

    res = gen_int("300000,999999").unwrap().parse::<i32>().unwrap();
    assert_eq!(true, (res >= 300000 && res <= 999999));

    res = gen_int("99999999,1000000000").unwrap().parse::<i32>().unwrap();
    assert_eq!(true, (res >= 99999999 && res <= 1000000000));
}

#[test]
fn test_gen_enum() {
    let mut words: String = gen_enum("hello,hola,hallo");
    let mut res = match words.as_str() {
        "hello" => true,
        "hola" => true,
        "hallo" => true,
        _ => false,
    };
    assert_eq!(true, res);

    words = gen_enum("a,b,c,d,e,f,g,h,i,j");
    res = match words.as_str() {
        "a" => true,
        "b" => true,
        "c" => true,
        "d" => true,
        "e" => true,
        "f" => true,
        "g" => true,
        "h" => true,
        "i" => true,
        "j" => true,
        _ => false,
    };
    assert_eq!(true, res);

    words = gen_enum(&"Hallo Welt,Hello world,Hola mundo".to_string());
    res = match words.as_str() {
        "Hallo Welt" => true,
        "Hello world" => true,
        "Hola mundo" => true,
        _ => false,
    };
    assert_eq!(true, res);
}

#[test]
fn test_gen_http_method() {
    let possible_values: Vec<&str> = vec!["DELETE", "GET", "HEAD", "OPTION", "PATCH", "POST", "PUT"];
    for _ in 0..4 {
        let method: String = gen_http_method();
        for v in possible_values.to_owned() {
            if v == method.as_str() {
                assert_eq!(true, true);
                break;
            }
        }
    }
}

#[test]
fn test_gen_private_ipv4_first_block() {
    let rand_ip_10 = gen_private_ipv4(10);
    let rand_ip_172 = gen_private_ipv4(172);
    let rand_ip_192 = gen_private_ipv4(192);
    assert!(rand_ip_10.starts_with("10"));
    assert!(rand_ip_172.starts_with("172"));
    assert!(rand_ip_192.starts_with("192"));
}

#[test]
fn test_gen_prime() {
    let prime = gen_prime();
    assert!(prime > 1);
    assert!(prime <= 8017);
}

#[test]
fn test_gen_tvshows() {
    let show = data::gen_switch("tvshow".into());
    assert_ne!(show, "");
    assert_ne!(show, "Error: dataset not found");
}

#[test]
fn test_gen_not_available() {
    let show = data::gen_switch("does-not-exist".into());
    assert_eq!(show, "Error: dataset not found");
}
