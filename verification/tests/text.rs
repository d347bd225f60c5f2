use cfproxy_rs::text::{push_decimal, push_hex};

fn decimal(n: u16) -> String {
    let mut out = String::new();
    push_decimal(&mut out, n);
    out
}

fn hex(n: u16) -> String {
    let mut out = String::new();
    push_hex(&mut out, n);
    out
}

#[test]
fn decimal_of_some_numbers() {
    assert_eq!(decimal(0), "0");
    assert_eq!(decimal(7), "7");
    assert_eq!(decimal(10), "10");
    assert_eq!(decimal(80), "80");
    assert_eq!(decimal(443), "443");
    assert_eq!(decimal(4514), "4514");
    assert_eq!(decimal(10000), "10000");
    assert_eq!(decimal(65535), "65535");
}

#[test]
fn hex_of_some_numbers() {
    assert_eq!(hex(0), "0");
    assert_eq!(hex(9), "9");
    assert_eq!(hex(10), "a");
    assert_eq!(hex(15), "f");
    assert_eq!(hex(16), "10");
    assert_eq!(hex(0xdb8), "db8");
    assert_eq!(hex(0x1000), "1000");
    assert_eq!(hex(0xffff), "ffff");
}

#[test]
fn digits_are_appended() {
    let mut out = "port ".to_string();
    push_decimal(&mut out, 8080);
    out.push_str(" or 0x");
    push_hex(&mut out, 8080);
    assert_eq!(out, "port 8080 or 0x1f90");
}

#[test]
fn every_number_reads_as_std_writes_it() {
    for n in 0..=u16::MAX {
        assert_eq!(decimal(n), n.to_string());
        assert_eq!(hex(n), format!("{:x}", n));
    }
}
