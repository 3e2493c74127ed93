use iprr::ip138::{check_ip138_match, extract_ip138_payload, ip138_region, process_field};
use iprr::ip2region::{interpret_ip2region, ip2region_precheck, join_region_parts};
use iprr::qqwry::{clean_location, interpret_qqwry};
use iprr::util::{clear_current_line_seq, padding_ipv6, replace_home, ProgressIndicator};
use iprr::uutool::interpret_uutool;
use iprr::zxipv6::interpret_zxipv6;

#[test]
fn padding_expands_middle_gap() {
    assert_eq!(padding_ipv6("1::2"), "1:0:0:0:0:0:0:2");
}

#[test]
fn padding_expands_trailing_gap() {
    assert_eq!(padding_ipv6("1::"), "1:0:0:0:0:0:0:0");
}

#[test]
fn padding_expands_real_address() {
    assert_eq!(
        padding_ipv6("2001:db8::8a2e:370:7334"),
        "2001:db8:0:0:0:8a2e:370:7334"
    );
}

#[test]
fn padding_expands_leading_gap() {
    assert_eq!(padding_ipv6("::1"), ":0:0:0:0:0:0:0:1");
}

#[test]
fn padding_leaves_full_addresses_alone() {
    assert_eq!(padding_ipv6("1:2:3:4:5:6:7:8"), "1:2:3:4:5:6:7:8");
    assert_eq!(padding_ipv6("1.2.3.4"), "1.2.3.4");
}

#[test]
fn home_expansion() {
    assert_eq!(replace_home("~/.cache/x", "/home/u"), "/home/u/.cache/x");
    assert_eq!(replace_home("/tmp/x", "/home/u"), "/tmp/x");
}

#[test]
fn progress_frames_and_cancel() {
    let mut ind = ProgressIndicator::start("working...".to_string(), 3);
    assert_eq!(ind.frame_shown(), "working...");
    assert_eq!(ind.frame_blanked(), "working   ");
    let clear = ind.cancel();
    // The cancel hands back the clear-line sequence, so the line is
    // clean before whatever is printed next.
    assert_eq!(clear, "\r\x1B[2K");
    assert_eq!(clear, clear_current_line_seq());
    assert!(!ind.active);
}

#[test]
fn qqwry_fields_are_cleaned() {
    assert_eq!(clean_location("Some-Place_Here"), "Some Place Here");
    assert_eq!(clean_location("  CityCZ88.NET "), "City");
    assert_eq!(clean_location("a\u{2013}b"), "ab");
}

#[test]
fn qqwry_outcomes() {
    match interpret_qqwry("1.2.3.4", Some(("X-Y".to_string(), "Z_W".to_string()))) {
        Ok(reg) => {
            assert_eq!(reg.ip, "1.2.3.4");
            assert_eq!(reg.region, "X Y");
            assert_eq!(reg.isp.as_deref(), Some("Z W"));
        },
        Err(e) => panic!("expected a result, got error {:?}", e),
    }
    match interpret_qqwry("1.2.3.4", None) {
        Err(e) => assert_eq!(e, "\u{672a}\u{67e5}\u{8be2}\u{5230}\u{7ed3}\u{679c}\u{ff01}"),
        Ok(r) => panic!("expected the no-match error, got {:?}", r),
    }
}

#[test]
fn ip2region_joins_region_parts() {
    assert_eq!(join_region_parts("CN|0|Province|City|ISP"), "CNProvinceCityISP");
    assert_eq!(join_region_parts("0|0|0|0|0"), "");
    assert_eq!(join_region_parts("plain"), "plain");
    // A `10` part is not the `0` placeholder and stays.
    assert_eq!(join_region_parts("10|0|x"), "10x");
}

#[test]
fn ip2region_rejects_ipv6() {
    match ip2region_precheck("::1") {
        Some(e) => assert_eq!(e, "\u{6682}\u{4e0d}\u{652f}\u{6301}IPv6"),
        None => panic!("expected the IPv6 rejection"),
    }
    assert!(ip2region_precheck("1.2.3.4").is_none());
}

#[test]
fn ip2region_outcomes() {
    match interpret_ip2region("1.2.3.4", Ok("CN|0|P|C|I".to_string())) {
        Ok(reg) => {
            assert_eq!(reg.ip, "1.2.3.4");
            assert_eq!(reg.region, "CNPCI");
            assert!(reg.isp.is_none());
        },
        Err(e) => panic!("expected a result, got error {:?}", e),
    }
    match interpret_ip2region("1.2.3.4", Err("no db".to_string())) {
        Err(e) => assert_eq!(e, "no db"),
        Ok(r) => panic!("expected the search error, got {:?}", r),
    }
}

#[test]
fn uutool_outcomes() {
    match interpret_uutool(
        "2001:db8::1",
        0,
        None,
        "Loc".to_string(),
        "ISP".to_string(),
    ) {
        Ok(reg) => {
            assert_eq!(reg.ip, "2001:db8::1");
            assert_eq!(reg.region, "Loc");
            assert_eq!(reg.isp.as_deref(), Some("ISP"));
        },
        Err(e) => panic!("expected a result, got error {:?}", e),
    }
    match interpret_uutool("x", 7, Some("bad ip".to_string()), String::new(), String::new()) {
        Err(e) => assert_eq!(e, "bad ip"),
        Ok(r) => panic!("expected the response error, got {:?}", r),
    }
    match interpret_uutool("x", 7, None, String::new(), String::new()) {
        Err(e) => assert_eq!(e, "\u{67e5}\u{8be2}\u{51fa}\u{9519}"),
        Ok(r) => panic!("expected the generic error, got {:?}", r),
    }
}

#[test]
fn zxipv6_outcomes() {
    match interpret_zxipv6("::1", 0, Some("A\tB".to_string())) {
        Ok(reg) => {
            assert_eq!(reg.ip, "::1");
            assert_eq!(reg.region, "A B");
            assert!(reg.isp.is_none());
        },
        Err(e) => panic!("expected a result, got error {:?}", e),
    }
    match interpret_zxipv6("::1", 1, None) {
        Err(e) => assert_eq!(e, "\u{67e5}\u{8be2}\u{51fa}\u{9519}"),
        Ok(r) => panic!("expected the lookup error, got {:?}", r),
    }
}

#[test]
fn ip138_match_check() {
    match check_ip138_match("") {
        Some(e) => assert_eq!(e, "\u{672a}\u{67e5}\u{8be2}\u{5230}\u{7ed3}\u{679c}\u{ff01}"),
        None => panic!("expected the no-match error"),
    }
    assert!(check_ip138_match("var ip_result = {};").is_none());
}

#[test]
fn ip138_payload_extraction() {
    // Sixteen characters of `var ip_result = ` are stripped, and the
    // trailing semicolon vanishes.
    let matched = "var ip_result = {\"a\": 1};";
    assert_eq!(extract_ip138_payload(matched), "{\"a\": 1}");
}

#[test]
fn ip138_field_cleanup() {
    assert_eq!(process_field("\"some place\""), "someplace");
    let reg = ip138_region("1.2.3.4", "\"City Here\"");
    assert_eq!(reg.ip, "1.2.3.4");
    assert_eq!(reg.region, "CityHere");
    assert!(reg.isp.is_none());
}
