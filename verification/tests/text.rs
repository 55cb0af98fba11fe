use navcrawl::error::absence_text;
use navcrawl::text::{followed_by, port_text, relative_path, same_text, trim_dash_ends};

#[test]
fn relative_path_of_two_segments() {
    assert_eq!(relative_path(&vec!["a".to_string(), "b".to_string()]), "/a/b");
}

#[test]
fn relative_path_of_no_segment_is_the_root() {
    assert_eq!(relative_path(&Vec::new()), "/");
}

#[test]
fn relative_path_of_one_empty_segment_is_the_root() {
    assert_eq!(relative_path(&vec![String::new()]), "/");
}

#[test]
fn relative_path_keeps_empty_segments() {
    assert_eq!(relative_path(&vec!["a".to_string(), String::new()]), "/a/");
    assert_eq!(relative_path(&vec![String::new(), "b".to_string()]), "//b");
    assert_eq!(relative_path(&vec!["index.html".to_string()]), "/index.html");
}

#[test]
fn ports_in_base_ten() {
    assert_eq!(port_text(0), "0");
    assert_eq!(port_text(7), "7");
    assert_eq!(port_text(10), "10");
    assert_eq!(port_text(80), "80");
    assert_eq!(port_text(443), "443");
    assert_eq!(port_text(8080), "8080");
    assert_eq!(port_text(65535), "65535");
    assert_eq!(port_text(12345), "12345");
    assert_eq!(port_text(60009), "60009");
}

#[test]
fn every_port_is_written_as_std_writes_it() {
    let mut port: u16 = 0;
    loop {
        assert_eq!(port_text(port), port.to_string());
        if port == u16::MAX {
            break;
        }
        port += 1;
    }
}

#[test]
fn dashes_come_off_both_ends() {
    assert_eq!(trim_dash_ends("--host"), "host");
    assert_eq!(trim_dash_ends("host--"), "host");
    assert_eq!(trim_dash_ends("-host-"), "host");
    assert_eq!(trim_dash_ends("host"), "host");
    assert_eq!(trim_dash_ends("ho-st"), "ho-st");
    assert_eq!(trim_dash_ends("-a-b-"), "a-b");
    assert_eq!(trim_dash_ends(""), "");
    assert_eq!(trim_dash_ends("-"), "");
    assert_eq!(trim_dash_ends("----"), "");
    assert_eq!(trim_dash_ends("--é--"), "é");
    assert_eq!(trim_dash_ends(" -x"), " -x");
}

#[test]
fn trimming_agrees_with_std() {
    for arg in ["", "-", "--", "a", "-a", "a-", "--a--b--", "- -", "日本-", "-日-本-"] {
        assert_eq!(trim_dash_ends(arg), arg.trim_matches('-'));
    }
}

#[test]
fn texts_compare_by_their_characters() {
    assert!(same_text("host", "host"));
    assert!(same_text("", ""));
    assert!(!same_text("host", "Host"));
    assert!(!same_text("host", "hos"));
    assert!(!same_text("", " "));
}

#[test]
fn second_text_follows_first() {
    assert_eq!(followed_by("http", "://"), "http://");
    assert_eq!(followed_by("", "x"), "x");
    assert_eq!(followed_by("x", ""), "x");
}

#[test]
fn absence_is_put_in_words() {
    assert_eq!(absence_text("port"), "No port found");
    assert_eq!(absence_text("hostname"), "No hostname found");
}
