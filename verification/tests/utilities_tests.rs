use rustop::utilities::{banner_text, quit_instructions};

#[test]
fn banner_contains_title() {
    let banner = banner_text();
    assert!(
        banner.contains("Rust System & GPU Monitor (rustop)"),
        "banner should include product name"
    );
}

#[test]
fn quit_instructions_are_present() {
    assert_eq!(quit_instructions(), "Press F10 or q/Q to quit.");
}
