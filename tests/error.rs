use conerror::text::push_decimal;
use conerror::{Error, Location, Raised};

fn frame(file: &'static str, line: u32, func: &'static str) -> Location {
    Location { file, line, func }
}

#[test]
fn plain_has_no_location() {
    let error = Error::plain(String::from("disk full"));
    assert!(error.location().is_none());
}

#[test]
fn fresh_chain_starts_one_frame() {
    let error = Error::chain(Raised::Fresh(String::from("boom")), "a.rs", 10, "read");
    assert_eq!(error.location(), Some(&[frame("a.rs", 10, "read")][..]));
}

#[test]
fn chain_of_plain_adds_no_frame() {
    let error = Error::plain(String::from("boom"));
    let error = Error::chain(Raised::Traced(error), "a.rs", 10, "read");
    assert!(error.location().is_none());
    let error = Error::chain(Raised::Traced(error), "b.rs", 20, "run");
    assert!(error.location().is_none());
    assert_eq!(error.source(), "boom");
}

#[test]
fn chain_appends_in_call_order() {
    let error = Error::chain(Raised::Fresh(String::from("boom")), "a.rs", 10, "read");
    let error = Error::chain(Raised::Traced(error), "b.rs", 20, "load");
    assert_eq!(
        error.location(),
        Some(&[frame("a.rs", 10, "read"), frame("b.rs", 20, "load")][..])
    );
}

#[test]
fn chain_keeps_repeated_frames() {
    let error = Error::chain(Raised::Fresh(String::from("boom")), "a.rs", 10, "read");
    let error = Error::chain(Raised::Traced(error), "a.rs", 10, "read");
    let error = Error::chain(Raised::Traced(error), "c.rs", 1, "main");
    assert_eq!(
        error.location(),
        Some(&[frame("a.rs", 10, "read"), frame("a.rs", 10, "read"), frame("c.rs", 1, "main")][..])
    );
}

#[test]
fn location_read_is_idempotent() {
    let error = Error::chain(Raised::Fresh(String::from("boom")), "a.rs", 10, "read");
    let error = Error::chain(Raised::Traced(error), "b.rs", 20, "load");
    let first: Vec<Location> = error.location().unwrap().to_vec();
    let second: Vec<Location> = error.location().unwrap().to_vec();
    assert_eq!(first, second);
    assert_eq!(error.location().unwrap().len(), 2);
}

#[test]
fn display_of_one_frame_is_exact() {
    let error = Error::chain(Raised::Fresh(String::from("boom")), "a.rs", 10, "read");
    assert_eq!(error.render("boom"), "boom\na.rs:10 read()\n");
}

#[test]
fn display_of_two_frames_is_exact() {
    let error = Error::chain(Raised::Fresh(7u8), "a.rs", 10, "read");
    let error = Error::chain(Raised::Traced(error), "src/main.rs", 305, "main");
    assert_eq!(error.render("bad byte"), "bad byte\na.rs:10 read()\nsrc/main.rs:305 main()\n");
}

#[test]
fn display_of_plain_is_source_text() {
    let error = Error::plain(String::from("boom"));
    assert_eq!(error.render("boom"), "boom");
    let error = Error::chain(Raised::Traced(error), "a.rs", 10, "read");
    assert_eq!(error.render("boom"), "boom");
}

#[test]
fn source_survives_chaining() {
    let error = Error::chain(Raised::Fresh(String::from("boom")), "a.rs", 10, "read");
    assert_eq!(error.source(), "boom");
    let error = Error::chain(Raised::Traced(error), "b.rs", 20, "load");
    let error = Error::chain(Raised::Traced(error), "c.rs", 30, "main");
    assert_eq!(error.source(), "boom");
    let error = Error::plain(42u32);
    assert_eq!(*error.source(), 42);
}

#[test]
fn location_text_is_exact() {
    assert_eq!(frame("src/lib.rs", 42, "parse").to_text(), "src/lib.rs:42 parse()");
    assert_eq!(frame("x.rs", 0, "f").to_text(), "x.rs:0 f()");
    assert_eq!(frame("x.rs", u32::MAX, "f").to_text(), "x.rs:4294967295 f()");
    assert_eq!(frame("", 7, "").to_text(), ":7 ()");
}

#[test]
fn decimal_appends_digits() {
    let mut out = String::from("n=");
    push_decimal(&mut out, 1000);
    assert_eq!(out, "n=1000");
    let mut out = String::new();
    push_decimal(&mut out, 9);
    assert_eq!(out, "9");
    let mut out = String::new();
    push_decimal(&mut out, 10);
    assert_eq!(out, "10");
}
