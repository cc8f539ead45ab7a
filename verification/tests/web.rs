use rrr::cone::cone_indices;
use rrr::server::{bytes_end_with, command_reply, content_type, route_for, CommandOutcome, HttpStatus};
use rrr::ui::tab_hidden;

#[test]
fn content_types_by_extension() {
    assert_eq!(content_type("index.js"), "application/javascript");
    assert_eq!(content_type("app_bg.wasm"), "application/wasm");
    assert_eq!(content_type("index.html"), "text/html");
    assert_eq!(content_type("old.htm"), "text/html");
    assert_eq!(content_type("style.css"), "text/css");
    assert_eq!(content_type(""), "text/html");
    assert_eq!(content_type("image.png"), "text/html");
    assert_eq!(content_type("js"), "text/html");
    assert_eq!(content_type("dir/a.min.js"), "application/javascript");
}

#[test]
fn suffix_check() {
    assert!(bytes_end_with(b"abc", b"bc"));
    assert!(bytes_end_with(b"abc", b""));
    assert!(!bytes_end_with(b"bc", b"abc"));
    assert!(!bytes_end_with(b"abc", b"ab"));
}

#[test]
fn routes_are_paths_behind_a_slash() {
    assert_eq!(route_for(""), "/");
    assert_eq!(route_for("index.js"), "/index.js");
    assert_eq!(route_for("assets/a.css"), "/assets/a.css");
}

#[test]
fn command_replies() {
    assert_eq!(command_reply(CommandOutcome::Handled), HttpStatus { code: 200, reason: Some("OK") });
    assert_eq!(command_reply(CommandOutcome::Failed), HttpStatus { code: 500, reason: None });
    assert_eq!(
        command_reply(CommandOutcome::Unparsable),
        HttpStatus { code: 400, reason: Some("Unable to parse command") }
    );
}

#[test]
fn cone_with_three_rim_vertices() {
    assert_eq!(
        cone_indices(3),
        vec![3, 1, 0, 4, 0, 1, 3, 2, 1, 4, 1, 2, 3, 0, 2, 4, 2, 0]
    );
}

#[test]
fn cone_indices_stay_in_range() {
    let r = 16;
    let v = cone_indices(r);
    assert_eq!(v.len(), 6 * r as usize);
    assert!(v.iter().all(|&i| i < r + 2));
}

#[test]
fn tab_visibility() {
    assert!(!tab_hidden(2, 2));
    assert!(tab_hidden(1, 2));
}
