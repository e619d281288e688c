// Forces the styling environment to colorize, so the styled output really
// carries escape sequences; stripping them must still give the plain line.

use idioma::ansi::strip_styles;

#[test]
fn forced_color_carries_escapes_and_strips_clean() {
    colored::control::set_override(true);
    let t = idioma::error("x");
    let r = t.render();
    assert!(r.contains('\u{1b}'));
    assert_eq!(strip_styles(r.as_str()), "error: x");
    colored::control::unset_override();
}

#[test]
fn forced_plain_renders_without_escapes() {
    colored::control::set_override(false);
    let t = idioma::success("ok");
    let r = t.render();
    assert!(!r.contains('\u{1b}'));
    assert_eq!(r, "success: ok");
    colored::control::unset_override();
}
