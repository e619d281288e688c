use idioma::ansi::strip_styles;
use idioma::{custom, debug, error, info, success, warning, Hue, Label, Style, Text};

#[test]
fn error_renders_label_and_message() {
    let t = error("disk full");
    assert_eq!(strip_styles(t.render().as_str()), "error: disk full");
}

#[test]
fn success_renders_label_and_message() {
    let t = success("done");
    assert_eq!(strip_styles(t.render().as_str()), "success: done");
}

#[test]
fn info_renders_label_and_message() {
    let t = info("all quiet");
    assert_eq!(strip_styles(t.render().as_str()), "info: all quiet");
}

#[test]
fn warning_renders_label_and_message() {
    let t = warning("low on water");
    assert_eq!(strip_styles(t.render().as_str()), "warning: low on water");
}

#[test]
fn debug_renders_label_and_message() {
    let t = debug("x is 3");
    assert_eq!(strip_styles(t.render().as_str()), "debug: x is 3");
}

#[test]
fn empty_message_keeps_label_and_separator() {
    let t = error("");
    assert_eq!(strip_styles(t.render().as_str()), "error: ");
}

#[test]
fn custom_label_applies_to_two_messages() {
    let label = custom(
        Style { color: Some(Hue::Cyan), bold: true },
        String::from("demo"),
    );
    let a = label.apply("one");
    let b = label.apply("two");
    let sa = strip_styles(a.render().as_str());
    let sb = strip_styles(b.render().as_str());
    assert_eq!(sa, "demo: one");
    assert_eq!(sb, "demo: two");
    assert_eq!(&sa[..6], &sb[..6]);
    assert_ne!(sa, sb);
}

#[test]
fn make_with_unstyled_label() {
    let label = Label {
        name: String::from("note"),
        style: Style { color: None, bold: false },
    };
    let t = Text::make(&label, "plain words");
    assert_eq!(strip_styles(t.render().as_str()), "note: plain words");
}

#[test]
fn make_with_bold_only_label() {
    let label = Label {
        name: String::from("loud"),
        style: Style { color: None, bold: true },
    };
    let t = Text::make(&label, "listen");
    assert_eq!(strip_styles(t.render().as_str()), "loud: listen");
}

#[test]
fn colored_but_not_bold_label() {
    let label = custom(
        Style { color: Some(Hue::Blue), bold: false },
        String::from("hint"),
    );
    let t = label.apply("try again");
    assert_eq!(strip_styles(t.render().as_str()), "hint: try again");
}

#[test]
fn render_is_stable() {
    let t = warning("same every time");
    assert_eq!(t.render(), t.render());
}

#[test]
fn print_writes_a_line() {
    info("just one line").print();
}

#[test]
fn into_is_identity_on_success() {
    let r: Result<i32, String> = Ok(7);
    match idioma::into(r) {
        Ok(v) => assert_eq!(v, 7),
        Err(_) => panic!("a success value must pass through unchanged"),
    }
}

#[test]
fn into_labels_failures() {
    let r: Result<i32, String> = Err(String::from("boom"));
    match idioma::into(r) {
        Ok(_) => panic!("a failure must stay a failure"),
        Err(t) => assert_eq!(strip_styles(t.render().as_str()), "error: boom"),
    }
}

#[test]
fn strip_removes_escape_sequences() {
    assert_eq!(strip_styles("\u{1b}[1;31merror\u{1b}[0m"), "error");
}

#[test]
fn strip_leaves_plain_text_alone() {
    assert_eq!(strip_styles("hello world"), "hello world");
    assert_eq!(strip_styles(""), "");
}
