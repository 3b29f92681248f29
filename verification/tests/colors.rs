use tihu::color::get_named_colors;
use tihu::color::named_color;
use tihu::color::parse_css_fn;
use tihu::color::parse_hex_channels;

#[test]
fn css_fn_name_and_arguments() {
    assert_eq!(
        parse_css_fn("rgb(1, 2, 3)"),
        Some(("rgb", vec!["1", "2", "3"]))
    );
    assert_eq!(
        parse_css_fn("  hsla ( 120 ,50% ,\t25%, 0.5 ) trailing"),
        Some(("hsla", vec!["120", "50%", "25%", "0.5"]))
    );
    assert_eq!(parse_css_fn("f(a,,b,)"), Some(("f", vec!["a", "", "b", ""])));
    assert_eq!(parse_css_fn("f()"), Some(("f", vec![""])));
    assert_eq!(parse_css_fn("()"), Some(("", vec![""])));
    assert_eq!(parse_css_fn("f( )"), Some(("f", vec![""])));
    assert_eq!(parse_css_fn("f(a(b)c)"), Some(("f", vec!["a(b"])));
    assert_eq!(
        parse_css_fn("色\u{3000}(\u{a0}é\u{2003},ü)"),
        Some(("色", vec!["é", "ü"]))
    );
}

#[test]
fn css_fn_needs_both_brackets() {
    for text in ["", "red", "rgb(1, 2, 3", "rgb 1, 2, 3)", ")rgb(", "#fff"] {
        assert_eq!(parse_css_fn(text), None);
    }
}

#[test]
fn named_colors_are_found() {
    assert_eq!(named_color("aliceblue"), Some("#f0f8ff"));
    assert_eq!(named_color("red"), Some("#ff0000"));
    assert_eq!(named_color("rebeccapurple"), Some("#663399"));
    assert_eq!(named_color("yellowgreen"), Some("#9acd32"));
    assert_eq!(named_color("grey"), Some("#808080"));
    assert_eq!(named_color("gray"), Some("#808080"));
}

#[test]
fn other_names_are_not_colors() {
    for name in ["", "Red", "re", "redd", " red", "#ff0000", "transparent"] {
        assert_eq!(named_color(name), None);
    }
}

#[test]
fn named_colors_table() {
    let colors = get_named_colors();
    assert_eq!(colors.len(), 148);
    assert_eq!(colors[0], ("aliceblue", "#f0f8ff"));
    assert_eq!(colors[147], ("yellowgreen", "#9acd32"));
    for (index, (name, channels)) in colors.iter().enumerate() {
        assert!(parse_hex_channels(channels).is_some());
        assert_eq!(named_color(name), Some(*channels));
        assert!(colors[..index].iter().all(|(other, _)| other != name));
    }
}
