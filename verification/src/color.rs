//! The text of a colour: the channels of one written in hexadecimal, as
//! `#rgb` or `#rrggbb`, and the parts of one written as a function, as
//! `rgb(1, 2, 3)`.

use vstd::prelude::*;
use vstd::string::StrSliceExecFns;

verus! {

/// The value of a hexadecimal digit in lower case.
pub open spec fn hex_digit(c: char) -> Option<nat> {
    if '0' <= c <= '9' {
        Some((c as nat - 48) as nat)
    } else if 'a' <= c <= 'f' {
        Some((c as nat - 87) as nat)
    } else {
        None
    }
}

/// The value of the two hexadecimal digits at the given places of a text.
pub open spec fn hex_pair(text: Seq<char>, high: int, low: int) -> Option<nat> {
    match (hex_digit(text[high]), hex_digit(text[low])) {
        (Some(h), Some(l)) => Some(16 * h + l),
        _ => None,
    }
}

/// The red, green and blue of a colour in hexadecimal, each from 0 to 255.
///
/// A text of four characters holds one digit for each channel, which
/// counts twice; a text of seven or more holds two digits for each, and
/// what follows them is not looked at. The first character is not looked
/// at either. Digits are `0`-`9` and `a`-`f`.
pub open spec fn hex_channels(text: Seq<char>) -> Option<(nat, nat, nat)> {
    if text.len() == 4 {
        match (hex_pair(text, 1, 1), hex_pair(text, 2, 2), hex_pair(text, 3, 3)) {
            (Some(r), Some(g), Some(b)) => Some((r, g, b)),
            _ => None,
        }
    } else if text.len() >= 7 {
        match (hex_pair(text, 1, 2), hex_pair(text, 3, 4), hex_pair(text, 5, 6)) {
            (Some(r), Some(g), Some(b)) => Some((r, g, b)),
            _ => None,
        }
    } else {
        None
    }
}

/// The value of a hexadecimal digit in lower case.
fn digit_of(c: char) -> (r: Option<u8>)
    ensures
        match hex_digit(c) {
            Some(value) => r == Some(value as u8) && value < 16,
            None => r is None,
        },
{
    if '0' <= c && c <= '9' {
        Some(((c as u32) - 48) as u8)
    } else if 'a' <= c && c <= 'f' {
        Some(((c as u32) - 87) as u8)
    } else {
        None
    }
}

/// The value of the two hexadecimal digits at the given places of a text.
fn pair_of(color: &str, high: usize, low: usize) -> (r: Option<u8>)
    requires
        high < color@.len(),
        low < color@.len(),
    ensures
        match hex_pair(color@, high as int, low as int) {
            Some(value) => r == Some(value as u8) && value < 256,
            None => r is None,
        },
{
    match (digit_of(color.get_char(high)), digit_of(color.get_char(low))) {
        (Some(h), Some(l)) => Some(16 * h + l),
        _ => None,
    }
}

/// Reads the red, green and blue of a colour in hexadecimal.
pub fn parse_hex_channels(color: &str) -> (r: Option<(u8, u8, u8)>)
    ensures
        match hex_channels(color@) {
            Some((red, green, blue)) => r == Some((red as u8, green as u8, blue as u8)) && red
                < 256 && green < 256 && blue < 256,
            None => r is None,
        },
{
    let len = color.unicode_len();
    if len == 4 {
        match (pair_of(color, 1, 1), pair_of(color, 2, 2), pair_of(color, 3, 3)) {
            (Some(red), Some(green), Some(blue)) => Some((red, green, blue)),
            _ => None,
        }
    } else if len >= 7 {
        match (pair_of(color, 1, 2), pair_of(color, 3, 4), pair_of(color, 5, 6)) {
            (Some(red), Some(green), Some(blue)) => Some((red, green, blue)),
            _ => None,
        }
    } else {
        None
    }
}

/// Whether a character is white space.
pub open spec fn is_space(c: char) -> bool {
    let n = c as u32;
    9 <= n <= 13 || n == 0x20 || n == 0x85 || n == 0xa0 || n == 0x1680 || 0x2000 <= n <= 0x200a
        || n == 0x2028 || n == 0x2029 || n == 0x202f || n == 0x205f || n == 0x3000
}

/// The place of the first `target` among the characters from `from` up to
/// `to`, or `to` where there is none.
pub open spec fn find_in(text: Seq<char>, target: char, from: int, to: int) -> int
    decreases to - from,
{
    if from >= to {
        to
    } else if text[from] == target {
        from
    } else {
        find_in(text, target, from + 1, to)
    }
}

/// The place of the first character from `from` up to `to` that is no
/// white space, or `to` where there is none.
pub open spec fn lead(text: Seq<char>, from: int, to: int) -> int
    decreases to - from,
{
    if from >= to {
        to
    } else if !is_space(text[from]) {
        from
    } else {
        lead(text, from + 1, to)
    }
}

/// The place behind the last character from `from` up to `to` that is no
/// white space, or `from` where there is none.
pub open spec fn trail(text: Seq<char>, from: int, to: int) -> int
    decreases to - from,
{
    if from >= to {
        from
    } else if !is_space(text[to - 1]) {
        to
    } else {
        trail(text, from, to - 1)
    }
}

/// The characters from `from` up to `to` without the white space at both
/// ends.
pub open spec fn trimmed(text: Seq<char>, from: int, to: int) -> Seq<char> {
    text.subrange(lead(text, from, to), trail(text, lead(text, from, to), to))
}

/// The characters from `from` up to `to`, cut at every comma, each piece
/// without the white space at its ends.
pub open spec fn arguments(text: Seq<char>, from: int, to: int) -> Seq<Seq<char>>
    decreases to - from,
{
    let comma = find_in(text, ',', from, to);
    if from > to || comma < from || comma >= to {
        seq![trimmed(text, from, to)]
    } else {
        seq![trimmed(text, from, comma)] + arguments(text, comma + 1, to)
    }
}

/// The name and the arguments of a colour written as a function: what
/// stands before the first `(`, and the pieces between it and the first `)`
/// behind it. `None` where the text holds no such brackets.
pub open spec fn css_fn(text: Seq<char>) -> Option<(Seq<char>, Seq<Seq<char>>)> {
    let open = find_in(text, '(', 0, text.len() as int);
    let close = find_in(text, ')', open + 1, text.len() as int);
    if open >= text.len() || close >= text.len() {
        None
    } else {
        Some((trimmed(text, 0, open), arguments(text, open + 1, close)))
    }
}

/// The texts as sequences of characters.
pub open spec fn texts(items: Seq<&str>) -> Seq<Seq<char>> {
    Seq::new(items.len(), |i: int| items[i]@)
}

/// Whether a character is white space.
fn space(c: char) -> (r: bool)
    ensures
        r == is_space(c),
{
    let n = c as u32;
    (9 <= n && n <= 13) || n == 0x20 || n == 0x85 || n == 0xa0 || n == 0x1680 || (0x2000 <= n && n
        <= 0x200a) || n == 0x2028 || n == 0x2029 || n == 0x202f || n == 0x205f || n == 0x3000
}

/// The place of the first `target` from `from` up to `to`.
fn find(color: &str, target: char, from: usize, to: usize) -> (r: usize)
    requires
        from <= to <= color@.len(),
    ensures
        r == find_in(color@, target, from as int, to as int),
        from <= r <= to,
{
    let mut at = from;
    while at < to
        invariant
            from <= at <= to <= color@.len(),
            find_in(color@, target, from as int, to as int) == find_in(
                color@,
                target,
                at as int,
                to as int,
            ),
        decreases to - at,
    {
        if color.get_char(at) == target {
            return at;
        }
        at += 1;
    }
    at
}

/// The characters from `from` up to `to` without the white space at both
/// ends.
fn trim(color: &str, from: usize, to: usize) -> (r: &str)
    requires
        from <= to <= color@.len(),
    ensures
        r@ == trimmed(color@, from as int, to as int),
{
    let mut first = from;
    while first < to && space(color.get_char(first))
        invariant
            from <= first <= to <= color@.len(),
            lead(color@, from as int, to as int) == lead(color@, first as int, to as int),
        decreases to - first,
    {
        first += 1;
    }
    let mut last = to;
    while first < last && space(color.get_char(last - 1))
        invariant
            first <= last <= to <= color@.len(),
            trail(color@, first as int, to as int) == trail(color@, first as int, last as int),
        decreases last - first,
    {
        last -= 1;
    }
    color.substring_char(first, last)
}

/// Takes a colour written as a function apart.
pub fn parse_css_fn(color: &str) -> (r: Option<(&str, Vec<&str>)>)
    ensures
        match css_fn(color@) {
            Some((name, args)) => r is Some && r->Some_0.0@ == name && texts(r->Some_0.1@) == args,
            None => r is None,
        },
{
    let len = color.unicode_len();
    let open = find(color, '(', 0, len);
    if open >= len {
        return None;
    }
    let close = find(color, ')', open + 1, len);
    if close >= len {
        return None;
    }
    let name = trim(color, 0, open);
    let mut args: Vec<&str> = Vec::new();
    let mut from = open + 1;
    let mut done = false;
    assert(Seq::<Seq<char>>::empty() + arguments(color@, from as int, close as int)
        =~= arguments(color@, from as int, close as int));
    while !done
        invariant
            open + 1 <= from <= close + 1,
            close < color@.len(),
            !done ==> from <= close,
            !done ==> arguments(color@, open + 1, close as int) == texts(args@) + arguments(
                color@,
                from as int,
                close as int,
            ),
            done ==> arguments(color@, open + 1, close as int) == texts(args@),
        decreases
                close + 1 - from,
                (if done {
                    0nat
                } else {
                    1nat
                }),
    {
        let comma = find(color, ',', from, close);
        let piece = trim(color, from, comma);
        proof {
            let rest = if comma < close {
                arguments(color@, comma + 1, close as int)
            } else {
                Seq::<Seq<char>>::empty()
            };
            assert(arguments(color@, from as int, close as int) =~= seq![piece@] + rest);
            assert(texts(args@.push(piece)) + rest =~= texts(args@) + (seq![piece@] + rest));
            assert(texts(args@.push(piece)) + Seq::<Seq<char>>::empty() =~= texts(
                args@.push(piece),
            ));
        }
        args.push(piece);
        if comma < close {
            from = comma + 1;
        } else {
            done = true;
        }
    }
    Some((name, args))
}

/// The colours that have a name, each with its channels in hexadecimal. No
/// name stands twice.
pub open spec fn named_colors() -> Seq<(&'static str, &'static str)> {
    seq![
        ("aliceblue", "#f0f8ff"),
        ("antiquewhite", "#faebd7"),
        ("aqua", "#00ffff"),
        ("aquamarine", "#7fffd4"),
        ("azure", "#f0ffff"),
        ("beige", "#f5f5dc"),
        ("bisque", "#ffe4c4"),
        ("black", "#000000"),
        ("blanchedalmond", "#ffebcd"),
        ("blue", "#0000ff"),
        ("blueviolet", "#8a2be2"),
        ("brown", "#a52a2a"),
        ("burlywood", "#deb887"),
        ("cadetblue", "#5f9ea0"),
        ("chartreuse", "#7fff00"),
        ("chocolate", "#d2691e"),
        ("coral", "#ff7f50"),
        ("cornflowerblue", "#6495ed"),
        ("cornsilk", "#fff8dc"),
        ("crimson", "#dc143c"),
        ("cyan", "#00ffff"),
        ("darkblue", "#00008b"),
        ("darkcyan", "#008b8b"),
        ("darkgoldenrod", "#b8860b"),
        ("darkgray", "#a9a9a9"),
        ("darkgreen", "#006400"),
        ("darkgrey", "#a9a9a9"),
        ("darkkhaki", "#bdb76b"),
        ("darkmagenta", "#8b008b"),
        ("darkolivegreen", "#556b2f"),
        ("darkorange", "#ff8c00"),
        ("darkorchid", "#9932cc"),
        ("darkred", "#8b0000"),
        ("darksalmon", "#e9967a"),
        ("darkseagreen", "#8fbc8f"),
        ("darkslateblue", "#483d8b"),
        ("darkslategray", "#2f4f4f"),
        ("darkslategrey", "#2f4f4f"),
        ("darkturquoise", "#00ced1"),
        ("darkviolet", "#9400d3"),
        ("deeppink", "#ff1493"),
        ("deepskyblue", "#00bfff"),
        ("dimgray", "#696969"),
        ("dimgrey", "#696969"),
        ("dodgerblue", "#1e90ff"),
        ("firebrick", "#b22222"),
        ("floralwhite", "#fffaf0"),
        ("forestgreen", "#228b22"),
        ("fuchsia", "#ff00ff"),
        ("gainsboro", "#dcdcdc"),
        ("ghostwhite", "#f8f8ff"),
        ("gold", "#ffd700"),
        ("goldenrod", "#daa520"),
        ("gray", "#808080"),
        ("green", "#008000"),
        ("greenyellow", "#adff2f"),
        ("grey", "#808080"),
        ("honeydew", "#f0fff0"),
        ("hotpink", "#ff69b4"),
        ("indianred", "#cd5c5c"),
        ("indigo", "#4b0082"),
        ("ivory", "#fffff0"),
        ("khaki", "#f0e68c"),
        ("lavender", "#e6e6fa"),
        ("lavenderblush", "#fff0f5"),
        ("lawngreen", "#7cfc00"),
        ("lemonchiffon", "#fffacd"),
        ("lightblue", "#add8e6"),
        ("lightcoral", "#f08080"),
        ("lightcyan", "#e0ffff"),
        ("lightgoldenrodyellow", "#fafad2"),
        ("lightgray", "#d3d3d3"),
        ("lightgreen", "#90ee90"),
        ("lightgrey", "#d3d3d3"),
        ("lightpink", "#ffb6c1"),
        ("lightsalmon", "#ffa07a"),
        ("lightseagreen", "#20b2aa"),
        ("lightskyblue", "#87cefa"),
        ("lightslategray", "#778899"),
        ("lightslategrey", "#778899"),
        ("lightsteelblue", "#b0c4de"),
        ("lightyellow", "#ffffe0"),
        ("lime", "#00ff00"),
        ("limegreen", "#32cd32"),
        ("linen", "#faf0e6"),
        ("magenta", "#ff00ff"),
        ("maroon", "#800000"),
        ("mediumaquamarine", "#66cdaa"),
        ("mediumblue", "#0000cd"),
        ("mediumorchid", "#ba55d3"),
        ("mediumpurple", "#9370db"),
        ("mediumseagreen", "#3cb371"),
        ("mediumslateblue", "#7b68ee"),
        ("mediumspringgreen", "#00fa9a"),
        ("mediumturquoise", "#48d1cc"),
        ("mediumvioletred", "#c71585"),
        ("midnightblue", "#191970"),
        ("mintcream", "#f5fffa"),
        ("mistyrose", "#ffe4e1"),
        ("moccasin", "#ffe4b5"),
        ("navajowhite", "#ffdead"),
        ("navy", "#000080"),
        ("oldlace", "#fdf5e6"),
        ("olive", "#808000"),
        ("olivedrab", "#6b8e23"),
        ("orange", "#ffa500"),
        ("orangered", "#ff4500"),
        ("orchid", "#da70d6"),
        ("palegoldenrod", "#eee8aa"),
        ("palegreen", "#98fb98"),
        ("paleturquoise", "#afeeee"),
        ("palevioletred", "#db7093"),
        ("papayawhip", "#ffefd5"),
        ("peachpuff", "#ffdab9"),
        ("peru", "#cd853f"),
        ("pink", "#ffc0cb"),
        ("plum", "#dda0dd"),
        ("powderblue", "#b0e0e6"),
        ("purple", "#800080"),
        ("rebeccapurple", "#663399"),
        ("red", "#ff0000"),
        ("rosybrown", "#bc8f8f"),
        ("royalblue", "#4169e1"),
        ("saddlebrown", "#8b4513"),
        ("salmon", "#fa8072"),
        ("sandybrown", "#f4a460"),
        ("seagreen", "#2e8b57"),
        ("seashell", "#fff5ee"),
        ("sienna", "#a0522d"),
        ("silver", "#c0c0c0"),
        ("skyblue", "#87ceeb"),
        ("slateblue", "#6a5acd"),
        ("slategray", "#708090"),
        ("slategrey", "#708090"),
        ("snow", "#fffafa"),
        ("springgreen", "#00ff7f"),
        ("steelblue", "#4682b4"),
        ("tan", "#d2b48c"),
        ("teal", "#008080"),
        ("thistle", "#d8bfd8"),
        ("tomato", "#ff6347"),
        ("turquoise", "#40e0d0"),
        ("violet", "#ee82ee"),
        ("wheat", "#f5deb3"),
        ("white", "#ffffff"),
        ("whitesmoke", "#f5f5f5"),
        ("yellow", "#ffff00"),
        ("yellowgreen", "#9acd32"),
    ]
}

/// The channels of the first colour of that name among `colors`, from
/// `from` on.
pub open spec fn color_named(
    colors: Seq<(&'static str, &'static str)>,
    name: Seq<char>,
    from: int,
) -> Option<&'static str>
    decreases colors.len() - from,
{
    if from < 0 || from >= colors.len() {
        None
    } else if colors[from].0@ == name {
        Some(colors[from].1)
    } else {
        color_named(colors, name, from + 1)
    }
}

/// The colours that have a name.
pub fn get_named_colors() -> (r: Vec<(&'static str, &'static str)>)
    ensures
        r@ == named_colors(),
{
    vec![
        ("aliceblue", "#f0f8ff"),
        ("antiquewhite", "#faebd7"),
        ("aqua", "#00ffff"),
        ("aquamarine", "#7fffd4"),
        ("azure", "#f0ffff"),
        ("beige", "#f5f5dc"),
        ("bisque", "#ffe4c4"),
        ("black", "#000000"),
        ("blanchedalmond", "#ffebcd"),
        ("blue", "#0000ff"),
        ("blueviolet", "#8a2be2"),
        ("brown", "#a52a2a"),
        ("burlywood", "#deb887"),
        ("cadetblue", "#5f9ea0"),
        ("chartreuse", "#7fff00"),
        ("chocolate", "#d2691e"),
        ("coral", "#ff7f50"),
        ("cornflowerblue", "#6495ed"),
        ("cornsilk", "#fff8dc"),
        ("crimson", "#dc143c"),
        ("cyan", "#00ffff"),
        ("darkblue", "#00008b"),
        ("darkcyan", "#008b8b"),
        ("darkgoldenrod", "#b8860b"),
        ("darkgray", "#a9a9a9"),
        ("darkgreen", "#006400"),
        ("darkgrey", "#a9a9a9"),
        ("darkkhaki", "#bdb76b"),
        ("darkmagenta", "#8b008b"),
        ("darkolivegreen", "#556b2f"),
        ("darkorange", "#ff8c00"),
        ("darkorchid", "#9932cc"),
        ("darkred", "#8b0000"),
        ("darksalmon", "#e9967a"),
        ("darkseagreen", "#8fbc8f"),
        ("darkslateblue", "#483d8b"),
        ("darkslategray", "#2f4f4f"),
        ("darkslategrey", "#2f4f4f"),
        ("darkturquoise", "#00ced1"),
        ("darkviolet", "#9400d3"),
        ("deeppink", "#ff1493"),
        ("deepskyblue", "#00bfff"),
        ("dimgray", "#696969"),
        ("dimgrey", "#696969"),
        ("dodgerblue", "#1e90ff"),
        ("firebrick", "#b22222"),
        ("floralwhite", "#fffaf0"),
        ("forestgreen", "#228b22"),
        ("fuchsia", "#ff00ff"),
        ("gainsboro", "#dcdcdc"),
        ("ghostwhite", "#f8f8ff"),
        ("gold", "#ffd700"),
        ("goldenrod", "#daa520"),
        ("gray", "#808080"),
        ("green", "#008000"),
        ("greenyellow", "#adff2f"),
        ("grey", "#808080"),
        ("honeydew", "#f0fff0"),
        ("hotpink", "#ff69b4"),
        ("indianred", "#cd5c5c"),
        ("indigo", "#4b0082"),
        ("ivory", "#fffff0"),
        ("khaki", "#f0e68c"),
        ("lavender", "#e6e6fa"),
        ("lavenderblush", "#fff0f5"),
        ("lawngreen", "#7cfc00"),
        ("lemonchiffon", "#fffacd"),
        ("lightblue", "#add8e6"),
        ("lightcoral", "#f08080"),
        ("lightcyan", "#e0ffff"),
        ("lightgoldenrodyellow", "#fafad2"),
        ("lightgray", "#d3d3d3"),
        ("lightgreen", "#90ee90"),
        ("lightgrey", "#d3d3d3"),
        ("lightpink", "#ffb6c1"),
        ("lightsalmon", "#ffa07a"),
        ("lightseagreen", "#20b2aa"),
        ("lightskyblue", "#87cefa"),
        ("lightslategray", "#778899"),
        ("lightslategrey", "#778899"),
        ("lightsteelblue", "#b0c4de"),
        ("lightyellow", "#ffffe0"),
        ("lime", "#00ff00"),
        ("limegreen", "#32cd32"),
        ("linen", "#faf0e6"),
        ("magenta", "#ff00ff"),
        ("maroon", "#800000"),
        ("mediumaquamarine", "#66cdaa"),
        ("mediumblue", "#0000cd"),
        ("mediumorchid", "#ba55d3"),
        ("mediumpurple", "#9370db"),
        ("mediumseagreen", "#3cb371"),
        ("mediumslateblue", "#7b68ee"),
        ("mediumspringgreen", "#00fa9a"),
        ("mediumturquoise", "#48d1cc"),
        ("mediumvioletred", "#c71585"),
        ("midnightblue", "#191970"),
        ("mintcream", "#f5fffa"),
        ("mistyrose", "#ffe4e1"),
        ("moccasin", "#ffe4b5"),
        ("navajowhite", "#ffdead"),
        ("navy", "#000080"),
        ("oldlace", "#fdf5e6"),
        ("olive", "#808000"),
        ("olivedrab", "#6b8e23"),
        ("orange", "#ffa500"),
        ("orangered", "#ff4500"),
        ("orchid", "#da70d6"),
        ("palegoldenrod", "#eee8aa"),
        ("palegreen", "#98fb98"),
        ("paleturquoise", "#afeeee"),
        ("palevioletred", "#db7093"),
        ("papayawhip", "#ffefd5"),
        ("peachpuff", "#ffdab9"),
        ("peru", "#cd853f"),
        ("pink", "#ffc0cb"),
        ("plum", "#dda0dd"),
        ("powderblue", "#b0e0e6"),
        ("purple", "#800080"),
        ("rebeccapurple", "#663399"),
        ("red", "#ff0000"),
        ("rosybrown", "#bc8f8f"),
        ("royalblue", "#4169e1"),
        ("saddlebrown", "#8b4513"),
        ("salmon", "#fa8072"),
        ("sandybrown", "#f4a460"),
        ("seagreen", "#2e8b57"),
        ("seashell", "#fff5ee"),
        ("sienna", "#a0522d"),
        ("silver", "#c0c0c0"),
        ("skyblue", "#87ceeb"),
        ("slateblue", "#6a5acd"),
        ("slategray", "#708090"),
        ("slategrey", "#708090"),
        ("snow", "#fffafa"),
        ("springgreen", "#00ff7f"),
        ("steelblue", "#4682b4"),
        ("tan", "#d2b48c"),
        ("teal", "#008080"),
        ("thistle", "#d8bfd8"),
        ("tomato", "#ff6347"),
        ("turquoise", "#40e0d0"),
        ("violet", "#ee82ee"),
        ("wheat", "#f5deb3"),
        ("white", "#ffffff"),
        ("whitesmoke", "#f5f5f5"),
        ("yellow", "#ffff00"),
        ("yellowgreen", "#9acd32"),
    ]
}

/// Whether two texts are the same.
fn same_text(a: &str, b: &str) -> (r: bool)
    ensures
        r == (a@ == b@),
{
    let left = a.as_bytes();
    let right = b.as_bytes();
    proof {
        vstd::utf8::encode_utf8_decode_utf8(a@);
        vstd::utf8::encode_utf8_decode_utf8(b@);
    }
    if left.len() != right.len() {
        return false;
    }
    let mut at: usize = 0;
    while at < left.len()
        invariant
            left@ == vstd::utf8::encode_utf8(a@),
            right@ == vstd::utf8::encode_utf8(b@),
            left@.len() == right@.len(),
            at <= left@.len(),
            left@.take(at as int) == right@.take(at as int),
        decreases left@.len() - at,
    {
        if left[at] != right[at] {
            return false;
        }
        at += 1;
        assert(left@.take(at as int) =~= left@.take(at - 1).push(left@[at - 1]));
        assert(right@.take(at as int) =~= right@.take(at - 1).push(right@[at - 1]));
    }
    assert(left@ =~= left@.take(at as int));
    assert(right@ =~= right@.take(at as int));
    true
}

/// The channels, in hexadecimal, of the colour of the given name in lower
/// case, if there is one.
pub fn named_color(name: &str) -> (r: Option<&'static str>)
    ensures
        r == color_named(named_colors(), name@, 0),
{
    let colors = get_named_colors();
    let mut at: usize = 0;
    while at < colors.len()
        invariant
            colors@ == named_colors(),
            at <= colors@.len(),
            color_named(named_colors(), name@, 0) == color_named(named_colors(), name@, at as int),
        decreases colors@.len() - at,
    {
        let (known, channels) = colors[at];
        if same_text(known, name) {
            return Some(channels);
        }
        at += 1;
    }
    None
}

} // verus!
