//! The command line of the screen locker that shows the backdrop.
//!
//! The locker is told to read its image from standard input, and that the
//! image is raw RGB of the size of the screen; whatever else the user gave
//! is passed on untouched.

use vstd::prelude::*;

use crate::geometry::Geometry;

verus! {

/// The character of a decimal digit.
pub open spec fn digit(d: nat) -> char {
    if d == 0 {
        '0'
    } else if d == 1 {
        '1'
    } else if d == 2 {
        '2'
    } else if d == 3 {
        '3'
    } else if d == 4 {
        '4'
    } else if d == 5 {
        '5'
    } else if d == 6 {
        '6'
    } else if d == 7 {
        '7'
    } else if d == 8 {
        '8'
    } else {
        '9'
    }
}

/// The decimal numeral of `n`, without sign or leading zeros.
pub open spec fn decimal(n: nat) -> Seq<char>
    decreases n,
{
    if n < 10 {
        seq![digit(n)]
    } else {
        decimal(n / 10).push(digit(n % 10))
    }
}

/// The text that declares a raw RGB image of the size of `screen`:
/// width, `x`, height and `:rgb`, as in `1920x1080:rgb`.
pub open spec fn raw_format_text(screen: Geometry) -> Seq<char> {
    decimal(screen.width as nat) + seq!['x'] + decimal(screen.height as nat) + seq![
        ':',
        'r',
        'g',
        'b',
    ]
}

/// The flag that names the image file.
pub open spec fn image_flag_text() -> Seq<char> {
    seq!['-', 'i']
}

/// The path that stands for standard input.
pub open spec fn stdin_path_text() -> Seq<char> {
    seq!['/', 'd', 'e', 'v', '/', 's', 't', 'd', 'i', 'n']
}

/// The flag that declares the format of a raw image.
pub open spec fn raw_flag_text() -> Seq<char> {
    seq!['-', '-', 'r', 'a', 'w']
}

/// The texts of a list of arguments.
pub open spec fn texts(arguments: Seq<String>) -> Seq<Seq<char>> {
    arguments.map_values(|argument: String| argument@)
}

/// The arguments of the locker for `screen`, followed by `forwarded`.
pub open spec fn locker_argument_texts(screen: Geometry, forwarded: Seq<Seq<char>>) -> Seq<
    Seq<char>,
> {
    seq![image_flag_text(), stdin_path_text(), raw_flag_text(), raw_format_text(screen)]
        + forwarded
}

fn digit_text(d: u32) -> (text: &'static str)
    requires
        d < 10,
    ensures
        text@ == seq![digit(d as nat)],
{
    proof {
        reveal_strlit("0");
        reveal_strlit("1");
        reveal_strlit("2");
        reveal_strlit("3");
        reveal_strlit("4");
        reveal_strlit("5");
        reveal_strlit("6");
        reveal_strlit("7");
        reveal_strlit("8");
        reveal_strlit("9");
    }
    let text = if d == 0 {
        "0"
    } else if d == 1 {
        "1"
    } else if d == 2 {
        "2"
    } else if d == 3 {
        "3"
    } else if d == 4 {
        "4"
    } else if d == 5 {
        "5"
    } else if d == 6 {
        "6"
    } else if d == 7 {
        "7"
    } else if d == 8 {
        "8"
    } else {
        "9"
    };
    assert(text@ =~= seq![digit(d as nat)]);
    text
}

/// Appends the decimal numeral of `n` to `out`.
pub fn push_decimal(out: &mut String, n: u32)
    ensures
        final(out)@ == old(out)@ + decimal(n as nat),
    decreases n,
{
    if n >= 10 {
        push_decimal(out, n / 10);
    }
    out.append(digit_text(n % 10));
    assert(out@ =~= old(out)@ + decimal(n as nat));
}

/// The argument that declares a raw RGB image of the size of `screen`.
pub fn raw_format(screen: Geometry) -> (text: String)
    ensures
        text@ == raw_format_text(screen),
{
    proof {
        reveal_strlit("x");
        reveal_strlit(":rgb");
    }
    let mut text = String::new();
    push_decimal(&mut text, screen.width);
    text.append("x");
    push_decimal(&mut text, screen.height);
    text.append(":rgb");
    assert(text@ =~= raw_format_text(screen));
    text
}

/// The arguments with which the locker is started: read the image from
/// standard input, take it as raw RGB of the size of `screen`, and then
/// whatever was `forwarded`, in its order and unchanged.
pub fn locker_arguments(screen: Geometry, forwarded: Vec<String>) -> (arguments: Vec<String>)
    ensures
        texts(arguments@) == locker_argument_texts(screen, texts(forwarded@)),
        arguments@.len() == 4 + forwarded@.len(),
{
    proof {
        reveal_strlit("-i");
        reveal_strlit("/dev/stdin");
        reveal_strlit("--raw");
    }
    let mut arguments: Vec<String> = Vec::new();
    arguments.push(String::from_str("-i"));
    arguments.push(String::from_str("/dev/stdin"));
    arguments.push(String::from_str("--raw"));
    arguments.push(raw_format(screen));
    let mut rest = forwarded;
    arguments.append(&mut rest);
    assert(arguments@[0]@ =~= image_flag_text());
    assert(arguments@[1]@ =~= stdin_path_text());
    assert(arguments@[2]@ =~= raw_flag_text());
    assert(texts(arguments@) =~= locker_argument_texts(screen, texts(forwarded@)));
    arguments
}

} // verus!
