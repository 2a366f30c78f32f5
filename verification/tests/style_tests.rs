use almarjaa::style::{render_segment, seg, Tone};

#[test]
fn segments_painted_in_their_tone() {
    colored::control::set_override(true);
    assert_eq!(render_segment(&seg(Tone::Plain, "نص")), "نص");
    assert_eq!(render_segment(&seg(Tone::BrightRed, "x")), "\u{1b}[91mx\u{1b}[0m");
    assert_eq!(render_segment(&seg(Tone::BrightCyanBold, "x")), "\u{1b}[1;96mx\u{1b}[0m");
    assert_eq!(render_segment(&seg(Tone::BrightWhiteOnRed, "x")), "\u{1b}[41;97mx\u{1b}[0m");
    assert_eq!(render_segment(&seg(Tone::BrightWhiteUnderline, "x")), "\u{1b}[4;97mx\u{1b}[0m");
    assert_eq!(render_segment(&seg(Tone::Dimmed, "x")), "\u{1b}[2mx\u{1b}[0m");
}

#[test]
fn segments_plain_without_colours() {
    colored::control::set_override(false);
    assert_eq!(render_segment(&seg(Tone::BrightGreen, "x")), "x");
}
