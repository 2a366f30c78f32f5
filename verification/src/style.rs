//! Styled terminal text. A document is a sequence of segments, each a piece
//! of text with a tone; rendering hands each coloured segment to the
//! `colored` crate, whose output depends on the terminal and environment.

use colored::Colorize;
use vstd::prelude::*;
use crate::text::{has_substring, occurs_at};

verus! {

/// The colour and emphasis of a piece of text.
#[derive(Clone, Copy, PartialEq, Eq, Debug, Structural)]
pub enum Tone {
    /// Printed as is.
    Plain,
    BrightBlack,
    BrightCyan,
    BrightCyanBold,
    BrightRed,
    BrightRedBold,
    BrightYellow,
    BrightWhite,
    BrightWhiteBold,
    BrightWhiteUnderline,
    BrightWhiteOnRed,
    BrightWhiteItalic,
    BrightGreen,
    BrightBlue,
    BrightMagenta,
    Dimmed,
}

/// A piece of text together with its tone.
#[derive(Debug)]
pub struct Styled {
    pub text: String,
    pub tone: Tone,
}

impl View for Styled {
    type V = (Tone, Seq<char>);

    open spec fn view(&self) -> (Tone, Seq<char>) {
        (self.tone, self.text@)
    }
}

/// The abstract form of a document: its segments' tones and texts.
pub open spec fn doc_view(doc: Seq<Styled>) -> Seq<(Tone, Seq<char>)> {
    doc.map_values(|s: Styled| s@)
}

/// A segment with the given tone and text.
pub fn seg(tone: Tone, text: &str) -> (r: Styled)
    ensures
        r@ == (tone, text@),
{
    Styled { text: String::from_str(text), tone }
}

/// A segment that takes ownership of its text.
pub fn seg_owned(tone: Tone, text: String) -> (r: Styled)
    ensures
        r@ == (tone, text@),
{
    Styled { text, tone }
}

/// Text without the escape character, which the terminal styling reserves.
pub open spec fn no_escape(s: Seq<char>) -> bool {
    forall|i: int| 0 <= i < s.len() ==> s[i] != '\u{1b}'
}

/// `out` shows `s`: when `s` holds no escape character, `out` is `s` with
/// (possibly empty) style codes before and after it.
pub open spec fn shows(out: Seq<char>, s: Seq<char>) -> bool {
    no_escape(s) ==> exists|pre: Seq<char>, post: Seq<char>| out == pre + s + post
}

/// The style code that `colored` writes before a text of the tone when it
/// colours: the escape character, `[`, the emphasis, the background and
/// the foreground codes joined by `;`, and `m`.
pub open spec fn tone_code(t: Tone) -> Seq<char> {
    match t {
        Tone::Plain => Seq::empty(),
        Tone::BrightBlack => "\u{1b}[90m"@,
        Tone::BrightCyan => "\u{1b}[96m"@,
        Tone::BrightCyanBold => "\u{1b}[1;96m"@,
        Tone::BrightRed => "\u{1b}[91m"@,
        Tone::BrightRedBold => "\u{1b}[1;91m"@,
        Tone::BrightYellow => "\u{1b}[93m"@,
        Tone::BrightWhite => "\u{1b}[97m"@,
        Tone::BrightWhiteBold => "\u{1b}[1;97m"@,
        Tone::BrightWhiteUnderline => "\u{1b}[4;97m"@,
        Tone::BrightWhiteOnRed => "\u{1b}[41;97m"@,
        Tone::BrightWhiteItalic => "\u{1b}[3;97m"@,
        Tone::BrightGreen => "\u{1b}[92m"@,
        Tone::BrightBlue => "\u{1b}[94m"@,
        Tone::BrightMagenta => "\u{1b}[95m"@,
        Tone::Dimmed => "\u{1b}[2m"@,
    }
}

/// The code that ends a coloured text.
pub open spec fn reset_code() -> Seq<char> {
    "\u{1b}[0m"@
}

/// `out` is `s` painted in the tone: a plain text as it is; any other text
/// without escape characters either as it is (when colours are off) or
/// between the tone's style code and the reset code.
pub open spec fn painted(out: Seq<char>, t: Tone, s: Seq<char>) -> bool {
    &&& t == Tone::Plain ==> out == s
    &&& no_escape(s) ==> (out == s || out == tone_code(t) + s + reset_code())
}

/// The concatenation of a sequence of texts.
pub open spec fn concat(parts: Seq<Seq<char>>) -> Seq<char>
    decreases parts.len(),
{
    if parts.len() == 0 {
        Seq::empty()
    } else {
        concat(parts.drop_last()) + parts.last()
    }
}

/// `out` is a rendering of the document `doc`: the concatenation of one
/// piece per segment, a plain segment rendered as its text and a coloured
/// one as its text with style codes around it.
pub open spec fn renders(out: Seq<char>, doc: Seq<(Tone, Seq<char>)>) -> bool {
    exists|parts: Seq<Seq<char>>|
        {
            &&& parts.len() == doc.len()
            &&& out == concat(parts)
            &&& forall|i: int|
                0 <= i < doc.len() ==> {
                    &&& doc[i].0 == Tone::Plain ==> #[trigger] parts[i] == doc[i].1
                    &&& shows(parts[i], doc[i].1)
                    &&& painted(parts[i], doc[i].0, doc[i].1)
                }
        }
}

/// Calls `Colorize` of the `colored` crate: `bright_black()`, then
/// `to_string`. Whether it colours depends on environment variables, so
/// the contract states that a text without escape characters comes out
/// either as it is or between the tone's style code and the reset code.
#[verifier::external_body]
fn paint_bright_black(s: &str) -> (r: String)
    ensures
        shows(r@, s@),
        painted(r@, Tone::BrightBlack, s@),
{
    s.bright_black().to_string()
}

/// Calls `Colorize` of the `colored` crate: `bright_cyan()`, then
/// `to_string`. Whether it colours depends on environment variables, so
/// the contract states that a text without escape characters comes out
/// either as it is or between the tone's style code and the reset code.
#[verifier::external_body]
fn paint_bright_cyan(s: &str) -> (r: String)
    ensures
        shows(r@, s@),
        painted(r@, Tone::BrightCyan, s@),
{
    s.bright_cyan().to_string()
}

/// Calls `Colorize` of the `colored` crate: `bright_cyan().bold()`, then
/// `to_string`. Whether it colours depends on environment variables, so
/// the contract states that a text without escape characters comes out
/// either as it is or between the tone's style code and the reset code.
#[verifier::external_body]
fn paint_bright_cyan_bold(s: &str) -> (r: String)
    ensures
        shows(r@, s@),
        painted(r@, Tone::BrightCyanBold, s@),
{
    s.bright_cyan().bold().to_string()
}

/// Calls `Colorize` of the `colored` crate: `bright_red()`, then
/// `to_string`. Whether it colours depends on environment variables, so
/// the contract states that a text without escape characters comes out
/// either as it is or between the tone's style code and the reset code.
#[verifier::external_body]
fn paint_bright_red(s: &str) -> (r: String)
    ensures
        shows(r@, s@),
        painted(r@, Tone::BrightRed, s@),
{
    s.bright_red().to_string()
}

/// Calls `Colorize` of the `colored` crate: `bright_red().bold()`, then
/// `to_string`. Whether it colours depends on environment variables, so
/// the contract states that a text without escape characters comes out
/// either as it is or between the tone's style code and the reset code.
#[verifier::external_body]
fn paint_bright_red_bold(s: &str) -> (r: String)
    ensures
        shows(r@, s@),
        painted(r@, Tone::BrightRedBold, s@),
{
    s.bright_red().bold().to_string()
}

/// Calls `Colorize` of the `colored` crate: `bright_yellow()`, then
/// `to_string`. Whether it colours depends on environment variables, so
/// the contract states that a text without escape characters comes out
/// either as it is or between the tone's style code and the reset code.
#[verifier::external_body]
fn paint_bright_yellow(s: &str) -> (r: String)
    ensures
        shows(r@, s@),
        painted(r@, Tone::BrightYellow, s@),
{
    s.bright_yellow().to_string()
}

/// Calls `Colorize` of the `colored` crate: `bright_white()`, then
/// `to_string`. Whether it colours depends on environment variables, so
/// the contract states that a text without escape characters comes out
/// either as it is or between the tone's style code and the reset code.
#[verifier::external_body]
fn paint_bright_white(s: &str) -> (r: String)
    ensures
        shows(r@, s@),
        painted(r@, Tone::BrightWhite, s@),
{
    s.bright_white().to_string()
}

/// Calls `Colorize` of the `colored` crate: `bright_white().bold()`, then
/// `to_string`. Whether it colours depends on environment variables, so
/// the contract states that a text without escape characters comes out
/// either as it is or between the tone's style code and the reset code.
#[verifier::external_body]
fn paint_bright_white_bold(s: &str) -> (r: String)
    ensures
        shows(r@, s@),
        painted(r@, Tone::BrightWhiteBold, s@),
{
    s.bright_white().bold().to_string()
}

/// Calls `Colorize` of the `colored` crate: `bright_white().underline()`, then
/// `to_string`. Whether it colours depends on environment variables, so
/// the contract states that a text without escape characters comes out
/// either as it is or between the tone's style code and the reset code.
#[verifier::external_body]
fn paint_bright_white_underline(s: &str) -> (r: String)
    ensures
        shows(r@, s@),
        painted(r@, Tone::BrightWhiteUnderline, s@),
{
    s.bright_white().underline().to_string()
}

/// Calls `Colorize` of the `colored` crate: `bright_white().on_red()`, then
/// `to_string`. Whether it colours depends on environment variables, so
/// the contract states that a text without escape characters comes out
/// either as it is or between the tone's style code and the reset code.
#[verifier::external_body]
fn paint_bright_white_on_red(s: &str) -> (r: String)
    ensures
        shows(r@, s@),
        painted(r@, Tone::BrightWhiteOnRed, s@),
{
    s.bright_white().on_red().to_string()
}

/// Calls `Colorize` of the `colored` crate: `bright_white().italic()`, then
/// `to_string`. Whether it colours depends on environment variables, so
/// the contract states that a text without escape characters comes out
/// either as it is or between the tone's style code and the reset code.
#[verifier::external_body]
fn paint_bright_white_italic(s: &str) -> (r: String)
    ensures
        shows(r@, s@),
        painted(r@, Tone::BrightWhiteItalic, s@),
{
    s.bright_white().italic().to_string()
}

/// Calls `Colorize` of the `colored` crate: `bright_green()`, then
/// `to_string`. Whether it colours depends on environment variables, so
/// the contract states that a text without escape characters comes out
/// either as it is or between the tone's style code and the reset code.
#[verifier::external_body]
fn paint_bright_green(s: &str) -> (r: String)
    ensures
        shows(r@, s@),
        painted(r@, Tone::BrightGreen, s@),
{
    s.bright_green().to_string()
}

/// Calls `Colorize` of the `colored` crate: `bright_blue()`, then
/// `to_string`. Whether it colours depends on environment variables, so
/// the contract states that a text without escape characters comes out
/// either as it is or between the tone's style code and the reset code.
#[verifier::external_body]
fn paint_bright_blue(s: &str) -> (r: String)
    ensures
        shows(r@, s@),
        painted(r@, Tone::BrightBlue, s@),
{
    s.bright_blue().to_string()
}

/// Calls `Colorize` of the `colored` crate: `bright_magenta()`, then
/// `to_string`. Whether it colours depends on environment variables, so
/// the contract states that a text without escape characters comes out
/// either as it is or between the tone's style code and the reset code.
#[verifier::external_body]
fn paint_bright_magenta(s: &str) -> (r: String)
    ensures
        shows(r@, s@),
        painted(r@, Tone::BrightMagenta, s@),
{
    s.bright_magenta().to_string()
}

/// Calls `Colorize` of the `colored` crate: `dimmed()`, then
/// `to_string`. Whether it colours depends on environment variables, so
/// the contract states that a text without escape characters comes out
/// either as it is or between the tone's style code and the reset code.
#[verifier::external_body]
fn paint_dimmed(s: &str) -> (r: String)
    ensures
        shows(r@, s@),
        painted(r@, Tone::Dimmed, s@),
{
    s.dimmed().to_string()
}

/// Renders one segment.
pub fn render_segment(s: &Styled) -> (r: String)
    ensures
        s.tone == Tone::Plain ==> r@ == s.text@,
        shows(r@, s.text@),
        painted(r@, s.tone, s.text@),
{
    let t = s.text.as_str();
    match s.tone {
        Tone::Plain => {
            let r = String::from_str(t);
            assert(shows(r@, t@)) by {
                assert(r@ == Seq::<char>::empty() + t@ + Seq::<char>::empty());
            }
            r
        },
        Tone::BrightBlack => paint_bright_black(t),
        Tone::BrightCyan => paint_bright_cyan(t),
        Tone::BrightCyanBold => paint_bright_cyan_bold(t),
        Tone::BrightRed => paint_bright_red(t),
        Tone::BrightRedBold => paint_bright_red_bold(t),
        Tone::BrightYellow => paint_bright_yellow(t),
        Tone::BrightWhite => paint_bright_white(t),
        Tone::BrightWhiteBold => paint_bright_white_bold(t),
        Tone::BrightWhiteUnderline => paint_bright_white_underline(t),
        Tone::BrightWhiteOnRed => paint_bright_white_on_red(t),
        Tone::BrightWhiteItalic => paint_bright_white_italic(t),
        Tone::BrightGreen => paint_bright_green(t),
        Tone::BrightBlue => paint_bright_blue(t),
        Tone::BrightMagenta => paint_bright_magenta(t),
        Tone::Dimmed => paint_dimmed(t),
    }
}

/// Renders a whole document, segment by segment.
pub fn render(doc: &Vec<Styled>) -> (r: String)
    ensures
        renders(r@, doc_view(doc@)),
{
    let mut out = String::new();
    let ghost mut parts: Seq<Seq<char>> = Seq::empty();
    let n = doc.len();
    let mut i: usize = 0;
    while i < n
        invariant
            n == doc@.len(),
            i <= n,
            parts.len() == i,
            out@ == concat(parts),
            forall|k: int|
                0 <= k < i ==> {
                    &&& doc@[k].tone == Tone::Plain ==> #[trigger] parts[k] == doc@[k].text@
                    &&& shows(parts[k], doc@[k].text@)
                    &&& painted(parts[k], doc@[k].tone, doc@[k].text@)
                },
        decreases n - i,
    {
        let piece = render_segment(&doc[i]);
        let ghost old_parts = parts;
        proof {
            parts = parts.push(piece@);
            assert(parts.drop_last() =~= old_parts);
        }
        out.append(piece.as_str());
        i = i + 1;
    }
    assert(renders(out@, doc_view(doc@))) by {
        let dv = doc_view(doc@);
        assert forall|k: int| 0 <= k < dv.len() implies {
            &&& dv[k].0 == Tone::Plain ==> #[trigger] parts[k] == dv[k].1
            &&& shows(parts[k], dv[k].1)
            &&& painted(parts[k], dv[k].0, dv[k].1)
        } by {
            assert(dv[k] == doc@[k]@);
        }
    }
    out
}

/// Each part of a concatenation is a stretch of it.
pub proof fn lemma_concat_part(parts: Seq<Seq<char>>, i: int)
    requires
        0 <= i < parts.len(),
    ensures
        has_substring(concat(parts), parts[i]),
    decreases parts.len(),
{
    let c = concat(parts);
    let front = concat(parts.drop_last());
    if i == parts.len() - 1 {
        assert(c.subrange(front.len() as int, (front.len() + parts[i].len()) as int) =~= parts[i]);
        assert(occurs_at(c, parts[i], front.len() as int));
    } else {
        lemma_concat_part(parts.drop_last(), i);
        assert(parts.drop_last()[i] == parts[i]);
        let k = choose|k: int| occurs_at(front, parts[i], k);
        assert(c.subrange(k, k + parts[i].len()) =~= front.subrange(k, k + parts[i].len()));
        assert(occurs_at(c, parts[i], k));
    }
}

/// A stretch of a stretch of a text is a stretch of the text.
pub proof fn lemma_substring_trans(a: Seq<char>, b: Seq<char>, c: Seq<char>)
    requires
        has_substring(a, b),
        has_substring(b, c),
    ensures
        has_substring(a, c),
{
    let i = choose|i: int| occurs_at(a, b, i);
    let j = choose|j: int| occurs_at(b, c, j);
    assert(a.subrange(i + j, i + j + c.len()) =~= b.subrange(j, j + c.len()));
    assert(occurs_at(a, c, i + j));
}

/// The text of a segment without escape characters appears in every
/// rendering of the document.
pub proof fn lemma_segment_shows(out: Seq<char>, doc: Seq<(Tone, Seq<char>)>, i: int)
    requires
        renders(out, doc),
        0 <= i < doc.len(),
        no_escape(doc[i].1),
    ensures
        has_substring(out, doc[i].1),
{
    let parts = choose|parts: Seq<Seq<char>>|
        {
            &&& parts.len() == doc.len()
            &&& out == concat(parts)
            &&& forall|i: int|
                0 <= i < doc.len() ==> {
                    &&& doc[i].0 == Tone::Plain ==> #[trigger] parts[i] == doc[i].1
                    &&& shows(parts[i], doc[i].1)
                }
        };
    assert(shows(parts[i], doc[i].1));
    let (pre, post) = choose|pre: Seq<char>, post: Seq<char>| parts[i] == pre + doc[i].1 + post;
    assert(parts[i].subrange(pre.len() as int, (pre.len() + doc[i].1.len()) as int) =~= doc[i].1);
    assert(occurs_at(parts[i], doc[i].1, pre.len() as int));
    lemma_concat_part(parts, i);
    lemma_substring_trans(out, parts[i], doc[i].1);
}

/// A segment that the document holds, without escape characters, appears in
/// every rendering of it.
pub proof fn lemma_held_segment_shows(out: Seq<char>, doc: Seq<(Tone, Seq<char>)>, seg: (Tone, Seq<char>))
    requires
        renders(out, doc),
        doc.contains(seg),
        no_escape(seg.1),
    ensures
        has_substring(out, seg.1),
{
    let i = choose|i: int| 0 <= i < doc.len() && doc[i] == seg;
    lemma_segment_shows(out, doc, i);
}

/// What either of two documents holds, their concatenation holds.
pub proof fn lemma_contains_add(a: Seq<(Tone, Seq<char>)>, b: Seq<(Tone, Seq<char>)>, x: (Tone, Seq<char>))
    ensures
        a.contains(x) ==> (a + b).contains(x),
        b.contains(x) ==> (a + b).contains(x),
{
    if a.contains(x) {
        let i = choose|i: int| 0 <= i < a.len() && a[i] == x;
        assert((a + b)[i] == x);
    }
    if b.contains(x) {
        let i = choose|i: int| 0 <= i < b.len() && b[i] == x;
        assert((a + b)[a.len() + i] == x);
    }
}

} // verus!
