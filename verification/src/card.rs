//! The layout of the card: which text is drawn where, and how large.
//!
//! Drawing takes a font, a canvas and fractional scales and is the caller's
//! work. The library decides what is drawn: it returns the texts of a card in
//! drawing order, each with the place of its top left corner and the height
//! of its font in pixels.

use crate::text::{
    append_decimal, append_padded, decimal, lemma_lines_bound, lines_of, padded, split_lines, texts,
};
use vstd::prelude::*;
use vstd::string::{StrSliceExecFns, StringExecFns};

verus! {

/// The bird that a card shows beside the report, line by line.
pub const BEAUTIFUL_BIRD: &'static str = "\n.`\n`@@,,                     ,*\n`@%@@@,            ,~-##`\n~@@#@%#@@,      #####\n  ~-%######@@@, #####\n     -%%#######@#####,\n       ~^^%##########@\n          >^#########@\n            `>#######`\n           .>######%\n          /###%^#%\n        /##%@#  `\n     ./######`\n   /.^`.#^#^`\n  `   ,#`#`#,\n     ,/ /` `\n   .*`\n";

/// The credit for the background picture.
pub const ATTRIBUTION: &'static str = "Red Sunset // Arkhyp Kuindzhi";

/// The colour of every text of a card, as red, green, blue and opacity.
pub const TEXT_COLOR: [u8; 4] = [255, 255, 255, 255];

/// The height in pixels of the font of the node's name.
pub const NAME_HEIGHT: u32 = 36;

/// The height in pixels of the font of the bird and of the report, which is
/// also the distance from one of their lines to the next.
pub const LINE_HEIGHT: u32 = 17;

/// The height in pixels of the font of the two captions.
pub const CAPTION_HEIGHT: u32 = 12;

/// A date and a time of day on the wall clock of the node.
#[derive(Debug, Clone, Copy, PartialEq, Eq)]
pub struct CivilTime {
    pub year: u16,
    pub month: u8,
    pub day: u8,
    pub hour: u8,
    pub minute: u8,
    pub second: u8,
}

/// One text of a card: the place of its top left corner, the height of its
/// font, and what it says.
#[derive(Debug, Clone, PartialEq, Eq)]
pub struct TextDraw {
    pub x: i32,
    pub y: i32,
    pub height: u32,
    pub text: String,
}

/// A text of a card as a mathematical value.
pub struct DrawView {
    pub x: int,
    pub y: int,
    pub height: nat,
    pub text: Seq<char>,
}

impl View for TextDraw {
    type V = DrawView;

    open spec fn view(&self) -> DrawView {
        DrawView { x: self.x as int, y: self.y as int, height: self.height as nat, text: self.text@ }
    }
}

/// The view of each text of a list.
pub open spec fn draws(items: Seq<TextDraw>) -> Seq<DrawView> {
    Seq::new(items.len(), |i: int| items[i]@)
}

/// A year as the card writes it: with four digits, and from the year 10000
/// on with a plus sign in front of its digits.
pub open spec fn year_text(year: u16) -> Seq<char> {
    if year < 10000 {
        padded(year as nat, 4)
    } else {
        "+"@ + decimal(year as nat)
    }
}

/// A moment as the card writes it: month, day and year with hyphens between
/// them, a space, then hour, minute and second with colons between them,
/// each of them but the year with two digits.
pub open spec fn stamp_text(t: CivilTime) -> Seq<char> {
    padded(t.month as nat, 2) + "-"@ + padded(t.day as nat, 2) + "-"@ + year_text(t.year) + " "@
        + padded(t.hour as nat, 2) + ":"@ + padded(t.minute as nat, 2) + ":"@ + padded(
        t.second as nat,
        2,
    )
}

/// The caption that says when the card was rendered.
pub open spec fn caption_text(t: CivilTime) -> Seq<char> {
    "rendered at "@ + stamp_text(t)
}

/// Lines of one column: each at `x`, the first at `top`, every next one a
/// line height further down.
pub open spec fn column(lines: Seq<Seq<char>>, x: int, top: int) -> Seq<DrawView> {
    Seq::new(lines.len(), |i: int| DrawView { x, y: top + 17 * i, height: 17, text: lines[i] })
}

/// The texts of a card in drawing order: the node's name, the bird, the
/// report, the caption with the time of rendering, and the credit. The
/// two captions stand 36 pixels above the lower edge, the credit 196 pixels
/// left of the right edge.
pub open spec fn card_layout(
    name: Seq<char>,
    report: Seq<char>,
    now: CivilTime,
    width: int,
    height: int,
) -> Seq<DrawView> {
    seq![DrawView { x: 32, y: 64, height: 36, text: name }] + column(
        lines_of(BEAUTIFUL_BIRD@),
        750,
        32,
    ) + column(lines_of(report), 32, 128) + seq![
        DrawView { x: 32, y: height - 36, height: 12, text: caption_text(now) },
        DrawView { x: width - 196, y: height - 36, height: 12, text: ATTRIBUTION@ },
    ]
}

/// The card can be laid out in 32-bit coordinates: its width and height fit,
/// and so does the place of the last line of the report.
pub open spec fn fits(report: Seq<char>, width: u32, height: u32) -> bool {
    &&& width <= i32::MAX
    &&& height <= i32::MAX
    &&& 128 + 17 * lines_of(report).len() <= i32::MAX
}

/// The bird has fewer than four hundred lines.
proof fn lemma_bird_is_short()
    ensures
        lines_of(BEAUTIFUL_BIRD@).len() <= 400,
{
    reveal_strlit("\n.`\n`@@,,                     ,*\n`@%@@@,            ,~-##`\n~@@#@%#@@,      #####\n  ~-%######@@@, #####\n     -%%#######@#####,\n       ~^^%##########@\n          >^#########@\n            `>#######`\n           .>######%\n          /###%^#%\n        /##%@#  `\n     ./######`\n   /.^`.#^#^`\n  `   ,#`#`#,\n     ,/ /` `\n   .*`\n");
    lemma_lines_bound(BEAUTIFUL_BIRD@);
}

/// Writes the caption that says when the card was rendered.
pub fn caption(now: &CivilTime) -> (r: String)
    ensures
        r@ == caption_text(*now),
{
    let mut out = "rendered at ".to_owned();
    let mut stamp = String::new();
    append_padded(&mut stamp, now.month as u128, 2);
    stamp.append("-");
    append_padded(&mut stamp, now.day as u128, 2);
    stamp.append("-");
    if now.year < 10000 {
        append_padded(&mut stamp, now.year as u128, 4);
    } else {
        stamp.append("+");
        append_decimal(&mut stamp, now.year as u128);
    }
    stamp.append(" ");
    append_padded(&mut stamp, now.hour as u128, 2);
    stamp.append(":");
    append_padded(&mut stamp, now.minute as u128, 2);
    stamp.append(":");
    append_padded(&mut stamp, now.second as u128, 2);
    out.append(stamp.as_str());
    out
}

/// Appends the lines of one column to a plan.
fn push_column(out: &mut Vec<TextDraw>, lines: &Vec<String>, x: i32, top: i32)
    requires
        0 <= top,
        top + 17 * lines@.len() <= i32::MAX,
    ensures
        draws(final(out)@) == draws(old(out)@) + column(texts(lines@), x as int, top as int),
{
    let ghost all = column(texts(lines@), x as int, top as int);
    let mut i: usize = 0;
    let mut y: i32 = top;
    while i < lines.len()
        invariant
            i <= lines@.len(),
            y == top + 17 * i,
            0 <= top,
            top + 17 * lines@.len() <= i32::MAX,
            all == column(texts(lines@), x as int, top as int),
            draws(out@) == draws(old(out)@) + all.take(i as int),
        decreases lines@.len() - i,
    {
        let draw = TextDraw { x, y, height: LINE_HEIGHT, text: lines[i].clone() };
        proof {
            assert(draws(old(out)@) + all.take(i as int) + seq![all[i as int]] =~= draws(
                old(out)@,
            ) + all.take(i as int + 1));
        }
        out.push(draw);
        y = y + 17;
        i = i + 1;
    }
}

/// Lays out a card whose report is already split into lines.
fn layout_lines(
    our: &str,
    lines: &Vec<String>,
    now: &CivilTime,
    width: u32,
    height: u32,
) -> (plan: Vec<TextDraw>)
    requires
        width <= i32::MAX,
        height <= i32::MAX,
        128 + 17 * lines@.len() <= i32::MAX,
    ensures
        forall|report: Seq<char>|
            lines_of(report) == texts(lines@) ==> draws(plan@) == #[trigger] card_layout(
                our@,
                report,
                *now,
                width as int,
                height as int,
            ),
{
    let bird = split_lines(BEAUTIFUL_BIRD);
    proof {
        lemma_bird_is_short();
    }
    let mut plan: Vec<TextDraw> = Vec::new();
    plan.push(TextDraw { x: 32, y: 64, height: NAME_HEIGHT, text: our.to_owned() });
    push_column(&mut plan, &bird, 750, 32);
    push_column(&mut plan, lines, 32, 128);
    let ghost body = draws(plan@);
    let low: i32 = height as i32 - 36;
    let right: i32 = width as i32 - 196;
    let stamp = TextDraw { x: 32, y: low, height: CAPTION_HEIGHT, text: caption(now) };
    let credit = TextDraw { x: right, y: low, height: CAPTION_HEIGHT, text: ATTRIBUTION.to_owned() };
    proof {
        assert(draws(plan@.push(stamp).push(credit)) =~= body + seq![stamp@, credit@]);
    }
    plan.push(stamp);
    plan.push(credit);
    plan
}

/// Lays out a card for the node `our` with the report `text`, rendered at
/// `now`, on a background of `width` by `height` pixels.
pub fn layout_card(our: &str, text: &str, now: &CivilTime, width: u32, height: u32) -> (plan: Vec<
    TextDraw,
>)
    requires
        fits(text@, width, height),
    ensures
        draws(plan@) == card_layout(our@, text@, *now, width as int, height as int),
{
    let lines = split_lines(text);
    layout_lines(our, &lines, now, width, height)
}

/// Lays out a card where it can be laid out in 32-bit coordinates, and says
/// so where it cannot.
pub fn plan_card(our: &str, text: &str, now: &CivilTime, width: u32, height: u32) -> (r: Option<
    Vec<TextDraw>,
>)
    ensures
        match r {
            Some(plan) => fits(text@, width, height) && draws(plan@) == card_layout(
                our@,
                text@,
                *now,
                width as int,
                height as int,
            ),
            None => !fits(text@, width, height),
        },
{
    let lines = split_lines(text);
    if width > 0x7fff_ffff || height > 0x7fff_ffff || lines.len() > 126_322_559 {
        return None;
    }
    Some(layout_lines(our, &lines, now, width, height))
}

} // verus!
