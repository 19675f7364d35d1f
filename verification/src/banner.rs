//! The start-up banner, line by line.
use vstd::prelude::*;

use owo_colors::{OwoColorize, Rgb};

use crate::startup::{local_url, local_url_text};
use crate::text::decimal_text;

verus! {

/// `text` in bold, as `owo_colors` writes it: the ANSI bold code before it
/// and the reset code after it.
pub open spec fn bold_text(text: Seq<char>) -> Seq<char> {
    "\u{1b}[1m"@ + text + "\u{1b}[0m"@
}

/// `text` in the 24-bit colour (`red`, `green`, `blue`), as `owo_colors`
/// writes it: the foreground code with the three components in decimal
/// before it and the default-foreground code after.
pub open spec fn rgb_text(text: Seq<char>, red: u8, green: u8, blue: u8) -> Seq<char> {
    "\u{1b}[38;2;"@ + decimal_text(red as nat) + ";"@ + decimal_text(green as nat) + ";"@
        + decimal_text(blue as nat) + "m"@ + text + "\u{1b}[39m"@
}

/// `text` in the banner's orange, RGB EA 58 0C.
pub open spec fn orange_text(text: Seq<char>) -> Seq<char> {
    rgb_text(text, 0xEA, 0x58, 0x0C)
}

/// Calls `OwoColorize::bold` on `text` and writes the result out. The
/// contract states the escape codes that `owo_colors`' `BoldDisplay` writes
/// around the text.
#[verifier::external_body]
fn paint_bold(text: &str) -> (r: String)
    ensures
        r@ == bold_text(text@),
{
    text.bold().to_string()
}

/// Calls `OwoColorize::color` with `Rgb(red, green, blue)` on `text` and
/// writes the result out. The contract states the escape codes that
/// `owo_colors` writes for an RGB foreground colour around the text.
#[verifier::external_body]
fn paint_rgb(text: &str, red: u8, green: u8, blue: u8) -> (r: String)
    ensures
        r@ == rgb_text(text@, red, green, blue),
{
    text.color(Rgb(red, green, blue)).to_string()
}

/// `text` in the banner's orange.
fn paint_orange(text: &str) -> (r: String)
    ensures
        r@ == orange_text(text@),
{
    paint_rgb(text, 0xEA, 0x58, 0x0C)
}

/// The terminal is too narrow for the boxed banner: narrower than 80
/// columns, or of unknown width.
pub open spec fn is_narrow(width: Option<u16>) -> bool {
    match width {
        Some(w) => w < 80,
        None => true,
    }
}

/// A label in bold, left-aligned in nine columns.
pub open spec fn label(padded: Seq<char>) -> Seq<char> {
    "  "@ + bold_text(padded) + "  "@
}

/// The banner's lines for version `version`, the upstream `project` and
/// `location`, the gateway on `port`, a terminal `width` columns wide and an
/// optional update notice (version, release page).
pub open spec fn banner_text(
    version: Seq<char>,
    project: Seq<char>,
    location: Seq<char>,
    port: u16,
    width: Option<u16>,
    notice: Option<(Seq<char>, Seq<char>)>,
) -> Seq<Seq<char>> {
    let url = local_url_text(port);
    if is_narrow(width) {
        let first = seq!["cram "@ + version + " · vertex · "@ + location + " · "@ + url];
        match notice {
            Some((ver, rel_url)) => first.push("  update     "@ + ver + " available → "@ + rel_url),
            None => first,
        }
    } else {
        let head = seq![
            Seq::empty(),
            "   "@ + orange_text("╭─────────╮"@),
            "   "@ + "│  "@ + bold_text(orange_text("c r a m"@)) + " │  "@ + version,
            "   "@ + orange_text("╰─────────╯"@),
            Seq::empty(),
            label("gateway  "@) + url,
            label("dashboard"@) + url + "/_cram/"@,
            label("upstream "@) + "vertex · "@ + project + " · "@ + location,
        ];
        let tail = seq![Seq::empty(), "  waiting for requests… (ctrl-c to stop)"@, Seq::empty()];
        match notice {
            Some((ver, rel_url)) => head.push(label("update   "@) + ver + " available → "@ + rel_url)
                + tail,
            None => head + tail,
        }
    }
}

pub open spec fn lines_text(v: Seq<String>) -> Seq<Seq<char>> {
    v.map_values(|s: String| s@)
}

pub open spec fn opt_notice_text(o: Option<(String, String)>) -> Option<(Seq<char>, Seq<char>)> {
    match o {
        Some(p) => Some((p.0@, p.1@)),
        None => None,
    }
}

fn concat4(a: &str, b: &str, c: &str, d: &str) -> (r: String)
    ensures
        r@ == a@ + b@ + c@ + d@,
{
    String::from_str(a).concat(b).concat(c).concat(d)
}

fn label_line(padded: &str, rest: &str) -> (r: String)
    ensures
        r@ == label(padded@) + rest@,
{
    let b = paint_bold(padded);
    concat4("  ", b.as_str(), "  ", rest)
}

fn push_line(lines: &mut Vec<String>, line: String)
    ensures
        lines_text(final(lines)@) == lines_text(old(lines)@).push(line@),
{
    lines.push(line);
    assert(lines_text(lines@) =~= lines_text(old(lines)@).push(line@));
}

/// The lines of the start-up banner (see `banner_text`).
pub fn banner_lines(
    version: &str,
    project: &str,
    location: &str,
    port: u16,
    terminal_width: Option<u16>,
    update_notice: &Option<(String, String)>,
) -> (r: Vec<String>)
    ensures
        lines_text(r@) == banner_text(
            version@,
            project@,
            location@,
            port,
            terminal_width,
            opt_notice_text(*update_notice),
        ),
{
    let url = local_url(port);
    let mut lines: Vec<String> = Vec::new();
    assert(lines_text(lines@) =~= Seq::<Seq<char>>::empty());
    let narrow = match terminal_width {
        Some(w) => w < 80,
        None => true,
    };
    if narrow {
        let mut first = String::from_str("cram ");
        first.append(version);
        first.append(" · vertex · ");
        first.append(location);
        first.append(" · ");
        first.append(url.as_str());
        push_line(&mut lines, first);
        if let Some((ver, rel_url)) = update_notice {
            let mut line = String::from_str("  update     ");
            line.append(ver.as_str());
            line.append(" available → ");
            line.append(rel_url.as_str());
            push_line(&mut lines, line);
        }
        assert(lines_text(lines@) =~= banner_text(
            version@,
            project@,
            location@,
            port,
            terminal_width,
            opt_notice_text(*update_notice),
        ));
        return lines;
    }
    let top = paint_orange("╭─────────╮");
    let name = paint_orange("c r a m");
    let name_bold = paint_bold(name.as_str());
    let bottom = paint_orange("╰─────────╯");
    push_line(&mut lines, String::new());
    push_line(&mut lines, String::from_str("   ").concat(top.as_str()));
    push_line(&mut lines, concat4("   ", "│  ", name_bold.as_str(), " │  ").concat(version));
    push_line(&mut lines, String::from_str("   ").concat(bottom.as_str()));
    push_line(&mut lines, String::new());
    push_line(&mut lines, label_line("gateway  ", url.as_str()));
    let dash = String::from_str(url.as_str()).concat("/_cram/");
    push_line(&mut lines, label_line("dashboard", dash.as_str()));
    let upstream = concat4("vertex · ", project, " · ", location);
    push_line(&mut lines, label_line("upstream ", upstream.as_str()));
    if let Some((ver, rel_url)) = update_notice {
        let text = concat4(ver.as_str(), " available → ", rel_url.as_str(), "");
        push_line(&mut lines, label_line("update   ", text.as_str()));
    }
    push_line(&mut lines, String::new());
    push_line(&mut lines, String::from_str("  waiting for requests… (ctrl-c to stop)"));
    push_line(&mut lines, String::new());
    proof {
        reveal_strlit("");
    }
    assert(lines_text(lines@) =~~= banner_text(
        version@,
        project@,
        location@,
        port,
        terminal_width,
        opt_notice_text(*update_notice),
    ));
    lines
}

} // verus!
