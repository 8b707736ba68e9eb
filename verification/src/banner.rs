//! The lines that frame a run on the terminal: titles, notes, the command
//! about to be launched and the divider before its output. Whether they
//! are coloured is the caller's to say, by the palette it hands over.

use crate::resolve::COLB_CONFIG_FILENAME;
use crate::text::concat;
use anstyle::{Ansi256Color, Color, Effects, Style};
use vstd::prelude::*;
use vstd::string::*;

verus! {

/// The colour of the frame, in the 16-colour palette: bright black.
pub const DECO_COLOR: u8 = 8;

/// The colour of a title, in the 16-colour palette: bright blue.
pub const HEADER_COLOR: u8 = 12;

/// The escape sequence that anstyle renders to switch a style on, the
/// style having the foreground colour `fg` of the 16-colour palette (none
/// where `fg` is above 15) and being bold or not.
pub uninterp spec fn style_code(bold: bool, fg: u8) -> Seq<char>;

/// The escape sequence that anstyle renders to switch that style off.
pub uninterp spec fn style_reset(bold: bool, fg: u8) -> Seq<char>;

/// Calls anstyle's `Style::render` on the style with the foreground colour
/// `fg` of the 16-colour palette and the effect bold as given, and collects
/// what it writes. The contract claims only that the text is a function of
/// the two arguments.
#[verifier::external_body]
fn render_style(bold: bool, fg: u8) -> (code: String)
    ensures
        code@ == style_code(bold, fg),
{
    let color = Ansi256Color(fg).into_ansi().map(Color::Ansi);
    let style = Style::new().fg_color(color).effects(Effects::new().set(Effects::BOLD, bold));
    format!("{}", style.render())
}

/// Calls anstyle's `Style::render_reset` on the same style, and collects
/// what it writes. The contract claims only that the text is a function of
/// the two arguments.
#[verifier::external_body]
fn render_reset(bold: bool, fg: u8) -> (code: String)
    ensures
        code@ == style_reset(bold, fg),
{
    let color = Ansi256Color(fg).into_ansi().map(Color::Ansi);
    let style = Style::new().fg_color(color).effects(Effects::new().set(Effects::BOLD, bold));
    format!("{}", style.render_reset())
}

/// The escape sequences of a palette, as mathematical values.
pub struct Colours {
    pub deco: Seq<char>,
    pub deco_off: Seq<char>,
    pub header: Seq<char>,
    pub header_off: Seq<char>,
}

/// The escape sequences that switch the two styles of the banners on and
/// off: the frame's and the title's. All four are empty where the output
/// is not coloured.
pub struct Palette {
    deco: String,
    deco_off: String,
    header: String,
    header_off: String,
}

impl View for Palette {
    type V = Colours;

    closed spec fn view(&self) -> Colours {
        Colours {
            deco: self.deco@,
            deco_off: self.deco_off@,
            header: self.header@,
            header_off: self.header_off@,
        }
    }
}

/// The palette of uncoloured output.
pub open spec fn plain_colours() -> Colours {
    Colours {
        deco: Seq::empty(),
        deco_off: Seq::empty(),
        header: Seq::empty(),
        header_off: Seq::empty(),
    }
}

/// The palette of coloured output: a bright black frame and bold, bright
/// blue titles.
pub open spec fn ansi_colours() -> Colours {
    Colours {
        deco: style_code(false, DECO_COLOR),
        deco_off: style_reset(false, DECO_COLOR),
        header: style_code(true, HEADER_COLOR),
        header_off: style_reset(true, HEADER_COLOR),
    }
}

impl Palette {
    /// The palette of uncoloured output.
    pub fn plain() -> (palette: Palette)
        ensures
            palette@ == plain_colours(),
    {
        Palette {
            deco: String::new(),
            deco_off: String::new(),
            header: String::new(),
            header_off: String::new(),
        }
    }

    /// The palette of coloured output.
    pub fn ansi() -> (palette: Palette)
        ensures
            palette@ == ansi_colours(),
    {
        Palette {
            deco: render_style(false, DECO_COLOR),
            deco_off: render_reset(false, DECO_COLOR),
            header: render_style(true, HEADER_COLOR),
            header_off: render_reset(true, HEADER_COLOR),
        }
    }

    /// The palette for an output that is a terminal, or is not.
    pub fn for_output(is_terminal: bool) -> (palette: Palette)
        ensures
            palette@ == (if is_terminal {
                ansi_colours()
            } else {
                plain_colours()
            }),
    {
        if is_terminal {
            Palette::ansi()
        } else {
            Palette::plain()
        }
    }
}

/// The line of a title: the title, in its style, in a frame.
pub open spec fn header_text(title: Seq<char>, colours: Colours) -> Seq<char> {
    colours.deco + "┌["@ + colours.deco_off + " "@ + colours.header + title + colours.header_off
        + " "@ + colours.deco + "]"@ + colours.deco_off
}

/// The line of a note under a title: an arrow in the frame's style, a
/// space and the note.
pub open spec fn context_text(note: Seq<char>, colours: Colours) -> Seq<char> {
    colours.deco + "└>"@ + colours.deco_off + " "@ + note
}

/// The line that divides a command from its output.
pub open spec fn divider_text(colours: Colours) -> Seq<char> {
    colours.deco + "[ \\ \\ \\"@ + colours.deco_off + " Output "@ + colours.deco + "/ / / ]"@
        + colours.deco_off
}

/// The note on a workspace: its path and whether it has a configuration
/// file.
pub open spec fn workspace_note_text(workspace: Seq<char>, configured: bool) -> Seq<char> {
    if configured {
        workspace + " (Using configuration from "@ + COLB_CONFIG_FILENAME@ + ")"@
    } else {
        workspace + " (Unconfigured)"@
    }
}

/// Writes the line of a title.
pub fn header(title: &str, palette: &Palette) -> (line: String)
    ensures
        line@ == header_text(title@, palette@),
{
    let mut line = concat(palette.deco.as_str(), "┌[");
    line.append(palette.deco_off.as_str());
    line.append(" ");
    line.append(palette.header.as_str());
    line.append(title);
    line.append(palette.header_off.as_str());
    line.append(" ");
    line.append(palette.deco.as_str());
    line.append("]");
    line.append(palette.deco_off.as_str());
    line
}

/// Writes the line of a note under a title.
pub fn context(note: &str, palette: &Palette) -> (line: String)
    ensures
        line@ == context_text(note@, palette@),
{
    let mut line = concat(palette.deco.as_str(), "└>");
    line.append(palette.deco_off.as_str());
    line.append(" ");
    line.append(note);
    line
}

/// Writes the line that shows a command: as a note, since the command is
/// what follows from the title above it.
pub fn command_arrow(command: &str, palette: &Palette) -> (line: String)
    ensures
        line@ == context_text(command@, palette@),
{
    context(command, palette)
}

/// Writes the line that divides a command from its output.
pub fn divider(palette: &Palette) -> (line: String)
    ensures
        line@ == divider_text(palette@),
{
    let mut line = concat(palette.deco.as_str(), "[ \\ \\ \\");
    line.append(palette.deco_off.as_str());
    line.append(" Output ");
    line.append(palette.deco.as_str());
    line.append("/ / / ]");
    line.append(palette.deco_off.as_str());
    line
}

/// Writes the note on a workspace.
pub fn workspace_note(workspace: &str, configured: bool) -> (note: String)
    ensures
        note@ == workspace_note_text(workspace@, configured),
{
    if configured {
        let mut note = concat(workspace, " (Using configuration from ");
        note.append(COLB_CONFIG_FILENAME);
        note.append(")");
        note
    } else {
        concat(workspace, " (Unconfigured)")
    }
}

/// Without colours the lines hold nothing but the frame and the text: a
/// title stands between `┌[ ` and ` ]`, a note behind `└> `.
pub proof fn lemma_plain_lines_are_bare(text: Seq<char>)
    ensures
        header_text(text, plain_colours()) == "┌["@ + " "@ + text + " "@ + "]"@,
        context_text(text, plain_colours()) == "└>"@ + " "@ + text,
        divider_text(plain_colours()) == "[ \\ \\ \\"@ + " Output "@ + "/ / / ]"@,
{
    assert(header_text(text, plain_colours()) =~= "┌["@ + " "@ + text + " "@ + "]"@);
    assert(context_text(text, plain_colours()) =~= "└>"@ + " "@ + text);
    assert(divider_text(plain_colours()) =~= "[ \\ \\ \\"@ + " Output "@ + "/ / / ]"@);
}

} // verus!
