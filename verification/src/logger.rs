//! The diagnostic sink: one line per record, always to the serial line and,
//! once a text surface exists, to the framebuffer as well.

use vstd::prelude::*;
use crate::framebuffer::{Color, FramebufferDisplay};
use crate::framebuffer_term::{written_str, FramebufferTextRender};

verus! {

/// The severity of a log record.
#[derive(Clone, Copy, Debug, PartialEq, Eq, Structural)]
pub enum Level {
    Error,
    Warn,
    Info,
    Debug,
    Trace,
}

/// `String::push` appends the character to the end of the string.
pub assume_specification[ String::push ](text: &mut String, ch: char)
    ensures
        final(text)@ == old(text)@.push(ch),
;

/// `String::push_str` appends the string slice to the end of the string.
pub assume_specification[ String::push_str ](text: &mut String, tail: &str)
    ensures
        final(text)@ == old(text)@ + tail@,
;

/// The name of a level, as `log::Level::as_str` gives it.
pub open spec fn level_name(level: Level) -> Seq<char> {
    match level {
        Level::Error => "ERROR"@,
        Level::Warn => "WARN"@,
        Level::Info => "INFO"@,
        Level::Debug => "DEBUG"@,
        Level::Trace => "TRACE"@,
    }
}

/// `log::Level::as_str` gives the name of the level in capital letters.
#[verifier::external_body]
fn level_as_str(level: Level) -> (name: &'static str)
    ensures
        name@ == level_name(level),
{
    match level {
        Level::Error => log::Level::Error,
        Level::Warn => log::Level::Warn,
        Level::Info => log::Level::Info,
        Level::Debug => log::Level::Debug,
        Level::Trace => log::Level::Trace,
    }.as_str()
}

/// The web colour "tomato" of `embedded_graphics_core`.
#[verifier::external_body]
fn css_tomato() -> (color: Color)
    ensures
        color == (Color { r: 255, g: 99, b: 71 }),
{
    let color = <embedded_graphics_core::pixelcolor::Rgb888 as embedded_graphics_core::pixelcolor::WebColors>::CSS_TOMATO;
    Color {
        r: embedded_graphics_core::pixelcolor::RgbColor::r(&color),
        g: embedded_graphics_core::pixelcolor::RgbColor::g(&color),
        b: embedded_graphics_core::pixelcolor::RgbColor::b(&color),
    }
}

/// The web colour "light salmon" of `embedded_graphics_core`.
#[verifier::external_body]
fn css_light_salmon() -> (color: Color)
    ensures
        color == (Color { r: 255, g: 160, b: 122 }),
{
    let color = <embedded_graphics_core::pixelcolor::Rgb888 as embedded_graphics_core::pixelcolor::WebColors>::CSS_LIGHT_SALMON;
    Color {
        r: embedded_graphics_core::pixelcolor::RgbColor::r(&color),
        g: embedded_graphics_core::pixelcolor::RgbColor::g(&color),
        b: embedded_graphics_core::pixelcolor::RgbColor::b(&color),
    }
}

/// The web colour "antique white" of `embedded_graphics_core`.
#[verifier::external_body]
fn css_antique_white() -> (color: Color)
    ensures
        color == (Color { r: 250, g: 235, b: 215 }),
{
    let color = <embedded_graphics_core::pixelcolor::Rgb888 as embedded_graphics_core::pixelcolor::WebColors>::CSS_ANTIQUE_WHITE;
    Color {
        r: embedded_graphics_core::pixelcolor::RgbColor::r(&color),
        g: embedded_graphics_core::pixelcolor::RgbColor::g(&color),
        b: embedded_graphics_core::pixelcolor::RgbColor::b(&color),
    }
}

/// The web colour "azure" of `embedded_graphics_core`.
#[verifier::external_body]
fn css_azure() -> (color: Color)
    ensures
        color == (Color { r: 240, g: 255, b: 255 }),
{
    let color = <embedded_graphics_core::pixelcolor::Rgb888 as embedded_graphics_core::pixelcolor::WebColors>::CSS_AZURE;
    Color {
        r: embedded_graphics_core::pixelcolor::RgbColor::r(&color),
        g: embedded_graphics_core::pixelcolor::RgbColor::g(&color),
        b: embedded_graphics_core::pixelcolor::RgbColor::b(&color),
    }
}

/// The letter that marks a line of a level: the first letter of its name.
pub open spec fn spec_level_tag(level: Level) -> char {
    match level {
        Level::Error => 'E',
        Level::Warn => 'W',
        Level::Info => 'I',
        Level::Debug => 'D',
        Level::Trace => 'T',
    }
}

/// The letter that marks a line of a level: the first letter of its name.
pub fn level_tag(level: Level) -> (tag: char)
    ensures
        tag == spec_level_tag(level),
{
    let name = level_as_str(level);
    proof {
        reveal_strlit("ERROR");
        reveal_strlit("WARN");
        reveal_strlit("INFO");
        reveal_strlit("DEBUG");
        reveal_strlit("TRACE");
    }
    name.get_char(0)
}

/// The colour a line of a level has on the framebuffer.
pub open spec fn spec_level_color(level: Level) -> Color {
    match level {
        Level::Error => Color { r: 255, g: 99, b: 71 },
        Level::Warn => Color { r: 255, g: 160, b: 122 },
        Level::Info => Color { r: 255, g: 255, b: 255 },
        Level::Debug => Color { r: 250, g: 235, b: 215 },
        Level::Trace => Color { r: 240, g: 255, b: 255 },
    }
}

/// The colour a line of a level has on the framebuffer: tomato for errors,
/// light salmon for warnings, white for information, antique white for
/// debugging and azure for traces.
pub fn level_color(level: Level) -> (color: Color)
    ensures
        color == spec_level_color(level),
{
    match level {
        Level::Error => css_tomato(),
        Level::Warn => css_light_salmon(),
        Level::Info => Color::white(),
        Level::Debug => css_antique_white(),
        Level::Trace => css_azure(),
    }
}

/// The line of a record: the tag of the level in square brackets, a space,
/// the message and a line feed.
pub open spec fn spec_format_line(level: Level, message: Seq<char>) -> Seq<char> {
    seq!['[', spec_level_tag(level), ']', ' '] + message + seq!['\n']
}

/// Formats the line of a record.
pub fn format_line(level: Level, message: &str) -> (line: String)
    ensures
        line@ == spec_format_line(level, message@),
{
    let mut line = String::new();
    line.push('[');
    line.push(level_tag(level));
    line.push(']');
    line.push(' ');
    line.push_str(message);
    line.push('\n');
    assert(line@ == spec_format_line(level, message@));
    line
}

/// Where a record goes.
#[derive(Clone, Copy, Debug, PartialEq, Eq, Structural)]
pub struct Targets {
    /// The line is written to the serial line.
    pub serial: bool,
    /// The line is written to the text surface on the framebuffer.
    pub terminal: bool,
}

/// Decides where a record goes: always to the serial line, and to the
/// framebuffer as well if there is a text surface and the logger is not in
/// use already, which would be the case inside a handler that interrupted
/// it. The framebuffer is skipped silently.
pub fn targets(logger_locked: bool, has_terminal: bool) -> (result: Targets)
    ensures
        result == (Targets { serial: true, terminal: !logger_locked && has_terminal }),
{
    Targets { serial: true, terminal: !logger_locked && has_terminal }
}

/// The logger of the kernel: the text surface on the framebuffer, once there
/// is one.
pub struct DefaultLogger {
    term: Option<FramebufferTextRender>,
}

impl DefaultLogger {
    /// The text surface of the logger, if it has one.
    pub closed spec fn terminal(self) -> Option<FramebufferTextRender> {
        self.term
    }

    /// A logger that writes to `term`, if there is one.
    pub fn new(term: Option<FramebufferTextRender>) -> (logger: DefaultLogger)
        ensures
            logger.terminal() == term,
    {
        DefaultLogger { term }
    }

    /// Gives the logger a text surface on the framebuffer.
    pub fn reinit_with_framebuffer_term(&mut self, term: FramebufferTextRender)
        ensures
            final(self).terminal() == Some(term),
    {
        self.term = Some(term);
    }

    /// Tells whether the logger has a text surface.
    pub fn has_terminal(&self) -> (has: bool)
        ensures
            has == self.terminal() is Some,
    {
        self.term.is_some()
    }

    /// Writes `text` to the text surface in `color`, if there is one.
    pub fn write_colored(&mut self, framebuffer: &mut FramebufferDisplay, text: &str, color: Color)
        ensures
            match old(self).terminal() {
                Some(term) => final(self).terminal() matches Some(after) && after.surface(
                    *final(framebuffer),
                ) == written_str(
                    term.surface(*old(framebuffer)),
                    text@,
                    color,
                    old(framebuffer).geometry(),
                    old(framebuffer).wf(),
                    term.background(),
                ) && after.background() == term.background(),
                None => final(self).terminal() is None && final(framebuffer)@ == old(framebuffer)@,
            },
            final(framebuffer).geometry() == old(framebuffer).geometry(),
    {
        let mut term = None;
        core::mem::swap(&mut self.term, &mut term);
        match term {
            Some(mut surface) => {
                surface.write_str_colored(framebuffer, text, color);
                self.term = Some(surface);
            },
            None => {},
        }
    }

    /// Writes `text` to the text surface in white, if there is one.
    pub fn print(&mut self, framebuffer: &mut FramebufferDisplay, text: &str)
        ensures
            match old(self).terminal() {
                Some(term) => final(self).terminal() matches Some(after) && after.surface(
                    *final(framebuffer),
                ) == written_str(
                    term.surface(*old(framebuffer)),
                    text@,
                    Color { r: 255, g: 255, b: 255 },
                    old(framebuffer).geometry(),
                    old(framebuffer).wf(),
                    term.background(),
                ) && after.background() == term.background(),
                None => final(self).terminal() is None && final(framebuffer)@ == old(framebuffer)@,
            },
            final(framebuffer).geometry() == old(framebuffer).geometry(),
    {
        self.write_colored(framebuffer, text, Color::white());
    }

    /// Logs a record on the framebuffer: its line is written to the text
    /// surface in the colour of its level. The line is handed back for the
    /// serial line.
    pub fn log(&mut self, framebuffer: &mut FramebufferDisplay, level: Level, message: &str) -> (line:
        String)
        ensures
            line@ == spec_format_line(level, message@),
            match old(self).terminal() {
                Some(term) => final(self).terminal() matches Some(after) && after.surface(
                    *final(framebuffer),
                ) == written_str(
                    term.surface(*old(framebuffer)),
                    line@,
                    spec_level_color(level),
                    old(framebuffer).geometry(),
                    old(framebuffer).wf(),
                    term.background(),
                ) && after.background() == term.background(),
                None => final(self).terminal() is None && final(framebuffer)@ == old(framebuffer)@,
            },
            final(framebuffer).geometry() == old(framebuffer).geometry(),
    {
        let line = format_line(level, message);
        self.write_colored(framebuffer, line.as_str(), level_color(level));
        line
    }
}

} // verus!
