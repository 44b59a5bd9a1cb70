use vstd::prelude::*;

use crate::http::Response;
use crate::strutil::{dec_of, u16_to_dec};

verus! {

/// A foreground color for terminal output.
#[derive(Clone, Copy, PartialEq, Eq, Structural, Debug)]
pub enum Color {
    Cyan,
    Green,
    Blue,
    White,
}

/// A text segment with associated styling.
pub struct StyledSegment {
    pub text: String,
    pub color: Option<Color>,
    pub bold: bool,
    pub italic: bool,
}

impl StyledSegment {
    /// Create a new styled segment with just text (no styling).
    pub fn new(text: &str) -> (r: Self)
        ensures
            r.text@ == text@,
            r.color is None,
            !r.bold,
            !r.italic,
    {
        StyledSegment { text: String::from_str(text), color: None, bold: false, italic: false }
    }

    /// Set the color.
    pub fn color(self, color: Color) -> (r: Self)
        ensures
            r.text == self.text,
            r.color == Some(color),
            r.bold == self.bold,
            r.italic == self.italic,
    {
        let StyledSegment { text, color: _, bold, italic } = self;
        StyledSegment { text, color: Some(color), bold, italic }
    }

    /// Make the text bold.
    pub fn bold(self) -> (r: Self)
        ensures
            r.text == self.text,
            r.color == self.color,
            r.bold,
            r.italic == self.italic,
    {
        let StyledSegment { text, color, bold: _, italic } = self;
        StyledSegment { text, color, bold: true, italic }
    }

    /// Make the text italic.
    pub fn italic(self) -> (r: Self)
        ensures
            r.text == self.text,
            r.color == self.color,
            r.bold == self.bold,
            r.italic,
    {
        let StyledSegment { text, color, bold, italic: _ } = self;
        StyledSegment { text, color, bold, italic: true }
    }

    /// Add one space.
    pub fn space(self) -> (r: Self)
        ensures
            r.text@ == self.text@ + " "@,
            r.color == self.color,
            r.bold == self.bold,
            r.italic == self.italic,
    {
        let StyledSegment { mut text, color, bold, italic } = self;
        text.append(" ");
        StyledSegment { text, color, bold, italic }
    }

    /// Add a newline.
    pub fn newline(self) -> (r: Self)
        ensures
            r.text@ == self.text@ + "\n"@,
            r.color == self.color,
            r.bold == self.bold,
            r.italic == self.italic,
    {
        let StyledSegment { mut text, color, bold, italic } = self;
        text.append("\n");
        StyledSegment { text, color, bold, italic }
    }
}

/// A line composed of multiple styled segments.
pub struct StyledLine {
    pub segments: Vec<StyledSegment>,
}

impl StyledLine {
    /// Create a new empty styled line.
    pub fn new() -> (r: Self)
        ensures
            r.segments@.len() == 0,
    {
        StyledLine { segments: Vec::new() }
    }

    /// Add a segment to the line.
    pub fn add(self, segment: StyledSegment) -> (r: Self)
        ensures
            r.segments@ == self.segments@.push(segment),
    {
        let StyledLine { mut segments } = self;
        segments.push(segment);
        StyledLine { segments }
    }
}

/// A segment with this text and no styling.
pub open spec fn is_plain(seg: StyledSegment, text: Seq<char>) -> bool {
    seg.text@ == text && seg.color is None && !seg.bold && !seg.italic
}

/// A segment with this text, color, weight and slant.
pub open spec fn is_styled(
    seg: StyledSegment,
    text: Seq<char>,
    color: Color,
    bold: bool,
    italic: bool,
) -> bool {
    seg.text@ == text && seg.color == Some(color) && seg.bold == bold && seg.italic == italic
}

/// The verbose echo line: the method highlighted, then the URL.
pub open spec fn is_request_line(l: StyledLine, method: Seq<char>, url: Seq<char>) -> bool {
    &&& l.segments@.len() == 2
    &&& is_styled(l.segments@[0], method + " "@, Color::Cyan, true, false)
    &&& is_styled(l.segments@[1], url, Color::White, false, false)
}

/// The status line: the word Status, the code highlighted, and the reason
/// phrase.
pub open spec fn is_status_line(l: StyledLine, status: u16, message: Seq<char>) -> bool {
    &&& l.segments@.len() == 3
    &&& is_styled(l.segments@[0], "Status"@ + " "@, Color::Green, false, false)
    &&& is_styled(l.segments@[1], dec_of(status as nat) + " "@, Color::Blue, true, false)
    &&& is_styled(l.segments@[2], message, Color::Green, false, false)
}

/// The Content-Type line: the header name, then its value unstyled.
pub open spec fn is_content_type_line(l: StyledLine, value: Seq<char>) -> bool {
    &&& l.segments@.len() == 2
    &&& is_styled(l.segments@[0], "Content-Type"@ + " "@, Color::Green, false, false)
    &&& is_plain(l.segments@[1], value)
}

/// The body line: the formatted body as one unstyled segment.
pub open spec fn is_body_line(l: StyledLine, body: Seq<char>) -> bool {
    l.segments@.len() == 1 && is_plain(l.segments@[0], body)
}

/// Lays out the verbose echo of the request.
pub fn display_request(method: &str, url: &str) -> (r: StyledLine)
    ensures
        is_request_line(r, method@, url@),
{
    StyledLine::new().add(StyledSegment::new(method).color(Color::Cyan).bold().space()).add(
        StyledSegment::new(url).color(Color::White),
    )
}

/// Lays out the HTTP status code and message line.
pub fn display_status(status: u16, status_message: &str) -> (r: StyledLine)
    ensures
        is_status_line(r, status, status_message@),
{
    let code = u16_to_dec(status);
    StyledLine::new().add(StyledSegment::new("Status").color(Color::Green).space()).add(
        StyledSegment::new(code.as_str()).color(Color::Blue).bold().space(),
    ).add(StyledSegment::new(status_message).color(Color::Green))
}

/// Lays out the Content-Type header line, when the response carries one.
pub fn display_content_type(response: &Response) -> (r: Option<StyledLine>)
    ensures
        (r is Some) == (response.content_type is Some),
        r matches Some(l) ==> is_content_type_line(l, response.content_type.unwrap()@),
{
    match &response.content_type {
        Some(value) => Some(
            StyledLine::new().add(StyledSegment::new("Content-Type").color(Color::Green).space())
                .add(StyledSegment::new(value.as_str())),
        ),
        None => None,
    }
}

/// Lays out the complete response: the optional verbose echo, the status
/// line, the Content-Type line when present, and the formatted body last.
pub fn display_response(
    response: &Response,
    formatted_body: &str,
    verbose: bool,
    method: &str,
    url: &str,
) -> (r: Vec<StyledLine>)
    ensures
        r@.len() == (if verbose {
            1int
        } else {
            0int
        }) + 2 + (if response.content_type is Some {
            1int
        } else {
            0int
        }),
        verbose ==> is_request_line(r@[0], method@, url@),
        is_status_line(
            r@[if verbose {
                1int
            } else {
                0int
            }],
            response.status,
            response.status_message@,
        ),
        response.content_type matches Some(ct) ==> is_content_type_line(
            r@[(if verbose {
                1int
            } else {
                0int
            }) + 1],
            ct@,
        ),
        is_body_line(r@[r@.len() - 1], formatted_body@),
{
    let mut lines: Vec<StyledLine> = Vec::new();
    if verbose {
        lines.push(display_request(method, url));
    }
    lines.push(display_status(response.status, response.status_message.as_str()));
    match display_content_type(response) {
        Some(l) => lines.push(l),
        None => (),
    }
    lines.push(StyledLine::new().add(StyledSegment::new(formatted_body)));
    lines
}

} // verus!
