//! What a panel shows, ahead of drawing it: titles, messages and their
//! colors.
use vstd::prelude::*;

verus! {

/// The colors the dashboard draws with.
#[derive(Clone, Copy, Debug, PartialEq, Eq, Structural)]
pub enum Color {
    Cyan,
    Yellow,
    Red,
    DarkGray,
    White,
    Green,
    Blue,
    LightRed,
    LightYellow,
    Black,
}

/// Panel borders and titles.
pub open spec fn accent() -> Color {
    Color::Cyan
}

/// Content that is loading.
pub open spec fn loading() -> Color {
    Color::Yellow
}

/// Content that failed.
pub open spec fn error() -> Color {
    Color::Red
}

/// Hints.
pub open spec fn hint() -> Color {
    Color::DarkGray
}

/// A bordered panel with a title and a one-paragraph message; an empty
/// message draws only the frame.
#[derive(Clone, Debug)]
pub struct StatusPanel {
    pub title: String,
    pub border: Color,
    pub message: String,
    pub message_color: Color,
}

/// The chars and colors of a status panel.
pub struct StatusPanelView {
    pub title: Seq<char>,
    pub border: Color,
    pub message: Seq<char>,
    pub message_color: Color,
}

impl View for StatusPanel {
    type V = StatusPanelView;

    open spec fn view(&self) -> StatusPanelView {
        StatusPanelView {
            title: self.title@,
            border: self.border,
            message: self.message@,
            message_color: self.message_color,
        }
    }
}

impl StatusPanel {
    /// A panel with the given title, border color, message and message color.
    pub fn new(title: String, border: Color, message: String, message_color: Color) -> (p:
        StatusPanel)
        ensures
            p.title == title,
            p.border == border,
            p.message == message,
            p.message_color == message_color,
    {
        StatusPanel { title, border, message, message_color }
    }
}

} // verus!
