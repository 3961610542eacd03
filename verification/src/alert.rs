//! Alerts: the coloured lines in which the command line reports what a run
//! did. An alert is a label on a coloured ground and a message in the same
//! colour.

use owo_colors::{AnsiColors, DynColors, OwoColorize};
use vstd::prelude::*;
use vstd::string::StringExecFns;

verus! {

/// The colours of the alerts.
#[derive(Clone, Copy, Debug, PartialEq, Eq, Structural)]
pub enum AlertColor {
    Red,
    Yellow,
    Blue,
    Green,
}

#[derive(Clone, Copy, Debug, PartialEq, Eq, Structural)]
pub enum AlertType {
    Success,
    Warning,
    Info,
    Error,
}

/// The escape sequence that sets the foreground to `color`.
pub open spec fn foreground(color: AlertColor) -> Seq<char> {
    match color {
        AlertColor::Red => "\x1b[31m"@,
        AlertColor::Yellow => "\x1b[33m"@,
        AlertColor::Blue => "\x1b[34m"@,
        AlertColor::Green => "\x1b[32m"@,
    }
}

/// The escape sequence that sets the background to `color`.
pub open spec fn background(color: AlertColor) -> Seq<char> {
    match color {
        AlertColor::Red => "\x1b[41m"@,
        AlertColor::Yellow => "\x1b[43m"@,
        AlertColor::Blue => "\x1b[44m"@,
        AlertColor::Green => "\x1b[42m"@,
    }
}

/// `text` in the foreground colour `color`, with the default foreground
/// restored behind it.
pub open spec fn colored(text: Seq<char>, color: AlertColor) -> Seq<char> {
    foreground(color) + text + "\x1b[39m"@
}

/// `text` on the background colour `color`, with the default background
/// restored behind it.
pub open spec fn on_colored(text: Seq<char>, color: AlertColor) -> Seq<char> {
    background(color) + text + "\x1b[49m"@
}

/// `OwoColorize::color` of owo-colors, with an ANSI colour, written out:
/// the escape sequence of the foreground colour, the text, and the escape
/// sequence that restores the default foreground.
#[verifier::external_body]
fn paint(text: &str, color: AlertColor) -> (painted: String)
    ensures
        painted@ == colored(text@, color),
{
    let ansi = match color {
        AlertColor::Red => AnsiColors::Red,
        AlertColor::Yellow => AnsiColors::Yellow,
        AlertColor::Blue => AnsiColors::Blue,
        AlertColor::Green => AnsiColors::Green,
    };
    text.color(DynColors::Ansi(ansi)).to_string()
}

/// `OwoColorize::on_color` of owo-colors, with an ANSI colour, written
/// out: the escape sequence of the background colour, the text, and the
/// escape sequence that restores the default background.
#[verifier::external_body]
fn paint_ground(text: &str, color: AlertColor) -> (painted: String)
    ensures
        painted@ == on_colored(text@, color),
{
    let ansi = match color {
        AlertColor::Red => AnsiColors::Red,
        AlertColor::Yellow => AnsiColors::Yellow,
        AlertColor::Blue => AnsiColors::Blue,
        AlertColor::Green => AnsiColors::Green,
    };
    text.on_color(DynColors::Ansi(ansi)).to_string()
}

/// A label and a message, both coloured.
pub struct Alert {
    name: String,
    msg: String,
}

/// The label of an alert of type `from_type`.
pub open spec fn label_of(from_type: AlertType) -> Seq<char> {
    match from_type {
        AlertType::Error => " ERROR "@,
        AlertType::Warning => " WARNING "@,
        AlertType::Info => " INFO "@,
        AlertType::Success => " SUCCESS "@,
    }
}

/// The colour of an alert of type `from_type`.
pub open spec fn color_of(from_type: AlertType) -> AlertColor {
    match from_type {
        AlertType::Error => AlertColor::Red,
        AlertType::Warning => AlertColor::Yellow,
        AlertType::Info => AlertColor::Blue,
        AlertType::Success => AlertColor::Green,
    }
}

impl Alert {
    /// The coloured label.
    pub closed spec fn name(&self) -> Seq<char> {
        self.name@
    }

    /// The coloured message.
    pub closed spec fn msg(&self) -> Seq<char> {
        self.msg@
    }

    /// This is the alert of type `from_type` with the message `msg`.
    pub open spec fn is(&self, from_type: AlertType, msg: Seq<char>) -> bool {
        &&& self.name() == on_colored(label_of(from_type), color_of(from_type))
        &&& self.msg() == colored(msg, color_of(from_type))
    }

    pub fn success(msg: String) -> (alert: Self)
        ensures
            alert.is(AlertType::Success, msg@),
    {
        Alert::new_generic(AlertType::Success, msg)
    }

    pub fn info(msg: String) -> (alert: Self)
        ensures
            alert.is(AlertType::Info, msg@),
    {
        Alert::new_generic(AlertType::Info, msg)
    }

    pub fn warning(msg: String) -> (alert: Self)
        ensures
            alert.is(AlertType::Warning, msg@),
    {
        Alert::new_generic(AlertType::Warning, msg)
    }

    pub fn error(msg: String) -> (alert: Self)
        ensures
            alert.is(AlertType::Error, msg@),
    {
        Alert::new_generic(AlertType::Error, msg)
    }

    fn get_name(from_type: &AlertType) -> (name: String)
        ensures
            name@ == label_of(*from_type),
    {
        match from_type {
            AlertType::Error => " ERROR ".to_owned(),
            AlertType::Warning => " WARNING ".to_owned(),
            AlertType::Info => " INFO ".to_owned(),
            AlertType::Success => " SUCCESS ".to_owned(),
        }
    }

    fn get_color(from_type: &AlertType) -> (color: AlertColor)
        ensures
            color == color_of(*from_type),
    {
        match from_type {
            AlertType::Error => AlertColor::Red,
            AlertType::Warning => AlertColor::Yellow,
            AlertType::Info => AlertColor::Blue,
            AlertType::Success => AlertColor::Green,
        }
    }

    fn new_generic(from_type: AlertType, msg: String) -> (alert: Self)
        ensures
            alert.is(from_type, msg@),
    {
        let color = Alert::get_color(&from_type);
        let name = paint_ground(Alert::get_name(&from_type).as_str(), color);
        let msg = paint(msg.as_str(), color);
        Alert { name, msg }
    }

    /// The line that shows the alert: the label, a space and the message.
    pub fn line(&self) -> (line: String)
        ensures
            line@ == self.name() + " "@ + self.msg(),
    {
        let mut line = self.name.clone();
        line.append(" ");
        line.append(self.msg.as_str());
        line
    }
}

} // verus!
