//! What is written when the program crashes.

use vstd::prelude::*;
use vstd::string::*;
use crate::text::{decimal, decimal_string, texts};

verus! {

/// The line that names the place of a crash.
pub open spec fn location_line(file: Seq<char>, line: u32) -> Seq<char> {
    "Crash occurred at file '"@ + file + "' line "@ + decimal(line as nat)
}

/// The closing line of a crash report, with the message of the crash where there is one.
pub open spec fn apology(message: Option<Seq<char>>) -> Seq<char> {
    match message {
        Some(message) => "Oops! UltiVM has run into an unknown error and can't show an error window!\r\n"@
            + message,
        None => "Oops! UltiVM has run into an unknown error and can't show an error window!"@,
    }
}

/// The lines of a crash report: the heading, the place where it is known, and the apology.
pub open spec fn crash_lines(
    location: Option<(Seq<char>, u32)>,
    message: Option<Seq<char>>,
) -> Seq<Seq<char>> {
    seq!["Application crashed!"@] + match location {
        Some((file, line)) => seq![location_line(file, line)],
        None => Seq::empty(),
    } + seq![apology(message)]
}

/// Composes the report on a crash at `location`, a file and a line, with `message`.
pub fn crash_report(location: Option<(&str, u32)>, message: Option<&str>) -> (lines: Vec<String>)
    ensures
        texts(lines@) == crash_lines(
            match location {
                Some((file, line)) => Some((file@, line)),
                None => None,
            },
            match message {
                Some(message) => Some(message@),
                None => None,
            },
        ),
{
    let mut lines: Vec<String> = Vec::new();
    lines.push(String::from_str("Application crashed!"));
    match location {
        Some((file, line)) => {
            let mut text = String::from_str("Crash occurred at file '");
            text.append(file);
            text.append("' line ");
            text.append(decimal_string(line).as_str());
            lines.push(text);
        },
        None => {},
    }
    match message {
        Some(message) => {
            let mut text = String::from_str(
                "Oops! UltiVM has run into an unknown error and can't show an error window!\r\n",
            );
            text.append(message);
            lines.push(text);
        },
        None => {
            lines.push(
                String::from_str(
                    "Oops! UltiVM has run into an unknown error and can't show an error window!",
                ),
            );
        },
    }
    assert(texts(lines@) =~= crash_lines(
        match location {
            Some((file, line)) => Some((file@, line)),
            None => None,
        },
        match message {
            Some(message) => Some(message@),
            None => None,
        },
    ));
    lines
}

} // verus!
