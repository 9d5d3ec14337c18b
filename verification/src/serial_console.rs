//! What the console shows and when. The text of the fixed screens is here;
//! lines that carry values are put together where they are written.

use crate::types::{CDState, CDStateView};
use vstd::prelude::*;

verus! {

/// After how many periodic runs the header is printed again.
pub const HEADER_PERIOD: u8 = 250;

/// On every how many periodic runs the slower lines are printed.
pub const DETAIL_PERIOD: u8 = 5;

/// What opens a quiet status line.
#[derive(Clone, Copy, Debug, PartialEq, Eq, Structural)]
pub enum Opening {
    /// The list of commands.
    Menu,
    /// The hint at the two commands that lead further.
    Hint,
    /// Nothing.
    Bare,
}

/// What the console shows in one periodic run.
#[derive(Clone, Copy, Debug, PartialEq, Eq, Structural)]
pub enum Screen {
    /// The full screen: the activity list and the line with uptime and
    /// phase always, before them the header where `header` holds, and the
    /// lines on relays and vehicle where `detail` holds.
    Verbose { header: bool, detail: bool },
    /// One status line, behind its opening.
    Quiet { opening: Opening },
    /// Nothing in this run.
    Blank,
}

/// Whether the header is due: on every 250th run, and when the operator
/// asked for a fresh screen.
pub open spec fn header_due(cd: CDStateView, hundred_ms_counter: u8) -> bool {
    hundred_ms_counter % HEADER_PERIOD == 0 || cd.quiet_to_verbose
}

/// What the console shows for a state of the session and a count of
/// periodic runs.
pub open spec fn screen(cd: CDStateView, hundred_ms_counter: u8) -> Screen {
    if cd.verbose_stats {
        Screen::Verbose {
            header: header_due(cd, hundred_ms_counter),
            detail: hundred_ms_counter % DETAIL_PERIOD == 0,
        }
    } else if hundred_ms_counter % DETAIL_PERIOD == 0 {
        Screen::Quiet {
            opening: if cd.print_menu_request {
                Opening::Menu
            } else if header_due(cd, hundred_ms_counter) {
                Opening::Hint
            } else {
                Opening::Bare
            },
        }
    } else {
        Screen::Blank
    }
}

/// The lines under the list of commands on the full screen: the prompt,
/// the frame of the activity list and the two titles below it.
pub open spec fn footer_lines() -> Seq<Seq<char>> {
    seq![
        "Command? "@,
        ""@,
        "                          Activity"@,
        "+--------------------------------------------------------------+"@,
        "|                                                              |"@,
        "|                                                              |"@,
        "|                                                              |"@,
        "|                                                              |"@,
        "|                                                              |"@,
        "|                                                              |"@,
        "|                                                              |"@,
        "|                                                              |"@,
        "+--------------------------------------------------------------+"@,
        ""@,
        "Charger State:"@,
        ""@,
        "Car State:"@,
    ]
}

/// The list of commands. On the full screen it starts by clearing the
/// screen and ends with the footer.
pub open spec fn header_lines(verbose_console: bool) -> Seq<Seq<char>> {
    let commands = seq![
        if verbose_console {
            "\x1B[2J\x1B[HCommands: "@
        } else {
            "Commands: "@
        },
        "c / C - Start / End Charge."@,
        "e - Clear / rEfresh the screen."@,
        "m - Show menu with verbose disabled."@,
        "v / V - Enable / Disable verbose."@,
    ];
    if verbose_console {
        commands + footer_lines()
    } else {
        commands
    }
}

/// Whether the lines are these texts, one for one.
pub open spec fn lines_are(lines: Seq<&'static str>, texts: Seq<Seq<char>>) -> bool {
    &&& lines.len() == texts.len()
    &&& forall|i: int| 0 <= i < lines.len() ==> (#[trigger] lines[i])@ == texts[i]
}

/// Decides what the console shows in this periodic run.
pub fn display(cd_state: &CDState, hundred_ms_counter: u8) -> (plan: Screen)
    ensures
        plan == screen(cd_state@, hundred_ms_counter),
{
    let print_header = hundred_ms_counter % HEADER_PERIOD == 0 || cd_state.quiet_to_verbose;
    if cd_state.verbose_stats {
        Screen::Verbose { header: print_header, detail: hundred_ms_counter % DETAIL_PERIOD == 0 }
    } else if hundred_ms_counter % DETAIL_PERIOD == 0 {
        if cd_state.print_menu_request {
            Screen::Quiet { opening: Opening::Menu }
        } else if print_header {
            Screen::Quiet { opening: Opening::Hint }
        } else {
            Screen::Quiet { opening: Opening::Bare }
        }
    } else {
        Screen::Blank
    }
}

/// The lines of the list of commands, each to be ended by a line feed.
pub fn print_header_to_serial(verbose_console: bool) -> (lines: Vec<&'static str>)
    ensures
        lines_are(lines@, header_lines(verbose_console)),
{
    let mut lines: Vec<&'static str> = Vec::new();
    if verbose_console {
        lines.push("\x1B[2J\x1B[HCommands: ");
    } else {
        lines.push("Commands: ");
    }
    lines.push("c / C - Start / End Charge.");
    lines.push("e - Clear / rEfresh the screen.");
    lines.push("m - Show menu with verbose disabled.");
    lines.push("v / V - Enable / Disable verbose.");
    if verbose_console {
        let mut footer = verbose_footer();
        lines.append(&mut footer);
    }
    lines
}

/// The lines of the footer, each to be ended by a line feed.
pub fn verbose_footer() -> (lines: Vec<&'static str>)
    ensures
        lines_are(lines@, footer_lines()),
{
    let mut lines: Vec<&'static str> = Vec::new();
    lines.push("Command? ");
    lines.push("");
    lines.push("                          Activity");
    lines.push("+--------------------------------------------------------------+");
    lines.push("|                                                              |");
    lines.push("|                                                              |");
    lines.push("|                                                              |");
    lines.push("|                                                              |");
    lines.push("|                                                              |");
    lines.push("|                                                              |");
    lines.push("|                                                              |");
    lines.push("|                                                              |");
    lines.push("+--------------------------------------------------------------+");
    lines.push("");
    lines.push("Charger State:");
    lines.push("");
    lines.push("Car State:");
    lines
}

} // verus!
