use crate::text::{can_cut, concat, concat3, cut, cut_text};
use vstd::prelude::*;

pub mod dialogs;
pub mod error_handlers;
pub mod menu;
pub mod selector;
pub mod service_handlers;
pub mod tool_executor;
pub mod utils;

verus! {

/// What leads a line that announces a success.
pub open spec fn success_mark() -> Seq<char> {
    "[+] "@
}

/// What leads a line that announces a failure.
pub open spec fn error_mark() -> Seq<char> {
    "[!] "@
}

/// What leads a line that warns.
pub open spec fn warning_mark() -> Seq<char> {
    "[*] "@
}

/// What leads a line that informs.
pub open spec fn info_mark() -> Seq<char> {
    "[i] "@
}

/// The line that announces a success.
pub fn print_success(message: &str) -> (r: String)
    ensures
        r@ == success_mark() + " "@ + message@,
{
    concat3("[+] ", " ", message)
}

/// The line that announces a failure.
pub fn print_error(message: &str) -> (r: String)
    ensures
        r@ == error_mark() + " "@ + message@,
{
    concat3("[!] ", " ", message)
}

/// The line that warns.
pub fn print_warning(message: &str) -> (r: String)
    ensures
        r@ == warning_mark() + " "@ + message@,
{
    concat3("[*] ", " ", message)
}

/// The line that informs.
pub fn print_info(message: &str) -> (r: String)
    ensures
        r@ == info_mark() + " "@ + message@,
{
    concat3("[i] ", " ", message)
}

/// The heading of a step of the dialogue.
pub fn print_step(step: u8, message: &str) -> (r: String)
    ensures
        r@ == "Step "@ + crate::text::decimal_text(step as nat) + " "@ + message@,
{
    let n = crate::text::u64_to_string(step as u64);
    let head = concat3("Step ", n.as_str(), " ");
    concat(head.as_str(), message)
}

/// A command line made to fit: as it is where it has at most `max_len` bytes, else
/// its first `max_len` bytes and three dots. A command line that is too long must
/// not have a character across the cut.
pub fn truncate_command(command: &str, max_len: usize) -> (r: String)
    requires
        can_cut(command@, max_len as int),
    ensures
        r@ == cut_text(command@, max_len as int, max_len as int, "..."@),
{
    cut(command, max_len, max_len, "...")
}

/// The lines that show a process: its id, and its command line cut to sixty bytes.
pub fn print_process_info(pid: u32, command: &str) -> (r: Vec<String>)
    requires
        can_cut(command@, 60),
    ensures
        r@.len() == 3,
        r@[0]@ == "[>]  Process Details:"@,
        r@[1]@ == "  > PID: "@ + crate::text::decimal_text(pid as nat),
        r@[2]@ == "  > Command: "@ + cut_text(command@, 60, 60, "..."@),
{
    let mut lines: Vec<String> = Vec::new();
    lines.push("[>]  Process Details:".to_owned());
    let n = crate::text::u64_to_string(pid as u64);
    lines.push(concat("  > PID: ", n.as_str()));
    let shown = truncate_command(command, 60);
    lines.push(concat("  > Command: ", shown.as_str()));
    lines
}

/// The text of a menu entry.
pub fn format_menu_item(icon: &str, title: &str, description: &str) -> (r: String)
    ensures
        r@ == icon@ + " "@ + title@ + " - "@ + description@,
{
    let head = concat3(icon, " ", title);
    concat3(head.as_str(), " - ", description)
}

} // verus!
