use vstd::prelude::*;
use crate::render::clock_digits;
use crate::render::clock_string;

verus! {

/// Prompt printed before the target process name is read.
pub fn prompt_process_name() -> (r: String)
    ensures
        r@ == "Enter the name of the process you want to search for:"@,
{
    "Enter the name of the process you want to search for:".to_owned()
}

/// Prompt printed before the restart interval is read.
pub fn prompt_interval() -> (r: String)
    ensures
        r@ == "Enter the restart interval in hours:"@,
{
    "Enter the restart interval in hours:".to_owned()
}

/// Reply to an interval line that does not parse as a non-negative integer.
pub fn invalid_number_line() -> (r: String)
    ensures
        r@ == "Invalid input. Please enter a valid number."@,
{
    "Invalid input. Please enter a valid number.".to_owned()
}

/// Printed when the target process cannot be found at startup.
pub fn not_found_line() -> (r: String)
    ensures
        r@ == "Process not found."@,
{
    "Process not found.".to_owned()
}

/// Printed before the final blocking read that ends the run.
pub fn press_any_key_line() -> (r: String)
    ensures
        r@ == "Press any key to exit..."@,
{
    "Press any key to exit...".to_owned()
}

/// The one-entry menu of recognized operator commands.
pub fn menu_line() -> (r: String)
    ensures
        r@ == "1. Exit"@,
{
    "1. Exit".to_owned()
}

/// Confirmation printed exactly once, on the accepted exit command.
pub fn exit_confirmation_line() -> (r: String)
    ensures
        r@ == "Exiting program."@,
{
    "Exiting program.".to_owned()
}

/// Reply to an empty operator line.
pub fn no_option_line() -> (r: String)
    ensures
        r@ == "No option selected. Please select a valid option."@,
{
    "No option selected. Please select a valid option.".to_owned()
}

/// Startup confirmation naming the resolved executable file.
pub fn application_line(app_name: &str) -> (r: String)
    ensures
        r@ == "Application: "@ + app_name@,
{
    let mut r = "Application: ".to_owned();
    r.append(app_name);
    r
}

/// Reply to an unrecognized operator command, echoing it.
pub fn invalid_option_line(option: &str) -> (r: String)
    ensures
        r@ == "Invalid option "@ + option@ + ". Please select a valid option."@,
{
    let mut r = "Invalid option ".to_owned();
    r.append(option);
    r.append(". Please select a valid option.");
    r
}

/// Fatal monitor message for a target that vanished mid-run.
pub fn not_found_exit_line(name: &str) -> (r: String)
    ensures
        r@ == "Process "@ + name@ + " not found. Exiting..."@,
{
    let mut r = "Process ".to_owned();
    r.append(name);
    r.append(" not found. Exiting...");
    r
}

/// Non-fatal report of a failed restart cycle.
pub fn restart_failure_line(detail: &str) -> (r: String)
    ensures
        r@ == "Failed to restart process: "@ + detail@,
{
    let mut r = "Failed to restart process: ".to_owned();
    r.append(detail);
    r
}

/// Error detail for a restart attempted while the target is not running.
pub fn not_running_line(name: &str) -> (r: String)
    ensures
        r@ == "Program "@ + name@ + " isn't running."@,
{
    let mut r = "Program ".to_owned();
    r.append(name);
    r.append(" isn't running.");
    r
}

/// The in-place countdown line, fields zero-padded to two places.
pub fn countdown_line(h: u64, m: u64, s: u64) -> (r: String)
    ensures
        r@ == "Time until restart: "@ + clock_digits(h, m, s),
{
    let mut r = "Time until restart: ".to_owned();
    r.append(clock_string(h, m, s).as_str());
    r
}

/// The wall-clock instant of the first restart, printed once at startup.
pub fn restart_at_line(h: u64, m: u64, s: u64) -> (r: String)
    ensures
        r@ == "Restart occurs at: "@ + clock_digits(h, m, s),
{
    let mut r = "Restart occurs at: ".to_owned();
    r.append(clock_string(h, m, s).as_str());
    r
}

} // verus!
