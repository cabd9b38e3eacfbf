use vstd::prelude::*;
use crate::parse::trim_str;
use crate::parse::trimmed;

verus! {

/// The command reader's decision for one bounded-wait read.
pub enum ReaderDecision {
    /// A sibling loop has already requested cancellation: return without
    /// prompting again.
    Stop,
    /// The operator chose the exit command: request exit, print the
    /// confirmation, and return.
    AcceptExit,
    /// An empty line: print the no-option reply and the menu, then read
    /// again.
    RepromptEmpty,
    /// An unrecognized command: print the invalid-option reply echoing
    /// it, print the menu, then read again.
    RepromptInvalid { echo: String },
    /// The bounded wait timed out with nothing typed: silently read
    /// again.
    Idle,
}

/// The command reader's decision for one cycle: the cancellation flag as
/// last observed, and the line the bounded-wait read produced, if any.
/// The exit command is the single menu entry "1"; anything else non-empty
/// is echoed back and re-prompted.
pub fn reader_step(signal_set: bool, input: Option<String>) -> (r: ReaderDecision)
    ensures
        signal_set ==> r is Stop,
        (!signal_set && input is None) ==> r is Idle,
        !signal_set ==> (input matches Some(typed) ==> {
            let t = trimmed(typed@);
            &&& (t == seq!['1'] ==> r is AcceptExit)
            &&& (t.len() == 0 ==> r is RepromptEmpty)
            &&& ((t.len() > 0 && t != seq!['1']) ==> (r matches ReaderDecision::RepromptInvalid {
                echo,
            } && echo@ == t))
        }),
{
    if signal_set {
        return ReaderDecision::Stop;
    }
    match input {
        None => ReaderDecision::Idle,
        Some(line) => {
            let t = trim_str(line.as_str());
            let n = t.as_str().unicode_len();
            if n == 0 {
                ReaderDecision::RepromptEmpty
            } else if n == 1 && t.as_str().get_char(0) == '1' {
                proof {
                    assert(t@ =~= seq!['1']);
                }
                ReaderDecision::AcceptExit
            } else {
                proof {
                    if t@ == seq!['1'] {
                        assert(t@.len() == 1);
                        assert(t@[0] == '1');
                    }
                }
                ReaderDecision::RepromptInvalid { echo: t }
            }
        },
    }
}

} // verus!
