//! Terminal-mode configuration and process-table queries.
//!
//! A `Config` holds the console's input and output mode words.  Reading the
//! live console modes and applying them back are OS pass-throughs performed
//! by an external collaborator; the logic here is how high-level settings
//! map onto the mode bits, and how a parent process is found in a snapshot
//! of the process table.

use vstd::prelude::*;

verus! {

/// Console input mode bit: interrupt key generates a signal.
pub const ENABLE_PROCESSED_INPUT: u32 = 1;

/// Console input mode bit: input is returned line by line.
pub const ENABLE_LINE_INPUT: u32 = 2;

/// Console input mode bit: typed characters are echoed.
pub const ENABLE_ECHO_INPUT: u32 = 4;

/// Console output mode bit: output control characters are processed.
pub const ENABLE_PROCESSED_OUTPUT: u32 = 1;

/// High-level terminal settings; a setting left out requests no change.
#[derive(Clone, Copy, PartialEq, Eq, Structural, Debug)]
pub struct Settings {
    /// Whether typed input is echoed.
    pub echo_input: Option<bool>,
    /// Whether input is line-buffered.
    pub line_input: Option<bool>,
    /// Whether the interrupt key generates signals.
    pub interrupt_signals: Option<bool>,
    /// Whether a newline on output is written as newline plus carriage
    /// return (processed output).
    pub output_nl_as_nlcr: Option<bool>,
}

/// Terminal configuration: the console's input and output mode words.
#[derive(Clone, Copy, PartialEq, Eq, Structural, Debug)]
pub struct Config {
    /// The console input mode word.
    pub input_mode: u32,
    /// The console output mode word.
    pub output_mode: u32,
}

/// `mode` with the given bit forced on or off.
pub open spec fn set_flag(mode: u32, flag: u32, on: bool) -> u32 {
    if on {
        mode | flag
    } else {
        mode & !flag
    }
}

/// `mode` with the given bit forced as requested, or unchanged when the
/// setting is absent.
pub open spec fn apply_flag(mode: u32, flag: u32, setting: Option<bool>) -> u32 {
    match setting {
        Some(on) => set_flag(mode, flag, on),
        None => mode,
    }
}

/// The input mode word after applying the three input-related settings, in
/// the order echo, line input, interrupt signals.
pub open spec fn updated_input_mode(mode: u32, settings: Settings) -> u32 {
    apply_flag(
        apply_flag(
            apply_flag(mode, ENABLE_ECHO_INPUT, settings.echo_input),
            ENABLE_LINE_INPUT,
            settings.line_input,
        ),
        ENABLE_PROCESSED_INPUT,
        settings.interrupt_signals,
    )
}

/// The output mode word after applying the output-related setting.
pub open spec fn updated_output_mode(mode: u32, settings: Settings) -> u32 {
    apply_flag(mode, ENABLE_PROCESSED_OUTPUT, settings.output_nl_as_nlcr)
}

impl Config {
    /// Assembles a configuration from the two console mode words.
    pub fn new(input_mode: u32, output_mode: u32) -> (r: Self)
        ensures
            r.input_mode == input_mode,
            r.output_mode == output_mode,
    {
        Config { input_mode, output_mode }
    }

    /// Applies the given high-level terminal settings to this configuration.
    /// Does not modify any terminal itself: each setting present forces its
    /// mode bit on or off, and each setting absent leaves its bit alone.
    pub fn update(&mut self, settings: &Settings)
        ensures
            final(self).input_mode == updated_input_mode(old(self).input_mode, *settings),
            final(self).output_mode == updated_output_mode(old(self).output_mode, *settings),
    {
        if let Some(echo_input) = settings.echo_input {
            if echo_input {
                self.input_mode = self.input_mode | ENABLE_ECHO_INPUT;
            } else {
                self.input_mode = self.input_mode & !ENABLE_ECHO_INPUT;
            }
        }
        if let Some(line_input) = settings.line_input {
            if line_input {
                self.input_mode = self.input_mode | ENABLE_LINE_INPUT;
            } else {
                self.input_mode = self.input_mode & !ENABLE_LINE_INPUT;
            }
        }
        if let Some(interrupt_signals) = settings.interrupt_signals {
            if interrupt_signals {
                self.input_mode = self.input_mode | ENABLE_PROCESSED_INPUT;
            } else {
                self.input_mode = self.input_mode & !ENABLE_PROCESSED_INPUT;
            }
        }
        if let Some(output_nl_as_nlcr) = settings.output_nl_as_nlcr {
            if output_nl_as_nlcr {
                self.output_mode = self.output_mode | ENABLE_PROCESSED_OUTPUT;
            } else {
                self.output_mode = self.output_mode & !ENABLE_PROCESSED_OUTPUT;
            }
        }
    }
}

/// One row of a process-table snapshot: a process and its parent.
#[derive(Clone, Copy, PartialEq, Eq, Structural, Debug)]
pub struct ProcessEntry {
    /// The process identifier of the entry.
    pub pid: u32,
    /// The process identifier of the entry's parent.
    pub parent_pid: u32,
}

/// The parent recorded by the first entry for `pid`, if any.
pub open spec fn find_parent(entries: Seq<ProcessEntry>, pid: u32) -> Option<u32>
    decreases entries.len(),
{
    if entries.len() == 0 {
        None
    } else if entries[0].pid == pid {
        Some(entries[0].parent_pid)
    } else {
        find_parent(entries.drop_first(), pid)
    }
}

/// Searches a process-table snapshot for `pid` and returns the parent
/// recorded by its first entry, or nothing when the snapshot has no entry
/// for it.
pub fn parent_of(entries: &Vec<ProcessEntry>, pid: u32) -> (r: Option<u32>)
    ensures
        r == find_parent(entries@, pid),
{
    let n = entries.len();
    let mut i: usize = 0;
    proof {
        assert(entries@.subrange(0, n as int) =~= entries@);
    }
    while i < n
        invariant
            n == entries@.len(),
            0 <= i <= n,
            find_parent(entries@, pid) == find_parent(entries@.subrange(i as int, n as int), pid),
        decreases n - i,
    {
        let entry = entries[i];
        if entry.pid == pid {
            proof {
                assert(entries@.subrange(i as int, n as int)[0] == entry);
            }
            return Some(entry.parent_pid);
        }
        proof {
            assert(entries@.subrange(i as int, n as int).drop_first() =~= entries@.subrange(
                i as int + 1,
                n as int,
            ));
        }
        i = i + 1;
    }
    proof {
        assert(entries@.subrange(i as int, n as int).len() == 0);
    }
    None
}

} // verus!
