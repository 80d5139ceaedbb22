//! The diagnostic-build test harness: it runs self-describing test entries
//! in order and renders the plain-text lines of the serial side-channel
//! protocol, together with the exit code the host emulator is signaled.
//!
//! The serial port write and the exit-port write themselves are hardware
//! work outside this library; the harness decides every byte they carry.

use vstd::prelude::*;
use vstd::slice::slice_to_vec;
use vstd::string::StringSliceAdditionalSpecFns;

use crate::text::{decimal_bytes, push_bytes, spec_decimal};

verus! {

/// The exit codes the host emulator distinguishes.
#[derive(Clone, Copy, Debug, PartialEq, Eq, Structural)]
pub enum QemuExitCode {
    /// Everything is fine.
    Success,
    /// Something went wrong.
    Failed,
}

impl QemuExitCode {
    /// The byte value written to the exit port for this code.
    pub open spec fn spec_code(self) -> u32 {
        match self {
            QemuExitCode::Success => 0x10,
            QemuExitCode::Failed => 0x11,
        }
    }

    /// Returns the exit-port value for this code.
    pub fn code(self) -> (r: u32)
        ensures
            r == self.spec_code(),
    {
        match self {
            QemuExitCode::Success => 0x10,
            QemuExitCode::Failed => 0x11,
        }
    }
}

/// A self-describing test entry: a name and a runnable body.
pub trait Testable {
    /// The name this entry reports.
    spec fn spec_name(&self) -> Seq<u8>;

    /// Returns the name this entry reports.
    fn name(&self) -> (r: Vec<u8>)
        ensures
            r@ == self.spec_name(),
    ;

    /// Runs the test.  There is no per-test recovery: a failing body takes
    /// the fatal path and never returns here.
    fn run(&self);
}

/// The simplest test entry: a named check that passes when run.
pub struct NamedCheck {
    /// The name this check reports.
    pub label: Vec<u8>,
}

impl Testable for NamedCheck {
    open spec fn spec_name(&self) -> Seq<u8> {
        self.label@
    }

    fn name(&self) -> (r: Vec<u8>) {
        slice_to_vec(self.label.as_slice())
    }

    fn run(&self) {
    }
}

/// What the harness hands the serial side-channel: its text lines, in
/// order, and the code the host emulator is signaled afterwards.
pub struct SerialReport {
    /// The plain-text lines, one per event.
    pub lines: Vec<Vec<u8>>,
    /// The exit code written to the host-emulator port.
    pub exit: QemuExitCode,
}

/// The count line that opens a run.
pub open spec fn running_line(n: nat) -> Seq<u8> {
    "Running ".spec_bytes() + spec_decimal(n) + " tests".spec_bytes()
}

/// The line reported for one passing entry.
pub open spec fn test_line(name: Seq<u8>) -> Seq<u8> {
    name + "...\t[ok]".spec_bytes()
}

/// Runs every entry in order and reports the serial protocol: the count
/// line, then one line per entry — its name, then the pass marker once its
/// body has returned — and the success signal for the host emulator.  A
/// failing entry never returns, so everything after it is never rendered.
pub fn test_runner<T: Testable>(tests: &Vec<T>) -> (r: SerialReport)
    ensures
        r.exit == QemuExitCode::Success,
        r.lines@.len() == tests@.len() + 1,
        r.lines@[0]@ == running_line(tests@.len()),
        forall|i: int|
            1 <= i <= tests@.len() ==> (#[trigger] r.lines@[i])@ == test_line(
                tests@[i - 1].spec_name(),
            ),
{
    let mut lines: Vec<Vec<u8>> = Vec::new();
    let mut head: Vec<u8> = Vec::new();
    push_bytes(&mut head, "Running ".as_bytes());
    let count = decimal_bytes(tests.len() as u64);
    push_bytes(&mut head, count.as_slice());
    push_bytes(&mut head, " tests".as_bytes());
    proof {
        assert(head@ =~= running_line(tests@.len()));
    }
    lines.push(head);
    let mut k: usize = 0;
    while k < tests.len()
        invariant
            k <= tests@.len(),
            lines@.len() == k + 1,
            lines@[0]@ == running_line(tests@.len()),
            forall|i: int|
                1 <= i <= k ==> (#[trigger] lines@[i])@ == test_line(tests@[i - 1].spec_name()),
        decreases tests@.len() - k,
    {
        let t: &T = &tests[k];
        let mut line = t.name();
        push_bytes(&mut line, "...\t[ok]".as_bytes());
        t.run();
        lines.push(line);
        k += 1;
    }
    SerialReport { lines, exit: QemuExitCode::Success }
}

/// The serial traffic of the fatal-failure path: a blank line, the failure
/// detail, then the failure marker — and the failure signal for the host
/// emulator, which terminates the run; there is no per-test recovery.
pub fn test_panic_handler(detail: &[u8]) -> (r: SerialReport)
    ensures
        r.exit == QemuExitCode::Failed,
        r.lines@.len() == 3,
        r.lines@[0]@ == Seq::<u8>::empty(),
        r.lines@[1]@ == "Error: ".spec_bytes() + detail@,
        r.lines@[2]@ == "[failed]".spec_bytes(),
{
    let mut lines: Vec<Vec<u8>> = Vec::new();
    let blank: Vec<u8> = Vec::new();
    lines.push(blank);
    let mut err: Vec<u8> = Vec::new();
    push_bytes(&mut err, "Error: ".as_bytes());
    push_bytes(&mut err, detail);
    lines.push(err);
    let marker = slice_to_vec("[failed]".as_bytes());
    lines.push(marker);
    SerialReport { lines, exit: QemuExitCode::Failed }
}

} // verus!
