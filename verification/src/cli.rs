//! The commands of the interactive prompt.

use vstd::prelude::*;
use vstd::string::StringSliceAdditionalSpecFns;

verus! {

/// What a line typed at the prompt asks for.
#[derive(Debug, Clone, Copy, PartialEq, Eq, Structural)]
pub enum Command {
    /// `exit`: leave the program.
    Exit,
    /// `worker --help`: list the commands.
    Help,
    /// `worker connect <ip>:<port>`: connect a worker.
    Connect,
    /// Anything else.
    Unknown,
}

/// Whether `s` begins with `prefix`.
pub open spec fn has_prefix(s: Seq<u8>, prefix: Seq<u8>) -> bool {
    s.len() >= prefix.len() && s.subrange(0, prefix.len() as int) == prefix
}

/// The command that a line spells: `exit` and `worker --help` must be the
/// whole line, `worker connect ` its beginning.
pub open spec fn command_of(line: Seq<u8>) -> Command {
    if line == "exit".spec_bytes() {
        Command::Exit
    } else if line == "worker --help".spec_bytes() {
        Command::Help
    } else if has_prefix(line, "worker connect ".spec_bytes()) {
        Command::Connect
    } else {
        Command::Unknown
    }
}

/// Tells whether `s` begins with `prefix`.
pub fn starts_with(s: &[u8], prefix: &[u8]) -> (b: bool)
    ensures
        b == has_prefix(s@, prefix@),
{
    if s.len() < prefix.len() {
        return false;
    }
    let mut i: usize = 0;
    while i < prefix.len()
        invariant
            i <= prefix@.len() <= s@.len(),
            s@.subrange(0, i as int) == prefix@.subrange(0, i as int),
        decreases prefix@.len() - i,
    {
        if s[i] != prefix[i] {
            assert(s@.subrange(0, prefix@.len() as int)[i as int] != prefix@[i as int]);
            return false;
        }
        i += 1;
        assert(s@.subrange(0, i as int) =~= s@.subrange(0, i - 1).push(s@[i - 1]));
        assert(prefix@.subrange(0, i as int) =~= prefix@.subrange(0, i - 1).push(prefix@[i - 1]));
    }
    assert(prefix@.subrange(0, i as int) =~= prefix@);
    true
}

/// Tells whether two runs of bytes are the same.
pub fn same_bytes(a: &[u8], b: &[u8]) -> (r: bool)
    ensures
        r == (a@ == b@),
{
    if a.len() != b.len() {
        return false;
    }
    let r = starts_with(a, b);
    assert(a@.subrange(0, b@.len() as int) =~= a@);
    r
}

/// Reads a line typed at the prompt.
pub fn classify_command(line: &str) -> (c: Command)
    ensures
        c == command_of(line.spec_bytes()),
{
    let bytes = line.as_bytes();
    if same_bytes(bytes, "exit".as_bytes()) {
        Command::Exit
    } else if same_bytes(bytes, "worker --help".as_bytes()) {
        Command::Help
    } else if starts_with(bytes, "worker connect ".as_bytes()) {
        Command::Connect
    } else {
        Command::Unknown
    }
}

} // verus!
