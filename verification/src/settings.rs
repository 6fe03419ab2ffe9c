//! The "launch at Windows startup" setting. The HKCU `Run` key is both the
//! storage and the mechanism: our value there enables auto-start, its
//! absence disables it. This module builds the registered command line,
//! drives the growth of the buffer that receives the executable's path,
//! and judges the result of removing the value; the registry and module
//! calls themselves are the caller's.

use vstd::prelude::*;

verus! {

/// UTF-16 code units of the argument that starts the app in tray-only mode.
pub open spec fn minimized_flag() -> Seq<u16> {
    seq![45u16, 45, 109, 105, 110, 105, 109, 105, 122, 101, 100]
}

/// The registered command line for the executable at `exe`:
/// `"<exe>" --minimized`, NUL-terminated, in UTF-16.
pub open spec fn command_line(exe: Seq<u16>) -> Seq<u16> {
    seq![34u16] + exe + seq![34u16, 32u16] + minimized_flag() + seq![0u16]
}

/// Builds the command line to register: the executable path in quotes (so
/// spaces in the install location are handled), then `--minimized` so the
/// boot launch starts in tray-only mode, then a NUL terminator.
pub fn run_command_line(exe: &[u16]) -> (command: Vec<u16>)
    requires
        exe@.len() + 15 <= usize::MAX,
    ensures
        command@ == command_line(exe@),
{
    let flag: [u16; 11] = [45, 45, 109, 105, 110, 105, 109, 105, 122, 101, 100];
    let mut command: Vec<u16> = Vec::new();
    command.push(34);
    let mut i: usize = 0;
    while i < exe.len()
        invariant
            0 <= i <= exe@.len(),
            command@ == seq![34u16] + exe@.subrange(0, i as int),
        decreases exe@.len() - i,
    {
        command.push(exe[i]);
        assert(exe@.subrange(0, i + 1) == exe@.subrange(0, i as int).push(exe@[i as int]));
        i = i + 1;
    }
    assert(exe@.subrange(0, exe@.len() as int) == exe@);
    command.push(34);
    command.push(32);
    let ghost prefix = command@;
    let mut j: usize = 0;
    while j < 11
        invariant
            0 <= j <= 11,
            flag@ == minimized_flag(),
            command@ == prefix + flag@.subrange(0, j as int),
        decreases 11 - j,
    {
        command.push(flag[j]);
        assert(flag@.subrange(0, j + 1) == flag@.subrange(0, j as int).push(flag@[j as int]));
        j = j + 1;
    }
    assert(flag@.subrange(0, 11) == flag@);
    command.push(0);
    assert(command@ == command_line(exe@));
    command
}

/// The registered command line is 15 code units longer than the path: a
/// double quote (34), the path, a double quote and a space (34, 32), the
/// eleven units of `--minimized`, and a NUL terminator.
pub proof fn lemma_command_line_layout(exe: Seq<u16>)
    ensures
        ({
            let c = command_line(exe);
            let n = exe.len() as int;
            &&& c.len() == n + 15
            &&& c[0] == 34
            &&& forall|i: int| 0 <= i < n ==> #[trigger] c[i + 1] == exe[i]
            &&& c[n + 1] == 34 && c[n + 2] == 32
            &&& c[n + 3] == 45 && c[n + 4] == 45 && c[n + 5] == 109 && c[n + 6] == 105
            &&& c[n + 7] == 110 && c[n + 8] == 105 && c[n + 9] == 109 && c[n + 10] == 105
            &&& c[n + 11] == 122 && c[n + 12] == 101 && c[n + 13] == 100
            &&& c[n + 14] == 0
        }),
{
    let c = command_line(exe);
    let n = exe.len() as int;
    assert forall|i: int| 0 <= i < n implies #[trigger] c[i + 1] == exe[i] by {
        assert(c[i + 1] == (seq![34u16] + exe)[i + 1]);
    }
}

/// Capacity of the first buffer that receives the executable's path.
pub const INITIAL_PATH_CAPACITY: usize = 260;

/// What to do after the module file name was read into a buffer.
#[derive(Copy, Clone, Debug, PartialEq, Eq, Structural)]
pub enum PathStep {
    /// The call failed.
    Failed,
    /// The path was truncated: retry with a buffer of this length.
    Grow(usize),
    /// The path is the first `len` code units of the buffer.
    Done(usize),
}

/// Whether `next_path_step` can compute its answer without overflow.
pub open spec fn path_step_in_range(buffer_len: usize, written: u32, insufficient_buffer: bool) -> bool {
    (written != 0 && written == buffer_len && insufficient_buffer) ==> buffer_len * 2 <= usize::MAX
}

/// Judges one read of the executable's path into a buffer of `buffer_len`
/// code units, of which the call reports `written` (0 on failure), with
/// `insufficient_buffer` the thread's last error being
/// `ERROR_INSUFFICIENT_BUFFER`. A full buffer with that error means the
/// path was truncated, and the buffer doubles.
pub fn next_path_step(buffer_len: usize, written: u32, insufficient_buffer: bool) -> (step: PathStep)
    requires
        path_step_in_range(buffer_len, written, insufficient_buffer),
    ensures
        step == (if written == 0 {
            PathStep::Failed
        } else if written == buffer_len && insufficient_buffer {
            PathStep::Grow((buffer_len * 2) as usize)
        } else {
            PathStep::Done(written as usize)
        }),
{
    if written == 0 {
        return PathStep::Failed;
    }
    if written as usize == buffer_len && insufficient_buffer {
        return PathStep::Grow(buffer_len * 2);
    }
    PathStep::Done(written as usize)
}

/// Each retry asks for a strictly larger buffer, so the reads terminate.
pub proof fn lemma_path_buffer_grows(buffer_len: usize, written: u32, insufficient_buffer: bool)
    requires
        0 < buffer_len,
        path_step_in_range(buffer_len, written, insufficient_buffer),
    ensures
        (if written == 0 {
            PathStep::Failed
        } else if written == buffer_len && insufficient_buffer {
            PathStep::Grow((buffer_len * 2) as usize)
        } else {
            PathStep::Done(written as usize)
        }) matches PathStep::Grow(n) ==> n > buffer_len,
{
}

/// The Win32 status of success.
pub const ERROR_SUCCESS: u32 = 0;
/// The Win32 status of a missing file, key or value.
pub const ERROR_FILE_NOT_FOUND: u32 = 2;

/// Whether removing our `Run` value succeeded, given the status of the
/// deletion: a value that was already missing counts as removed.
pub fn removal_succeeded(status: u32) -> (ok: bool)
    ensures
        ok == (status == ERROR_SUCCESS || status == ERROR_FILE_NOT_FOUND),
{
    status == ERROR_SUCCESS || status == ERROR_FILE_NOT_FOUND
}

} // verus!
