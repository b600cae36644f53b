//! Locating the emulator among the processes of the host.

use vstd::prelude::*;

verus! {

/// Exit status that the host reports for a process that is still running.
pub const STILL_ACTIVE: u32 = 259;

/// An open handle to the emulator process. It is neither `Clone` nor `Copy`:
/// whoever holds the value is the one owner of the handle.
#[derive(Debug)]
pub struct ProcessHandle {
    raw: isize,
}

impl View for ProcessHandle {
    type V = isize;

    closed spec fn view(&self) -> isize {
        self.raw
    }
}

impl ProcessHandle {
    /// Takes ownership of a handle that the host has opened.
    pub fn from_raw(raw: isize) -> (handle: ProcessHandle)
        ensures
            handle@ == raw,
    {
        ProcessHandle { raw }
    }

    /// The host's value of the handle, for a call that borrows it.
    pub fn raw(&self) -> (raw: isize)
        ensures
            raw == self@,
    {
        self.raw
    }

    /// Gives the handle up to the caller, who is to close it.
    pub fn into_raw(self) -> (raw: isize)
        ensures
            raw == self@,
    {
        self.raw
    }
}

/// One entry of a snapshot of the host's processes.
#[derive(Debug)]
pub struct ProcessEntry {
    /// Process identifier.
    pub pid: u32,
    /// Name of the executable image, as the host gives it.
    pub name: Vec<u8>,
}

/// `name` begins with `prefix`.
pub open spec fn has_prefix(name: Seq<u8>, prefix: Seq<u8>) -> bool {
    prefix.len() <= name.len() && name.subrange(0, prefix.len() as int) == prefix
}

/// `name` begins with one of the names of the allow-list.
pub open spec fn name_allowed(name: Seq<u8>, allow_list: Seq<Vec<u8>>) -> bool {
    exists|i: int| 0 <= i < allow_list.len() && has_prefix(name, #[trigger] allow_list[i]@)
}

/// A process is live when its exit status could be read and says so.
pub open spec fn live(exit_status: Option<u32>) -> bool {
    exit_status == Some(STILL_ACTIVE)
}

/// Tells whether `name` begins with `prefix`.
pub fn starts_with(name: &Vec<u8>, prefix: &Vec<u8>) -> (found: bool)
    ensures
        found == has_prefix(name@, prefix@),
{
    if prefix.len() > name.len() {
        return false;
    }
    let mut i: usize = 0;
    while i < prefix.len()
        invariant
            i <= prefix@.len() <= name@.len(),
            forall|k: int| 0 <= k < i ==> name@[k] == prefix@[k],
        decreases prefix@.len() - i,
    {
        if name[i] != prefix[i] {
            assert(name@.subrange(0, prefix@.len() as int)[i as int] != prefix@[i as int]);
            return false;
        }
        i = i + 1;
    }
    assert(name@.subrange(0, prefix@.len() as int) =~= prefix@);
    true
}

/// Tells whether the image name of a process is that of a known emulator
/// build: whether it begins with a name of the allow-list.
pub fn is_valid_process_name(name: &Vec<u8>, allow_list: &Vec<Vec<u8>>) -> (allowed: bool)
    ensures
        allowed == name_allowed(name@, allow_list@),
{
    let mut i: usize = 0;
    while i < allow_list.len()
        invariant
            i <= allow_list@.len(),
            forall|k: int| 0 <= k < i ==> !has_prefix(name@, #[trigger] allow_list@[k]@),
        decreases allow_list@.len() - i,
    {
        if starts_with(name, &allow_list[i]) {
            return true;
        }
        i = i + 1;
    }
    false
}

/// Tells whether the answer to an exit status query shows a running process.
pub fn is_live(exit_status: Option<u32>) -> (running: bool)
    ensures
        running == live(exit_status),
{
    match exit_status {
        Some(status) => status == STILL_ACTIVE,
        None => false,
    }
}


/// The locator passes over entry `entry`: its name is not allowed, or it
/// cannot be opened, or it was opened, found not to be running, and closed.
pub open spec fn passed_over<O, E, C>(
    entry: ProcessEntry,
    allow_list: Seq<Vec<u8>>,
    open_process: O,
    exit_status: E,
    close_handle: C,
) -> bool where O: Fn(u32) -> Option<isize>, E: Fn(isize) -> Option<u32>, C: Fn(isize) -> () {
    ||| !name_allowed(entry.name@, allow_list)
    ||| call_ensures(open_process, (entry.pid,), None::<isize>)
    ||| exists|raw: isize, status: Option<u32>|
        {
            &&& call_ensures(open_process, (entry.pid,), Some(raw))
            &&& #[trigger] call_ensures(exit_status, (raw,), status)
            &&& !live(status)
            &&& call_ensures(close_handle, (raw,), ())
        }
}

/// The locator settles on entry `entry` with the handle `raw`: the name is
/// allowed, the process was opened as `raw`, and it is running.
pub open spec fn settled_on<O, E>(
    entry: ProcessEntry,
    raw: isize,
    allow_list: Seq<Vec<u8>>,
    open_process: O,
    exit_status: E,
) -> bool where O: Fn(u32) -> Option<isize>, E: Fn(isize) -> Option<u32> {
    &&& name_allowed(entry.name@, allow_list)
    &&& call_ensures(open_process, (entry.pid,), Some(raw))
    &&& call_ensures(exit_status, (raw,), Some(STILL_ACTIVE))
}

/// The entries before index `count` are all passed over.
pub open spec fn all_passed_over<O, E, C>(
    entries: Seq<ProcessEntry>,
    count: int,
    allow_list: Seq<Vec<u8>>,
    open_process: O,
    exit_status: E,
    close_handle: C,
) -> bool where O: Fn(u32) -> Option<isize>, E: Fn(isize) -> Option<u32>, C: Fn(isize) -> () {
    forall|j: int|
        0 <= j < count ==> #[trigger] passed_over(
            entries[j],
            allow_list,
            open_process,
            exit_status,
            close_handle,
        )
}

/// Entry `index` is the first that the locator settles on, with handle `raw`.
pub open spec fn first_settled<O, E, C>(
    entries: Seq<ProcessEntry>,
    index: int,
    raw: isize,
    allow_list: Seq<Vec<u8>>,
    open_process: O,
    exit_status: E,
    close_handle: C,
) -> bool where O: Fn(u32) -> Option<isize>, E: Fn(isize) -> Option<u32>, C: Fn(isize) -> () {
    &&& 0 <= index < entries.len()
    &&& settled_on(entries[index], raw, allow_list, open_process, exit_status)
    &&& all_passed_over(entries, index, allow_list, open_process, exit_status, close_handle)
}

/// Finds the emulator in a snapshot of the host's processes and opens it.
///
/// `snapshot` is `None` where the host could not take one. The entries are
/// tried in order. An entry whose name is on the allow-list is opened with
/// `open_process`; one that cannot be opened is passed over. An opened process
/// is asked for its exit status: the first that is still running is the
/// result, any other is closed with `close_handle` and passed over.
pub fn find_process_handle<O, E, C>(
    snapshot: &Option<Vec<ProcessEntry>>,
    allow_list: &Vec<Vec<u8>>,
    open_process: &O,
    exit_status: &E,
    close_handle: &C,
) -> (found: Option<ProcessHandle>) where
    O: Fn(u32) -> Option<isize>,
    E: Fn(isize) -> Option<u32>,
    C: Fn(isize) -> (),

    requires
        forall|pid: u32| call_requires(*open_process, (pid,)),
        forall|raw: isize| call_requires(*exit_status, (raw,)),
        forall|raw: isize| call_requires(*close_handle, (raw,)),
    ensures
        snapshot is None ==> found is None,
        found is Some ==> snapshot is Some && exists|index: int| #[trigger]
            first_settled(
                snapshot->Some_0@,
                index,
                found->Some_0@,
                allow_list@,
                *open_process,
                *exit_status,
                *close_handle,
            ),
        found is None && snapshot is Some ==> all_passed_over(
            snapshot->Some_0@,
            snapshot->Some_0@.len() as int,
            allow_list@,
            *open_process,
            *exit_status,
            *close_handle,
        ),
{
    let entries = match snapshot {
        Some(entries) => entries,
        None => {
            return None;
        },
    };
    let mut i: usize = 0;
    while i < entries.len()
        invariant
            *snapshot == Some(*entries),
            i <= entries@.len(),
            forall|pid: u32| call_requires(*open_process, (pid,)),
            forall|raw: isize| call_requires(*exit_status, (raw,)),
            forall|raw: isize| call_requires(*close_handle, (raw,)),
            all_passed_over(
                entries@,
                i as int,
                allow_list@,
                *open_process,
                *exit_status,
                *close_handle,
            ),
        decreases entries@.len() - i,
    {
        let entry = &entries[i];
        if is_valid_process_name(&entry.name, allow_list) {
            match open_process(entry.pid) {
                Some(raw) => {
                    let status = exit_status(raw);
                    if is_live(status) {
                        let found = Some(ProcessHandle::from_raw(raw));
                        assert(first_settled(
                            snapshot->Some_0@,
                            i as int,
                            found->Some_0@,
                            allow_list@,
                            *open_process,
                            *exit_status,
                            *close_handle,
                        ));
                        return found;
                    }
                    close_handle(raw);
                    assert(call_ensures(*exit_status, (raw,), status));
                },
                None => {},
            }
        }
        assert(passed_over(
            entries@[i as int],
            allow_list@,
            *open_process,
            *exit_status,
            *close_handle,
        ));
        i = i + 1;
    }
    None
}

} // verus!
