use std::cell::{Cell, RefCell};

use dolphin_memory::address::GC_RAM_SIZE;
use dolphin_memory::memory::{DolphinMemory, SessionError};
use dolphin_memory::process::{
    find_process_handle, is_live, is_valid_process_name, starts_with, ProcessEntry,
    ProcessHandle, STILL_ACTIVE,
};
use dolphin_memory::region::{
    accepts, advance, find_gamecube_ram_offset, is_candidate, is_resident, RegionInfo,
    MEM_MAPPED,
};

const MEM_PRIVATE: u32 = 0x20000;
const MEM_IMAGE: u32 = 0x1000000;

fn allow_list() -> Vec<Vec<u8>> {
    vec![
        b"Dolphin.exe".to_vec(),
        b"Slippi Dolphin.exe".to_vec(),
        b"DolphinWx.exe".to_vec(),
        b"DolphinQt2.exe".to_vec(),
        b"Citrus Dolphin.exe".to_vec(),
    ]
}

/// The image name as the host gives it: padded with NUL to 260 bytes.
fn image_name(name: &str) -> Vec<u8> {
    let mut bytes = name.as_bytes().to_vec();
    bytes.resize(260, 0);
    bytes
}

fn entry(pid: u32, name: &str) -> ProcessEntry {
    ProcessEntry { pid, name: image_name(name) }
}

/// A host with processes that can be opened (pid to handle) and exit states.
struct Host {
    openable: Vec<(u32, isize)>,
    exit: Vec<(isize, Option<u32>)>,
    opened: RefCell<Vec<u32>>,
    closed: RefCell<Vec<isize>>,
}

impl Host {
    fn new(openable: Vec<(u32, isize)>, exit: Vec<(isize, Option<u32>)>) -> Host {
        Host { openable, exit, opened: RefCell::new(Vec::new()), closed: RefCell::new(Vec::new()) }
    }

    fn open(&self, pid: u32) -> Option<isize> {
        self.opened.borrow_mut().push(pid);
        self.openable.iter().find(|(p, _)| *p == pid).map(|(_, h)| *h)
    }

    fn exit_status(&self, handle: isize) -> Option<u32> {
        self.exit.iter().find(|(h, _)| *h == handle).and_then(|(_, s)| *s)
    }

    fn close(&self, handle: isize) {
        self.closed.borrow_mut().push(handle);
    }

    fn locate(&self, snapshot: &Option<Vec<ProcessEntry>>) -> Option<isize> {
        find_process_handle(
            snapshot,
            &allow_list(),
            &|pid| self.open(pid),
            &|handle| self.exit_status(handle),
            &|handle| self.close(handle),
        )
        .map(|handle| handle.into_raw())
    }
}

/// An address space as a list of regions laid end to end from address zero.
struct Space {
    regions: Vec<RegionInfo>,
    resident: Vec<(usize, Option<u64>)>,
    queried: RefCell<Vec<usize>>,
    probed: RefCell<Vec<usize>>,
}

impl Space {
    fn new(sizes_and_kinds: &[(usize, u32)], resident: Vec<(usize, Option<u64>)>) -> Space {
        let mut regions = Vec::new();
        let mut base = 0usize;
        for (size, kind) in sizes_and_kinds {
            regions.push(RegionInfo { base, size: *size, kind: *kind });
            base += *size;
        }
        Space { regions, resident, queried: RefCell::new(Vec::new()), probed: RefCell::new(Vec::new()) }
    }

    fn query(&self, cursor: usize) -> Option<RegionInfo> {
        self.queried.borrow_mut().push(cursor);
        self.regions.iter().find(|r| r.base <= cursor && cursor - r.base < r.size).copied()
    }

    fn attributes(&self, base: usize) -> Option<u64> {
        self.probed.borrow_mut().push(base);
        self.resident.iter().find(|(b, _)| *b == base).and_then(|(_, a)| *a)
    }

    fn scan(&self) -> Option<(usize, usize)> {
        find_gamecube_ram_offset(
            &ProcessHandle::from_raw(9),
            &|_, cursor| self.query(cursor),
            &|_, base| self.attributes(base),
        )
    }
}

#[test]
fn prefix_test_on_bytes() {
    assert!(starts_with(&b"Dolphin.exe".to_vec(), &b"Dolphin".to_vec()));
    assert!(starts_with(&b"Dolphin.exe".to_vec(), &b"Dolphin.exe".to_vec()));
    assert!(starts_with(&b"Dolphin.exe".to_vec(), &Vec::new()));
    assert!(!starts_with(&b"Dolphin".to_vec(), &b"Dolphin.exe".to_vec()));
    assert!(!starts_with(&b"dolphin.exe".to_vec(), &b"Dolphin".to_vec()));
    assert!(!starts_with(&b"My Dolphin.exe".to_vec(), &b"Dolphin".to_vec()));
    assert!(!starts_with(&Vec::new(), &b"D".to_vec()));
}

#[test]
fn image_names_are_matched_by_prefix() {
    let allow = allow_list();
    assert!(is_valid_process_name(&image_name("Dolphin.exe"), &allow));
    assert!(is_valid_process_name(&image_name("Slippi Dolphin.exe"), &allow));
    assert!(is_valid_process_name(&image_name("DolphinWx.exe"), &allow));
    assert!(is_valid_process_name(&image_name("DolphinQt2.exe"), &allow));
    assert!(is_valid_process_name(&image_name("Citrus Dolphin.exe"), &allow));
    assert!(is_valid_process_name(&b"Dolphin.exe".to_vec(), &allow));
    assert!(!is_valid_process_name(&image_name("explorer.exe"), &allow));
    assert!(!is_valid_process_name(&image_name("Dolphin"), &allow));
    assert!(!is_valid_process_name(&image_name("dolphin.exe"), &allow));
    assert!(!is_valid_process_name(&image_name(""), &allow));
    assert!(!is_valid_process_name(&image_name("Dolphin.exe"), &Vec::new()));
}

#[test]
fn allow_list_is_data() {
    let forked = vec![b"Fork Dolphin.exe".to_vec()];
    assert!(is_valid_process_name(&image_name("Fork Dolphin.exe"), &forked));
    assert!(!is_valid_process_name(&image_name("Dolphin.exe"), &forked));
}

#[test]
fn liveness_needs_the_still_active_status() {
    assert_eq!(STILL_ACTIVE, 259);
    assert!(is_live(Some(259)));
    assert!(!is_live(Some(0)));
    assert!(!is_live(Some(1)));
    assert!(!is_live(None));
}

#[test]
fn locator_returns_the_first_live_match() {
    let host = Host::new(vec![(20, 200), (30, 300)], vec![(200, Some(259)), (300, Some(259))]);
    let snapshot = Some(vec![
        entry(10, "explorer.exe"),
        entry(20, "Slippi Dolphin.exe"),
        entry(30, "Dolphin.exe"),
    ]);
    assert_eq!(host.locate(&snapshot), Some(200));
    assert_eq!(*host.opened.borrow(), vec![20]);
    assert!(host.closed.borrow().is_empty());
}

#[test]
fn locator_opens_only_allowed_names() {
    let host = Host::new(vec![(10, 100), (20, 200)], vec![(100, Some(259)), (200, Some(259))]);
    let snapshot = Some(vec![entry(10, "notepad.exe"), entry(20, "chrome.exe")]);
    assert_eq!(host.locate(&snapshot), None);
    assert!(host.opened.borrow().is_empty());
    assert!(host.closed.borrow().is_empty());
}

#[test]
fn locator_goes_on_after_a_failed_open() {
    let host = Host::new(vec![(30, 300)], vec![(300, Some(259))]);
    let snapshot = Some(vec![entry(20, "Dolphin.exe"), entry(30, "Dolphin.exe")]);
    assert_eq!(host.locate(&snapshot), Some(300));
    assert_eq!(*host.opened.borrow(), vec![20, 30]);
    assert!(host.closed.borrow().is_empty());
}

#[test]
fn locator_closes_a_process_that_has_exited_and_goes_on() {
    let host = Host::new(
        vec![(20, 200), (25, 250), (30, 300)],
        vec![(200, Some(0)), (250, None), (300, Some(259))],
    );
    let snapshot = Some(vec![
        entry(20, "Dolphin.exe"),
        entry(25, "DolphinWx.exe"),
        entry(30, "DolphinQt2.exe"),
    ]);
    assert_eq!(host.locate(&snapshot), Some(300));
    assert_eq!(*host.closed.borrow(), vec![200, 250]);
}

#[test]
fn locator_finds_nothing_without_a_live_match() {
    let host = Host::new(vec![(20, 200)], vec![(200, Some(1))]);
    let snapshot = Some(vec![entry(20, "Dolphin.exe"), entry(21, "Dolphin.exe")]);
    assert_eq!(host.locate(&snapshot), None);
    assert_eq!(*host.opened.borrow(), vec![20, 21]);
    assert_eq!(*host.closed.borrow(), vec![200]);
}

#[test]
fn locator_finds_nothing_without_a_snapshot() {
    let host = Host::new(vec![(20, 200)], vec![(200, Some(259))]);
    assert_eq!(host.locate(&None), None);
    assert_eq!(host.locate(&Some(Vec::new())), None);
    assert!(host.opened.borrow().is_empty());
}

#[test]
fn locator_can_be_run_again() {
    let host = Host::new(vec![(20, 200)], vec![(200, Some(259))]);
    let snapshot = Some(vec![entry(20, "Dolphin.exe")]);
    assert_eq!(host.locate(&snapshot), Some(200));
    assert_eq!(host.locate(&snapshot), Some(200));
}

#[test]
fn candidates_are_mapped_and_ram_sized() {
    let region = |size, kind| RegionInfo { base: 0x1000, size, kind };
    assert!(is_candidate(&region(GC_RAM_SIZE, MEM_MAPPED)));
    assert!(is_candidate(&region(2 * GC_RAM_SIZE, MEM_MAPPED)));
    assert!(is_candidate(&region(3 * GC_RAM_SIZE, MEM_MAPPED)));
    assert!(is_candidate(&region(32 * 1024 * 1024, MEM_MAPPED)));
    assert!(!is_candidate(&region(GC_RAM_SIZE, MEM_PRIVATE)));
    assert!(!is_candidate(&region(GC_RAM_SIZE, MEM_IMAGE)));
    assert!(!is_candidate(&region(GC_RAM_SIZE, 0)));
    assert!(!is_candidate(&region(0, MEM_MAPPED)));
    assert!(!is_candidate(&region(GC_RAM_SIZE - 1, MEM_MAPPED)));
    assert!(!is_candidate(&region(GC_RAM_SIZE + 0x1000, MEM_MAPPED)));
    assert!(!is_candidate(&region(GC_RAM_SIZE / 2, MEM_MAPPED)));
}

#[test]
fn residency_is_the_valid_bit() {
    assert!(is_resident(Some(1)));
    assert!(is_resident(Some(3)));
    assert!(is_resident(Some(u64::MAX)));
    assert!(!is_resident(Some(0)));
    assert!(!is_resident(Some(2)));
    assert!(!is_resident(Some(0xFFFF_FFFE)));
    assert!(!is_resident(None));
}

#[test]
fn acceptance_needs_every_condition() {
    let good = RegionInfo { base: 0x7000_0000, size: GC_RAM_SIZE, kind: MEM_MAPPED };
    assert!(accepts(&good, Some(1)));
    assert!(!accepts(&good, Some(0)));
    assert!(!accepts(&good, None));
    assert!(!accepts(&RegionInfo { base: 0, ..good }, Some(1)));
    assert!(!accepts(&RegionInfo { kind: MEM_PRIVATE, ..good }, Some(1)));
    assert!(!accepts(&RegionInfo { size: GC_RAM_SIZE + 1, ..good }, Some(1)));
    assert!(!accepts(&RegionInfo { size: GC_RAM_SIZE / 2, ..good }, Some(1)));
}

#[test]
fn scan_returns_the_one_qualifying_region() {
    let space = Space::new(
        &[
            (0x10000, MEM_PRIVATE),
            (0x3000, MEM_IMAGE),
            (GC_RAM_SIZE, MEM_MAPPED),
            (0x5000, MEM_PRIVATE),
        ],
        vec![(0x13000, Some(1))],
    );
    assert_eq!(space.scan(), Some((0x13000, GC_RAM_SIZE)));
    assert_eq!(*space.queried.borrow(), vec![0, 0x10000, 0x13000]);
    assert_eq!(*space.probed.borrow(), vec![0x13000]);
}

#[test]
fn scan_finds_nothing_without_a_qualifying_region() {
    let space = Space::new(
        &[
            (0x10000, MEM_PRIVATE),
            (GC_RAM_SIZE, MEM_PRIVATE),
            (GC_RAM_SIZE, MEM_IMAGE),
            (GC_RAM_SIZE + 0x1000, MEM_MAPPED),
            (0x4000, MEM_MAPPED),
        ],
        Vec::new(),
    );
    assert_eq!(space.scan(), None);
    assert_eq!(space.queried.borrow().len(), 6);
    assert!(space.probed.borrow().is_empty());
}

#[test]
fn scan_finds_nothing_in_an_empty_space() {
    let space = Space::new(&[], Vec::new());
    assert_eq!(space.scan(), None);
    assert_eq!(*space.queried.borrow(), vec![0]);
}

#[test]
fn scan_skips_candidates_that_are_not_resident() {
    let space = Space::new(
        &[
            (0x10000, MEM_PRIVATE),
            (GC_RAM_SIZE, MEM_MAPPED),
            (GC_RAM_SIZE, MEM_MAPPED),
            (2 * GC_RAM_SIZE, MEM_MAPPED),
            (GC_RAM_SIZE, MEM_MAPPED),
        ],
        vec![
            (0x10000, Some(0)),
            (0x10000 + GC_RAM_SIZE, None),
            (0x10000 + 2 * GC_RAM_SIZE, Some(0x8000_0001)),
            (0x10000 + 4 * GC_RAM_SIZE, Some(1)),
        ],
    );
    assert_eq!(space.scan(), Some((0x10000 + 2 * GC_RAM_SIZE, 2 * GC_RAM_SIZE)));
    assert_eq!(space.probed.borrow().len(), 3);
}

#[test]
fn scan_does_not_accept_a_region_at_address_zero() {
    let space = Space::new(
        &[(GC_RAM_SIZE, MEM_MAPPED), (GC_RAM_SIZE, MEM_MAPPED)],
        vec![(0, Some(1)), (GC_RAM_SIZE, Some(1))],
    );
    assert_eq!(space.scan(), Some((GC_RAM_SIZE, GC_RAM_SIZE)));
}

#[test]
fn scan_advances_by_the_size_of_each_region() {
    let space = Space::new(
        &[(0x1000, MEM_PRIVATE), (0x2000, MEM_IMAGE), (0x4000, MEM_PRIVATE)],
        Vec::new(),
    );
    assert_eq!(space.scan(), None);
    assert_eq!(*space.queried.borrow(), vec![0, 0x1000, 0x3000, 0x7000]);
}

#[test]
fn scan_ends_where_the_cursor_cannot_advance() {
    let queries = Cell::new(0u32);
    let stuck = find_gamecube_ram_offset(
        &ProcessHandle::from_raw(9),
        &|_, cursor| {
            queries.set(queries.get() + 1);
            Some(RegionInfo { base: cursor, size: 0, kind: MEM_PRIVATE })
        },
        &|_, _| None,
    );
    assert_eq!(stuck, None);
    assert_eq!(queries.get(), 1);
    queries.set(0);
    let past_the_end = find_gamecube_ram_offset(
        &ProcessHandle::from_raw(9),
        &|_, cursor| {
            queries.set(queries.get() + 1);
            Some(RegionInfo { base: cursor, size: usize::MAX / 2 + 1, kind: MEM_PRIVATE })
        },
        &|_, _| None,
    );
    assert_eq!(past_the_end, None);
    assert_eq!(queries.get(), 2);
}

#[test]
fn scan_hands_the_handle_to_the_host() {
    let seen = RefCell::new(Vec::new());
    let found = find_gamecube_ram_offset(
        &ProcessHandle::from_raw(41),
        &|handle, cursor| {
            seen.borrow_mut().push(handle);
            if cursor == 0 {
                Some(RegionInfo { base: 0, size: 0x1000, kind: MEM_PRIVATE })
            } else {
                Some(RegionInfo { base: 0x1000, size: GC_RAM_SIZE, kind: MEM_MAPPED })
            }
        },
        &|handle, base| {
            seen.borrow_mut().push(handle);
            assert_eq!(base, 0x1000);
            Some(1)
        },
    );
    assert_eq!(found, Some((0x1000, GC_RAM_SIZE)));
    assert_eq!(*seen.borrow(), vec![41, 41, 41]);
}

fn discover(host: &Host, space: &Space, snapshot: &Option<Vec<ProcessEntry>>) -> Result<DolphinMemory, SessionError> {
    DolphinMemory::init_with_process(
        snapshot,
        &allow_list(),
        &|pid| host.open(pid),
        &|handle| host.exit_status(handle),
        &|handle| host.close(handle),
        &|_, cursor| space.query(cursor),
        &|_, base| space.attributes(base),
    )
}

#[test]
fn discovery_makes_the_session() {
    let host = Host::new(vec![(20, 200)], vec![(200, Some(259))]);
    let space = Space::new(
        &[(0x10000, MEM_PRIVATE), (2 * GC_RAM_SIZE, MEM_MAPPED)],
        vec![(0x10000, Some(1))],
    );
    let snapshot = Some(vec![entry(5, "svchost.exe"), entry(20, "Slippi Dolphin.exe")]);
    let memory = discover(&host, &space, &snapshot).unwrap();
    assert_eq!(memory.base_address(), 0x10000);
    assert_eq!(memory.region_size(), 2 * GC_RAM_SIZE);
    assert!(host.closed.borrow().is_empty());
    let closed = Cell::new(0u32);
    memory.dispose(|handle| {
        assert_eq!(handle, 200);
        closed.set(closed.get() + 1);
    });
    assert_eq!(closed.get(), 1);
}

#[test]
fn discovery_without_a_process() {
    let host = Host::new(Vec::new(), Vec::new());
    let space = Space::new(&[(GC_RAM_SIZE, MEM_MAPPED)], Vec::new());
    let snapshot = Some(vec![entry(20, "Dolphin.exe")]);
    assert_eq!(discover(&host, &space, &snapshot).err(), Some(SessionError::ProcessNotFound));
    assert_eq!(discover(&host, &space, &None).err(), Some(SessionError::ProcessNotFound));
    assert!(space.queried.borrow().is_empty());
    assert!(host.closed.borrow().is_empty());
}

#[test]
fn discovery_without_a_region_closes_the_handle_once() {
    let host = Host::new(vec![(20, 200)], vec![(200, Some(259))]);
    let space = Space::new(&[(0x10000, MEM_PRIVATE), (GC_RAM_SIZE, MEM_PRIVATE)], Vec::new());
    let snapshot = Some(vec![entry(20, "Dolphin.exe")]);
    assert_eq!(discover(&host, &space, &snapshot).err(), Some(SessionError::RegionNotFound));
    assert_eq!(*host.closed.borrow(), vec![200]);
}

#[test]
fn discovery_can_be_retried() {
    let host = Host::new(vec![(20, 200)], vec![(200, Some(259))]);
    let snapshot = Some(vec![entry(20, "Dolphin.exe")]);
    let not_ready = Space::new(&[(0x10000, MEM_PRIVATE)], Vec::new());
    assert_eq!(discover(&host, &not_ready, &snapshot).err(), Some(SessionError::RegionNotFound));
    let ready = Space::new(
        &[(0x10000, MEM_PRIVATE), (GC_RAM_SIZE, MEM_MAPPED)],
        vec![(0x10000, Some(1))],
    );
    assert!(discover(&host, &ready, &snapshot).is_ok());
    assert_eq!(*host.closed.borrow(), vec![200]);
}

#[test]
fn with_region_refuses_and_closes() {
    let closed = RefCell::new(Vec::new());
    let close = |handle: isize| closed.borrow_mut().push(handle);
    let made = DolphinMemory::with_region(ProcessHandle::from_raw(1), Some((0x1000, GC_RAM_SIZE)), &close);
    assert!(made.is_ok());
    assert!(closed.borrow().is_empty());
    let none = DolphinMemory::with_region(ProcessHandle::from_raw(2), None, &close);
    assert_eq!(none.err(), Some(SessionError::RegionNotFound));
    let past = DolphinMemory::with_region(ProcessHandle::from_raw(3), Some((usize::MAX, GC_RAM_SIZE)), &close);
    assert_eq!(past.err(), Some(SessionError::RegionNotFound));
    assert_eq!(*closed.borrow(), vec![2, 3]);
}

#[test]
fn dispose_closes_the_handle_exactly_once() {
    let memory = DolphinMemory::new(ProcessHandle::from_raw(55), 0x1000, GC_RAM_SIZE).unwrap();
    let closed = RefCell::new(Vec::new());
    memory.dispose(|handle| closed.borrow_mut().push(handle));
    assert_eq!(*closed.borrow(), vec![55]);
}

#[test]
fn live_session_is_retained() {
    let memory = DolphinMemory::new(ProcessHandle::from_raw(55), 0x1000, GC_RAM_SIZE).unwrap();
    let closed = Cell::new(0u32);
    let kept = memory.retain_if_live(&|handle| {
        assert_eq!(handle, 55);
        Some(STILL_ACTIVE)
    }, |_| closed.set(closed.get() + 1));
    assert_eq!(closed.get(), 0);
    let memory = kept.unwrap();
    assert_eq!(memory.base_address(), 0x1000);
}

#[test]
fn dead_session_is_closed_exactly_once() {
    for status in [Some(0u32), Some(1), None] {
        let memory = DolphinMemory::new(ProcessHandle::from_raw(55), 0x1000, GC_RAM_SIZE).unwrap();
        let closed = RefCell::new(Vec::new());
        let kept = memory.retain_if_live(&|_| status, |handle| closed.borrow_mut().push(handle));
        assert!(kept.is_none());
        assert_eq!(*closed.borrow(), vec![55]);
    }
}

#[test]
fn handle_keeps_its_value() {
    let handle = ProcessHandle::from_raw(-1);
    assert_eq!(handle.raw(), -1);
    assert_eq!(handle.into_raw(), -1);
}

#[test]
fn cursor_advances_by_the_region_size() {
    let region = |size| RegionInfo { base: 0, size, kind: MEM_PRIVATE };
    assert_eq!(advance(0, &region(0x1000)), Some(0x1000));
    assert_eq!(advance(0x7000, &region(GC_RAM_SIZE)), Some(0x7000 + GC_RAM_SIZE));
    assert_eq!(advance(usize::MAX - 1, &region(1)), Some(usize::MAX));
    assert_eq!(advance(usize::MAX, &region(1)), None);
    assert_eq!(advance(1, &region(usize::MAX)), None);
    assert_eq!(advance(0x1000, &region(0)), None);
}
