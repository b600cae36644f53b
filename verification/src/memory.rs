//! The session with the emulator process and the typed reads of its
//! emulated RAM.

use vstd::prelude::*;
use crate::address::{host_address, is_valid_address, offset_of, valid_address, GC_RAM_SIZE};
use crate::endian::{
    be_bytes, be_value, decode, lemma_be_round_trip, lemma_be_value_bound, lemma_reverse_twice,
    radix_pow, reverse_bytes, ByteSize,
};
use crate::process::{
    all_passed_over, find_process_handle, first_settled, is_live, live, ProcessEntry,
    ProcessHandle,
};
use crate::region::{find_gamecube_ram_offset, walk_result, whole_walk, Probe, RegionInfo};
use crate::text::{decode_text, field_text, TextEncoding};

verus! {

/// Why a read gave no value.
#[derive(Clone, Copy, Debug, PartialEq, Eq, Structural)]
pub enum ReadError {
    /// The address lies outside the canonical window. Nothing was copied.
    InvalidAddress,
    /// The host did not copy the whole length; holds the host's error code.
    ReadFailure(u32),
}

/// Why no session could be made.
#[derive(Clone, Copy, Debug, PartialEq, Eq, Structural)]
pub enum SessionError {
    /// No process of the snapshot is a running emulator that can be opened.
    ProcessNotFound,
    /// The emulator's address space holds no region that backs the emulated RAM.
    RegionNotFound,
}

/// Why a request for a number was refused.
#[derive(Clone, Copy, Debug, PartialEq, Eq, Structural)]
pub enum RequestError {
    /// The address is not a 32-bit number.
    InvalidAddress,
    /// The width is not 8, 16 or 32 bits.
    InvalidByteSize,
    /// The read itself failed.
    ReadFailed(ReadError),
}

impl RequestError {
    /// The words in which the caller is told of the refusal.
    pub open spec fn text(self) -> Seq<char> {
        match self {
            RequestError::InvalidAddress => "invalid address"@,
            RequestError::InvalidByteSize => "invalid byte size"@,
            RequestError::ReadFailed(_) => "failed reading from address"@,
        }
    }

    /// The words in which the caller is told of the refusal.
    pub fn message(&self) -> (message: &'static str)
        ensures
            message@ == self.text(),
    {
        match self {
            RequestError::InvalidAddress => "invalid address",
            RequestError::InvalidByteSize => "invalid byte size",
            RequestError::ReadFailed(_) => "failed reading from address",
        }
    }
}

/// What the host reports of one copy out of the memory of the process.
#[derive(Debug)]
pub struct CopyOutcome {
    /// Whether the host's call reported success.
    pub completed: bool,
    /// The bytes that the host reported as copied, in memory order.
    pub bytes: Vec<u8>,
    /// The host's last error code.
    pub os_error: u32,
}

/// The bytes of a copy of `len` bytes: the copy fails unless the host
/// reported success and the full length.
pub open spec fn copied(len: nat, outcome: CopyOutcome) -> Result<Seq<u8>, ReadError> {
    if outcome.completed && outcome.bytes@.len() == len {
        Ok(outcome.bytes@)
    } else {
        Err(ReadError::ReadFailure(outcome.os_error))
    }
}

/// The buffer that a read of `len` bytes hands on: the copied bytes in
/// reverse order.
pub open spec fn buffer_of(len: nat, outcome: CopyOutcome) -> Result<Seq<u8>, ReadError> {
    match copied(len, outcome) {
        Ok(bytes) => Ok(bytes.reverse()),
        Err(e) => Err(e),
    }
}

/// The value of a typed read: the copied bytes read big-endian.
pub open spec fn value_of(size: ByteSize, outcome: CopyOutcome) -> Result<u32, ReadError> {
    match copied(size.width(), outcome) {
        Ok(bytes) => Ok(be_value(bytes) as u32),
        Err(e) => Err(e),
    }
}

/// The text of a field of `len` bytes: absent where the copy fails or the
/// bytes are not valid in the encoding.
pub open spec fn text_of(len: nat, encoding: TextEncoding, outcome: CopyOutcome) -> Option<
    Seq<char>,
> {
    match copied(len, outcome) {
        Ok(bytes) => field_text(bytes, encoding),
        Err(_) => None,
    }
}

/// The view of a buffer result.
pub open spec fn buffer_view(result: Result<Vec<u8>, ReadError>) -> Result<Seq<u8>, ReadError> {
    match result {
        Ok(bytes) => Ok(bytes@),
        Err(e) => Err(e),
    }
}

/// The view of a text result.
pub open spec fn text_view(result: Option<String>) -> Option<Seq<char>> {
    match result {
        Some(text) => Some(text@),
        None => None,
    }
}

/// A region can back the emulated RAM when it does not begin at address
/// zero, its size is 32 MiB or an exact multiple of it, and it ends inside
/// the addressable range.
pub open spec fn region_well_formed(base: int, size: int) -> bool {
    &&& base != 0
    &&& size >= GC_RAM_SIZE
    &&& size % (GC_RAM_SIZE as int) == 0
    &&& base + size - 1 <= usize::MAX
}

/// Checks the outcome of a copy of `len` bytes and hands on the buffer.
pub fn check_copy(len: usize, outcome: CopyOutcome) -> (buffer: Result<Vec<u8>, ReadError>)
    ensures
        buffer_view(buffer) == buffer_of(len as nat, outcome),
{
    if outcome.completed && outcome.bytes.len() == len {
        Ok(reverse_bytes(outcome.bytes))
    } else {
        Err(ReadError::ReadFailure(outcome.os_error))
    }
}

/// Decodes the buffer of a typed read: its bytes, reversed once more into
/// console order, read big-endian.
pub fn decode_buffer(size: ByteSize, buffer: Vec<u8>) -> (value: u32)
    requires
        buffer@.len() == size.width(),
    ensures
        value == be_value(buffer@.reverse()),
        value < radix_pow(size.width()),
{
    proof {
        lemma_be_value_bound(buffer@.reverse());
    }
    decode(reverse_bytes(buffer))
}

/// Finishes a typed read of `size`: checks the outcome of the copy and
/// decodes the buffer.
pub fn finish_read(size: ByteSize, outcome: CopyOutcome) -> (value: Result<u32, ReadError>)
    ensures
        value == value_of(size, outcome),
        value matches Ok(v) ==> v < radix_pow(size.width()),
{
    proof {
        lemma_reverse_twice(outcome.bytes@);
    }
    match check_copy(size.byte_count(), outcome) {
        Ok(buffer) => Ok(decode_buffer(size, buffer)),
        Err(e) => Err(e),
    }
}

/// Finishes the read of a text field of `len` bytes: checks the outcome of
/// the copy, reverses the buffer back into memory order, decodes it in
/// `encoding` and trims its NUL padding.
pub fn finish_string(len: usize, encoding: TextEncoding, outcome: CopyOutcome) -> (text: Option<
    String,
>)
    ensures
        text_view(text) == text_of(len as nat, encoding, outcome),
{
    proof {
        lemma_reverse_twice(outcome.bytes@);
    }
    match check_copy(len, outcome) {
        Ok(buffer) => decode_text(reverse_bytes(buffer), encoding),
        Err(_) => None,
    }
}

/// A session with the emulator process: the handle to the process and the
/// region of its address space that backs the emulated RAM.
#[derive(Debug)]
pub struct DolphinMemory {
    process_handle: ProcessHandle,
    dolphin_base_address: usize,
    dolphin_address_size: usize,
}

impl DolphinMemory {
    /// The invariant of a session.
    #[verifier::type_invariant]
    pub closed spec fn well_formed(&self) -> bool {
        region_well_formed(self.dolphin_base_address as int, self.dolphin_address_size as int)
    }

    /// The host's value of the handle that the session owns.
    pub closed spec fn handle(&self) -> isize {
        self.process_handle@
    }

    /// Address at which the region of the emulated RAM begins.
    pub closed spec fn base(&self) -> usize {
        self.dolphin_base_address
    }

    /// Size of the region of the emulated RAM.
    pub closed spec fn size(&self) -> usize {
        self.dolphin_address_size
    }

    /// Host address that backs the emulated address `addr`.
    pub open spec fn host_address(&self, addr: u32) -> usize {
        host_address(self.base() as int, addr) as usize
    }

    /// `result` is what a read of `len` bytes at `addr` may hand on: for an
    /// address outside the canonical window `InvalidAddress`, else the buffer of
    /// an outcome that `copy` may give for the host address and the length.
    pub open spec fn bytes_read<F>(&self, copy: F, addr: u32, len: usize, result: Result<
        Seq<u8>,
        ReadError,
    >) -> bool where F: Fn(isize, usize, usize) -> CopyOutcome {
        if valid_address(addr) {
            exists|outcome: CopyOutcome| #[trigger]
                call_ensures(copy, (self.handle(), self.host_address(addr), len), outcome)
                    && result == buffer_of(len as nat, outcome)
        } else {
            result == Err::<Seq<u8>, ReadError>(ReadError::InvalidAddress)
        }
    }

    /// `result` is what a typed read at `addr` may return.
    pub open spec fn value_read<F>(&self, copy: F, addr: u32, size: ByteSize, result: Result<
        u32,
        ReadError,
    >) -> bool where F: Fn(isize, usize, usize) -> CopyOutcome {
        if valid_address(addr) {
            exists|outcome: CopyOutcome| #[trigger]
                call_ensures(
                    copy,
                    (self.handle(), self.host_address(addr), size.width() as usize),
                    outcome,
                ) && result == value_of(size, outcome)
        } else {
            result == Err::<u32, ReadError>(ReadError::InvalidAddress)
        }
    }

    /// `result` is what a read of a text field at `addr` may return.
    pub open spec fn text_read<F>(
        &self,
        copy: F,
        addr: u32,
        len: usize,
        encoding: TextEncoding,
        result: Option<Seq<char>>,
    ) -> bool where F: Fn(isize, usize, usize) -> CopyOutcome {
        if valid_address(addr) {
            exists|outcome: CopyOutcome| #[trigger]
                call_ensures(copy, (self.handle(), self.host_address(addr), len), outcome)
                    && result == text_of(len as nat, encoding, outcome)
        } else {
            result is None
        }
    }

    /// Makes the session of an open process and the region found in it.
    /// Where the region cannot back the emulated RAM, the handle comes back.
    pub fn new(
        process_handle: ProcessHandle,
        dolphin_base_address: usize,
        dolphin_address_size: usize,
    ) -> (session: Result<DolphinMemory, ProcessHandle>)
        ensures
            session is Ok <==> region_well_formed(
                dolphin_base_address as int,
                dolphin_address_size as int,
            ),
            session matches Ok(memory) ==> {
                &&& memory.handle() == process_handle@
                &&& memory.base() == dolphin_base_address
                &&& memory.size() == dolphin_address_size
            },
            session matches Err(handle) ==> handle == process_handle,
    {
        if dolphin_base_address != 0 && dolphin_address_size >= GC_RAM_SIZE && dolphin_address_size
            % GC_RAM_SIZE == 0 && dolphin_address_size - 1 <= usize::MAX - dolphin_base_address {
            Ok(DolphinMemory { process_handle, dolphin_base_address, dolphin_address_size })
        } else {
            Err(process_handle)
        }
    }

    /// Address at which the region of the emulated RAM begins.
    pub fn base_address(&self) -> (base: usize)
        ensures
            base == self.base(),
            base != 0,
    {
        proof {
            use_type_invariant(self);
        }
        self.dolphin_base_address
    }

    /// Size of the region of the emulated RAM.
    pub fn region_size(&self) -> (size: usize)
        ensures
            size == self.size(),
            region_well_formed(self.base() as int, size as int),
    {
        proof {
            use_type_invariant(self);
        }
        self.dolphin_address_size
    }

    /// Translates an emulated address to the host address that backs it.
    pub fn translate(&self, addr: u32) -> (host: Result<usize, ReadError>)
        ensures
            valid_address(addr) ==> host == Ok::<usize, ReadError>(self.host_address(addr)),
            valid_address(addr) ==> self.host_address(addr) == self.base() + addr % 0x8000_0000,
            valid_address(addr) ==> self.host_address(addr) + 4 <= self.base() + self.size(),
            !valid_address(addr) ==> host == Err::<usize, ReadError>(ReadError::InvalidAddress),
    {
        proof {
            use_type_invariant(self);
        }
        if !is_valid_address(addr) {
            return Err(ReadError::InvalidAddress);
        }
        let offset = offset_of(addr);
        Ok(self.dolphin_base_address + offset as usize)
    }

    /// Copies `len` bytes at the emulated address `addr` and hands them on in
    /// reverse order. An address outside the canonical window is rejected
    /// before anything is copied: `copy` need not even be callable then.
    pub fn read_bytes<F>(&self, addr: u32, len: usize, copy: &F) -> (buffer: Result<
        Vec<u8>,
        ReadError,
    >) where F: Fn(isize, usize, usize) -> CopyOutcome
        requires
            valid_address(addr) ==> call_requires(
                *copy,
                (self.handle(), self.host_address(addr), len),
            ),
        ensures
            self.bytes_read(*copy, addr, len, buffer_view(buffer)),
    {
        let host = match self.translate(addr) {
            Ok(host) => host,
            Err(e) => {
                return Err(e);
            },
        };
        let outcome = copy(self.process_handle.raw(), host, len);
        let buffer = check_copy(len, outcome);
        assert(call_ensures(*copy, (self.handle(), self.host_address(addr), len), outcome));
        buffer
    }

    /// Reads the value of `size` at the emulated address `addr`: the bytes
    /// there, read big-endian.
    pub fn read<F>(&self, addr: u32, size: ByteSize, copy: &F) -> (value: Result<
        u32,
        ReadError,
    >) where F: Fn(isize, usize, usize) -> CopyOutcome
        requires
            valid_address(addr) ==> call_requires(
                *copy,
                (self.handle(), self.host_address(addr), size.width() as usize),
            ),
        ensures
            self.value_read(*copy, addr, size, value),
            value matches Ok(v) ==> v < radix_pow(size.width()),
    {
        let host = match self.translate(addr) {
            Ok(host) => host,
            Err(e) => {
                return Err(e);
            },
        };
        let outcome = copy(self.process_handle.raw(), host, size.byte_count());
        assert(call_ensures(
            *copy,
            (self.handle(), self.host_address(addr), size.width() as usize),
            outcome,
        ));
        finish_read(size, outcome)
    }

    /// `result` is what a request for the number of `bits` bits at `address`
    /// may return. The address is checked first, then the width, then the
    /// number is read.
    pub open spec fn number_read<F>(
        &self,
        copy: F,
        address: Option<u32>,
        bits: Option<u32>,
        result: Result<u32, RequestError>,
    ) -> bool where F: Fn(isize, usize, usize) -> CopyOutcome {
        match address {
            None => result == Err::<u32, RequestError>(RequestError::InvalidAddress),
            Some(addr) => match bits {
                Some(bits) if ByteSize::of_bits(bits as int) is Some => exists|
                    value: Result<u32, ReadError>,
                | #[trigger]
                    self.value_read(copy, addr, ByteSize::of_bits(bits as int)->Some_0, value)
                        && result == match value {
                        Ok(v) => Ok::<u32, RequestError>(v),
                        Err(e) => Err(RequestError::ReadFailed(e)),
                    },
                _ => result == Err::<u32, RequestError>(RequestError::InvalidByteSize),
            },
        }
    }

    /// Answers a request for a number: `address` and `bits` are what the
    /// caller gave for the address and the width, `None` where what was given
    /// is no 32-bit number.
    pub fn read_number<F>(&self, address: Option<u32>, bits: Option<u32>, copy: &F) -> (result:
        Result<u32, RequestError>) where F: Fn(isize, usize, usize) -> CopyOutcome
        requires
            forall|host: usize, len: usize| #[trigger]
                call_requires(*copy, (self.handle(), host, len)),
        ensures
            self.number_read(*copy, address, bits, result),
    {
        let addr = match address {
            Some(addr) => addr,
            None => {
                return Err(RequestError::InvalidAddress);
            },
        };
        let size = match bits {
            Some(bits) => match ByteSize::from_bits(bits) {
                Some(size) => size,
                None => {
                    return Err(RequestError::InvalidByteSize);
                },
            },
            None => {
                return Err(RequestError::InvalidByteSize);
            },
        };
        let value = self.read(addr, size, copy);
        assert(self.value_read(*copy, addr, size, value));
        match value {
            Ok(v) => Ok(v),
            Err(e) => Err(RequestError::ReadFailed(e)),
        }
    }

    /// Reads the byte at the emulated address `addr`.
    pub fn read_u8<F>(&self, addr: u32, copy: &F) -> (value: Result<u8, ReadError>) where
        F: Fn(isize, usize, usize) -> CopyOutcome,

        requires
            valid_address(addr) ==> call_requires(
                *copy,
                (self.handle(), self.host_address(addr), 1usize),
            ),
        ensures
            self.value_read(
                *copy,
                addr,
                ByteSize::U8,
                match value {
                    Ok(v) => Ok(v as u32),
                    Err(e) => Err(e),
                },
            ),
    {
        match self.read(addr, ByteSize::U8, copy) {
            Ok(v) => {
                proof {
                    reveal_with_fuel(radix_pow, 2);
                }
                Ok(v as u8)
            },
            Err(e) => Err(e),
        }
    }

    /// Reads the big-endian 16-bit value at the emulated address `addr`.
    pub fn read_u16<F>(&self, addr: u32, copy: &F) -> (value: Result<u16, ReadError>) where
        F: Fn(isize, usize, usize) -> CopyOutcome,

        requires
            valid_address(addr) ==> call_requires(
                *copy,
                (self.handle(), self.host_address(addr), 2usize),
            ),
        ensures
            self.value_read(
                *copy,
                addr,
                ByteSize::U16,
                match value {
                    Ok(v) => Ok(v as u32),
                    Err(e) => Err(e),
                },
            ),
    {
        match self.read(addr, ByteSize::U16, copy) {
            Ok(v) => {
                proof {
                    reveal_with_fuel(radix_pow, 3);
                }
                Ok(v as u16)
            },
            Err(e) => Err(e),
        }
    }

    /// Reads the big-endian 32-bit value at the emulated address `addr`.
    pub fn read_u32<F>(&self, addr: u32, copy: &F) -> (value: Result<u32, ReadError>) where
        F: Fn(isize, usize, usize) -> CopyOutcome,

        requires
            valid_address(addr) ==> call_requires(
                *copy,
                (self.handle(), self.host_address(addr), 4usize),
            ),
        ensures
            self.value_read(*copy, addr, ByteSize::U32, value),
    {
        self.read(addr, ByteSize::U32, copy)
    }

    /// Reads the text field of `len` bytes at the emulated address `addr`.
    /// The buffer of the read is reversed back into memory order, decoded in
    /// `encoding`, and its NUL padding is trimmed. The text is absent where the
    /// read fails or the bytes are not valid in the encoding.
    pub fn read_string<F>(&self, addr: u32, len: usize, encoding: TextEncoding, copy: &F) -> (text:
        Option<String>) where F: Fn(isize, usize, usize) -> CopyOutcome
        requires
            valid_address(addr) ==> call_requires(
                *copy,
                (self.handle(), self.host_address(addr), len),
            ),
        ensures
            self.text_read(*copy, addr, len, encoding, text_view(text)),
    {
        let host = match self.translate(addr) {
            Ok(host) => host,
            Err(_) => {
                return None;
            },
        };
        let outcome = copy(self.process_handle.raw(), host, len);
        assert(call_ensures(*copy, (self.handle(), self.host_address(addr), len), outcome));
        finish_string(len, encoding, outcome)
    }

    /// `found` is what following a chain of `depth` pointers from `addr` may
    /// return: nothing for a chain of no pointers or where a read of the chain
    /// fails, else the value read at the last pointer.
    pub open spec fn chain_read<F>(&self, copy: F, addr: u32, depth: nat, found: Option<u32>) -> bool
        where F: Fn(isize, usize, usize) -> CopyOutcome
        decreases depth,
    {
        if depth == 0 {
            found is None
        } else {
            exists|first: Result<u32, ReadError>| #[trigger]
                self.value_read(copy, addr, ByteSize::U32, first) && match first {
                    Ok(next) => if depth == 1 {
                        found == Some(next)
                    } else {
                        self.chain_read(copy, next, (depth - 1) as nat, found)
                    },
                    Err(_) => found is None,
                }
        }
    }

    /// Follows a chain of `depth` pointers that begins at the emulated address
    /// `addr`: reads the 32-bit value there, then the one at that value, and so
    /// on, `depth` reads in all, and returns the last value read. Stops with
    /// `None` at the first read that fails. A chain of no pointers gives `None`.
    pub fn pointer_indirection<F>(&self, addr: u32, depth: u32, copy: &F) -> (found: Option<
        u32,
    >) where F: Fn(isize, usize, usize) -> CopyOutcome
        requires
            forall|host: usize| call_requires(*copy, (self.handle(), host, 4usize)),
        ensures
            self.chain_read(*copy, addr, depth as nat, found),
    {
        if depth == 0 {
            return None;
        }
        let mut current: u32 = addr;
        let mut remaining: u32 = depth;
        loop
            invariant
                remaining >= 1,
                forall|host: usize| call_requires(*copy, (self.handle(), host, 4usize)),
                forall|found: Option<u32>|
                    self.chain_read(*copy, current, remaining as nat, found) ==> self.chain_read(
                        *copy,
                        addr,
                        depth as nat,
                        found,
                    ),
            decreases remaining,
        {
            let first = self.read_u32(current, copy);
            match first {
                Ok(next) => {
                    if remaining == 1 {
                        assert(self.chain_read(*copy, current, remaining as nat, Some(next)));
                        return Some(next);
                    }
                    assert forall|found: Option<u32>|
                        self.chain_read(
                            *copy,
                            next,
                            (remaining - 1) as nat,
                            found,
                        ) implies self.chain_read(*copy, addr, depth as nat, found) by {
                        assert(self.chain_read(*copy, current, remaining as nat, found));
                    }
                    current = next;
                    remaining = remaining - 1;
                },
                Err(_) => {
                    assert(self.chain_read(*copy, current, remaining as nat, None));
                    return None;
                },
            }
        }
    }

    /// Ends the session: closes the handle to the process with `close_handle`.
    /// The session is consumed, so that its handle is closed once.
    pub fn dispose<C>(self, close_handle: C) where C: FnOnce(isize) -> ()
        requires
            call_requires(close_handle, (self.handle(),)),
        ensures
            call_ensures(close_handle, (self.handle(),), ()),
    {
        close_handle(self.process_handle.into_raw())
    }

    /// Asks the host whether the process of the session is still running.
    /// A session whose process is running comes back unchanged. Any other is
    /// ended: its handle is closed and the caller has to discover anew.
    pub fn retain_if_live<E, C>(self, exit_status: &E, close_handle: C) -> (kept: Option<
        DolphinMemory,
    >) where E: Fn(isize) -> Option<u32>, C: FnOnce(isize) -> ()
        requires
            call_requires(*exit_status, (self.handle(),)),
            call_requires(close_handle, (self.handle(),)),
        ensures
            exists|status: Option<u32>| #[trigger]
                call_ensures(*exit_status, (self.handle(),), status) && if live(status) {
                    kept == Some(self)
                } else {
                    kept is None && call_ensures(close_handle, (self.handle(),), ())
                },
    {
        let status = exit_status(self.process_handle.raw());
        if is_live(status) {
            Some(self)
        } else {
            self.dispose(close_handle);
            None
        }
    }
}

/// A discovery that got as far as the region walk: entry `index` of the
/// snapshot is the emulator, opened as `raw`, and `probes` is the walk of its
/// address space.
pub open spec fn discovered<O, E, C, Q, W>(
    entries: Seq<ProcessEntry>,
    allow_list: Seq<Vec<u8>>,
    open_process: O,
    exit_status: E,
    close_handle: C,
    query_region: Q,
    working_set: W,
    index: int,
    raw: isize,
    probes: Seq<Probe>,
) -> bool where
    O: Fn(u32) -> Option<isize>,
    E: Fn(isize) -> Option<u32>,
    C: Fn(isize) -> (),
    Q: Fn(isize, usize) -> Option<RegionInfo>,
    W: Fn(isize, usize) -> Option<u64>,
 {
    &&& first_settled(entries, index, raw, allow_list, open_process, exit_status, close_handle)
    &&& whole_walk(query_region, working_set, raw, probes)
}

impl DolphinMemory {
    /// Makes the session of an open process and the outcome of the region
    /// walk. Where the walk found no region, or one that cannot back the
    /// emulated RAM, the handle is closed with `close_handle` and the session
    /// is refused.
    pub fn with_region<C>(
        process_handle: ProcessHandle,
        found: Option<(usize, usize)>,
        close_handle: &C,
    ) -> (session: Result<DolphinMemory, SessionError>) where C: Fn(isize) -> ()
        requires
            call_requires(*close_handle, (process_handle@,)),
        ensures
            session is Ok <==> (found matches Some((base, size)) && region_well_formed(
                base as int,
                size as int,
            )),
            session matches Ok(memory) ==> {
                &&& memory.handle() == process_handle@
                &&& found == Some((memory.base(), memory.size()))
            },
            session matches Err(e) ==> e == SessionError::RegionNotFound && call_ensures(
                *close_handle,
                (process_handle@,),
                (),
            ),
    {
        let rejected = match found {
            Some((base, size)) => match DolphinMemory::new(process_handle, base, size) {
                Ok(memory) => {
                    return Ok(memory);
                },
                Err(process_handle) => process_handle,
            },
            None => process_handle,
        };
        close_handle(rejected.into_raw());
        Err(SessionError::RegionNotFound)
    }

    /// Discovers the emulator and makes the session with it.
    ///
    /// The process is located in the snapshot as `find_process_handle` does,
    /// and the region of the emulated RAM in its address space as
    /// `find_gamecube_ram_offset` does. Where no region is found, or the region
    /// found cannot back the emulated RAM, the handle of the process is closed
    /// before the error is returned.
    pub fn init_with_process<O, E, C, Q, W>(
        snapshot: &Option<Vec<ProcessEntry>>,
        allow_list: &Vec<Vec<u8>>,
        open_process: &O,
        exit_status: &E,
        close_handle: &C,
        query_region: &Q,
        working_set: &W,
    ) -> (session: Result<DolphinMemory, SessionError>) where
        O: Fn(u32) -> Option<isize>,
        E: Fn(isize) -> Option<u32>,
        C: Fn(isize) -> (),
        Q: Fn(isize, usize) -> Option<RegionInfo>,
        W: Fn(isize, usize) -> Option<u64>,

        requires
            forall|pid: u32| call_requires(*open_process, (pid,)),
            forall|raw: isize| call_requires(*exit_status, (raw,)),
            forall|raw: isize| call_requires(*close_handle, (raw,)),
            forall|raw: isize, cursor: usize| call_requires(*query_region, (raw, cursor)),
            forall|raw: isize, base: usize| call_requires(*working_set, (raw, base)),
        ensures
            session matches Ok(memory) ==> snapshot is Some && exists|
                index: int,
                probes: Seq<Probe>,
            | #[trigger]
                discovered(
                    snapshot->Some_0@,
                    allow_list@,
                    *open_process,
                    *exit_status,
                    *close_handle,
                    *query_region,
                    *working_set,
                    index,
                    memory.handle(),
                    probes,
                ) && walk_result(probes.last()) == Some((memory.base(), memory.size())),
            session == Err::<DolphinMemory, SessionError>(SessionError::ProcessNotFound) ==> (snapshot
                is Some ==> all_passed_over(
                snapshot->Some_0@,
                snapshot->Some_0@.len() as int,
                allow_list@,
                *open_process,
                *exit_status,
                *close_handle,
            )),
            session == Err::<DolphinMemory, SessionError>(SessionError::RegionNotFound) ==> snapshot
                is Some && exists|index: int, raw: isize, probes: Seq<Probe>| #[trigger]
                discovered(
                    snapshot->Some_0@,
                    allow_list@,
                    *open_process,
                    *exit_status,
                    *close_handle,
                    *query_region,
                    *working_set,
                    index,
                    raw,
                    probes,
                ) && call_ensures(*close_handle, (raw,), ()) && match walk_result(probes.last()) {
                    Some((base, size)) => !region_well_formed(base as int, size as int),
                    None => true,
                },
    {
        let process_handle = match find_process_handle(
            snapshot,
            allow_list,
            open_process,
            exit_status,
            close_handle,
        ) {
            Some(process_handle) => process_handle,
            None => {
                return Err(SessionError::ProcessNotFound);
            },
        };
        let ghost raw = process_handle@;
        let ghost index = choose|index: int| #[trigger]
            first_settled(
                snapshot->Some_0@,
                index,
                raw,
                allow_list@,
                *open_process,
                *exit_status,
                *close_handle,
            );
        let found = find_gamecube_ram_offset(&process_handle, query_region, working_set);
        let ghost probes = choose|probes: Seq<Probe>| #[trigger]
            whole_walk(*query_region, *working_set, raw, probes) && found == walk_result(
                probes.last(),
            );
        assert(discovered(
            snapshot->Some_0@,
            allow_list@,
            *open_process,
            *exit_status,
            *close_handle,
            *query_region,
            *working_set,
            index,
            raw,
            probes,
        ));
        DolphinMemory::with_region(process_handle, found, close_handle)
    }
}

/// Every address of the canonical window translates to the base address
/// plus the address modulo `0x8000_0000`, and a read of up to four bytes there
/// stays inside the region.
pub proof fn lemma_translation(memory: DolphinMemory, addr: u32)
    requires
        memory.well_formed(),
        valid_address(addr),
    ensures
        memory.host_address(addr) == memory.base() + addr % 0x8000_0000,
        memory.base() <= memory.host_address(addr),
        memory.host_address(addr) + 4 <= memory.base() + memory.size(),
{
}

/// A read at an address outside the canonical window gives `InvalidAddress`,
/// whatever the host would copy.
pub proof fn lemma_invalid_address_rejected<F>(
    memory: DolphinMemory,
    copy: F,
    addr: u32,
    size: ByteSize,
    value: Result<u32, ReadError>,
) where F: Fn(isize, usize, usize) -> CopyOutcome
    requires
        !valid_address(addr),
        memory.value_read(copy, addr, size, value),
    ensures
        value == Err::<u32, ReadError>(ReadError::InvalidAddress),
{
}

/// A value written big-endian is read back exactly: where the host copies
/// in full the four bytes that spell `value` with the most significant byte
/// first, the read gives `value`.
pub proof fn lemma_read_round_trip(value: u32, outcome: CopyOutcome)
    requires
        outcome.completed,
        outcome.bytes@ == be_bytes(value as nat, 4),
    ensures
        value_of(ByteSize::U32, outcome) == Ok::<u32, ReadError>(value),
{
    reveal_with_fuel(radix_pow, 5);
    lemma_be_round_trip(value as nat, 4);
}

/// A copy that the host cut short or reported as failed gives `ReadFailure`
/// with the host's error code.
pub proof fn lemma_short_copy_fails(size: ByteSize, outcome: CopyOutcome)
    requires
        !outcome.completed || outcome.bytes@.len() != size.width(),
    ensures
        value_of(size, outcome) == Err::<u32, ReadError>(ReadError::ReadFailure(outcome.os_error)),
{
}

/// Two outcomes report the same of a copy.
pub open spec fn same_outcome(first: CopyOutcome, second: CopyOutcome) -> bool {
    &&& first.completed == second.completed
    &&& first.bytes@ == second.bytes@
    &&& first.os_error == second.os_error
}

/// Reads can be repeated: while the host reports the same of every copy at
/// the address, every read there gives the same result.
pub proof fn lemma_read_repeatable<F>(
    memory: DolphinMemory,
    copy: F,
    addr: u32,
    size: ByteSize,
    first: Result<u32, ReadError>,
    second: Result<u32, ReadError>,
) where F: Fn(isize, usize, usize) -> CopyOutcome
    requires
        forall|a: CopyOutcome, b: CopyOutcome|
            #![trigger
                call_ensures(copy, (memory.handle(), memory.host_address(addr), size.width() as usize), a),
                call_ensures(copy, (memory.handle(), memory.host_address(addr), size.width() as usize), b),
            ]
            call_ensures(
                copy,
                (memory.handle(), memory.host_address(addr), size.width() as usize),
                a,
            ) && call_ensures(
                copy,
                (memory.handle(), memory.host_address(addr), size.width() as usize),
                b,
            ) ==> same_outcome(a, b),
        memory.value_read(copy, addr, size, first),
        memory.value_read(copy, addr, size, second),
    ensures
        first == second,
{
}

/// Following a chain of one pointer is one 32-bit read.
pub proof fn lemma_chain_of_one<F>(memory: DolphinMemory, copy: F, addr: u32, found: Option<u32>)
    where F: Fn(isize, usize, usize) -> CopyOutcome
    ensures
        memory.chain_read(copy, addr, 1, found) <==> exists|first: Result<u32, ReadError>| #[trigger]
            memory.value_read(copy, addr, ByteSize::U32, first) && found == match first {
                Ok(value) => Some(value),
                Err(_) => None,
            },
{
    if memory.chain_read(copy, addr, 1, found) {
        let first = choose|first: Result<u32, ReadError>| #[trigger]
            memory.value_read(copy, addr, ByteSize::U32, first) && match first {
                Ok(next) => found == Some(next),
                Err(_) => found is None,
            };
        assert(memory.value_read(copy, addr, ByteSize::U32, first) && found == match first {
            Ok(value) => Some(value),
            Err(_) => None,
        });
    }
    if exists|first: Result<u32, ReadError>| #[trigger]
        memory.value_read(copy, addr, ByteSize::U32, first) && found == match first {
            Ok(value) => Some(value),
            Err(_) => None,
        } {
        let first = choose|first: Result<u32, ReadError>| #[trigger]
            memory.value_read(copy, addr, ByteSize::U32, first) && found == match first {
                Ok(value) => Some(value),
                Err(_) => None,
            };
        assert(memory.value_read(copy, addr, ByteSize::U32, first));
    }
}

/// Every 32-bit read at `addr` fails.
pub open spec fn unreadable<F>(memory: DolphinMemory, copy: F, addr: u32) -> bool where
    F: Fn(isize, usize, usize) -> CopyOutcome,
 {
    forall|first: Result<u32, ReadError>| #[trigger]
        memory.value_read(copy, addr, ByteSize::U32, first) ==> first is Err
}

/// A chain of `links + rest` pointers is a chain of `links` pointers followed,
/// from the value that it gives, by a chain of `rest` pointers.
pub proof fn lemma_chain_split<F>(
    memory: DolphinMemory,
    copy: F,
    addr: u32,
    links: nat,
    rest: nat,
    found: Option<u32>,
) where F: Fn(isize, usize, usize) -> CopyOutcome
    requires
        links >= 1,
        rest >= 1,
        memory.chain_read(copy, addr, links + rest, found),
    ensures
        exists|middle: Option<u32>| #[trigger]
            memory.chain_read(copy, addr, links, middle) && match middle {
                Some(next) => memory.chain_read(copy, next, rest, found),
                None => found is None,
            },
    decreases links,
{
    let first = choose|first: Result<u32, ReadError>| #[trigger]
        memory.value_read(copy, addr, ByteSize::U32, first) && match first {
            Ok(next) => memory.chain_read(copy, next, (links + rest - 1) as nat, found),
            Err(_) => found is None,
        };
    match first {
        Ok(next) => {
            if links == 1 {
                assert(memory.chain_read(copy, addr, links, Some(next)));
            } else {
                lemma_chain_split(memory, copy, next, (links - 1) as nat, rest, found);
                let middle = choose|middle: Option<u32>| #[trigger]
                    memory.chain_read(copy, next, (links - 1) as nat, middle) && match middle {
                        Some(next) => memory.chain_read(copy, next, rest, found),
                        None => found is None,
                    };
                assert(memory.chain_read(copy, addr, links, middle));
            }
        },
        Err(_) => {
            assert(memory.chain_read(copy, addr, links, None));
        },
    }
}

/// A chain whose first read fails gives nothing, however long it is.
pub proof fn lemma_chain_stops_at_first<F>(
    memory: DolphinMemory,
    copy: F,
    addr: u32,
    depth: nat,
    found: Option<u32>,
) where F: Fn(isize, usize, usize) -> CopyOutcome
    requires
        unreadable(memory, copy, addr),
        memory.chain_read(copy, addr, depth, found),
    ensures
        found is None,
{
}

/// A chain gives nothing as soon as one of its reads fails: where every chain
/// of `links` pointers from `addr` fails or arrives at an address that cannot
/// be read, every longer chain from `addr` gives nothing.
pub proof fn lemma_chain_stops_at_failure<F>(
    memory: DolphinMemory,
    copy: F,
    addr: u32,
    links: nat,
    rest: nat,
    found: Option<u32>,
) where F: Fn(isize, usize, usize) -> CopyOutcome
    requires
        links >= 1,
        rest >= 1,
        forall|middle: Option<u32>| #[trigger]
            memory.chain_read(copy, addr, links, middle) ==> (middle matches Some(next)
                ==> unreadable(memory, copy, next)),
        memory.chain_read(copy, addr, links + rest, found),
    ensures
        found is None,
{
    lemma_chain_split(memory, copy, addr, links, rest, found);
    let middle = choose|middle: Option<u32>| #[trigger]
        memory.chain_read(copy, addr, links, middle) && match middle {
            Some(next) => memory.chain_read(copy, next, rest, found),
            None => found is None,
        };
    match middle {
        Some(next) => {
            lemma_chain_stops_at_first(memory, copy, next, rest, found);
        },
        None => {},
    }
}

} // verus!
