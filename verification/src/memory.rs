//! The memory subsystem.
//!
//! The simulated flat 64-bit address space is a set of disjoint byte areas.
//! An access (read or write) must be fully contained within exactly one area;
//! partial or cross-area accesses are rejected without touching any state.
//! Areas are created at setup (explicit mapping or stack initialization) and
//! only their contents change afterwards; they never overlap each other or
//! the reserved code region.

use vstd::prelude::*;

use crate::axecutor::AxV;
use crate::axecutor::Axecutor;
use crate::errors::AxError;
use crate::errors::AxErrorKind;
use crate::registers::Gpr;
use crate::registers::RegView;
use crate::registers::Width;

verus! {

/// One contiguous mapped byte range of the simulated address space.
#[derive(Clone, Debug)]
pub struct MemoryArea {
    pub name: Option<String>,
    pub start: u64,
    pub length: u64,
    pub data: Vec<u8>,
}

/// The mathematical model of one memory area.
#[verifier::ext_equal]
pub ghost struct AreaV {
    pub name: Option<String>,
    pub start: u64,
    pub length: u64,
    pub data: Seq<u8>,
}

impl View for MemoryArea {
    type V = AreaV;

    open spec fn view(&self) -> AreaV {
        AreaV { name: self.name, start: self.start, length: self.length, data: self.data@ }
    }
}

impl AreaV {
    /// A well-formed area: it owns exactly `length` bytes and its range fits
    /// in the address space.
    pub open spec fn wf(self) -> bool {
        &&& self.data.len() == self.length
        &&& self.start + self.length <= u64::MAX
    }

    /// True when the whole range `[addr, addr + len)` lies inside this area.
    pub open spec fn contains_range(self, addr: u64, len: u64) -> bool {
        self.start <= addr && addr + len <= self.start + self.length
    }

    /// The bytes of this area at a contained range.
    pub open spec fn bytes_at(self, addr: u64, len: u64) -> Seq<u8> {
        self.data.subrange(addr - self.start, addr - self.start + len)
    }

    /// The same area with other contents.
    pub open spec fn with_data(self, data: Seq<u8>) -> AreaV {
        AreaV { data, ..self }
    }
}

/// Well-formed memory: every area well-formed and pairwise disjoint.
pub open spec fn areas_wf(m: Seq<AreaV>) -> bool {
    &&& forall|j: int| 0 <= j < m.len() ==> (#[trigger] m[j]).wf()
    &&& forall|j: int, k: int|
        0 <= j < m.len() && 0 <= k < m.len() && j != k ==> !AxV::ranges_overlap(
            (#[trigger] m[j]).start,
            m[j].length,
            (#[trigger] m[k]).start,
            m[k].length,
        )
}

/// True when some mapped area fully contains the range.
pub open spec fn mem_contains(m: Seq<AreaV>, addr: u64, len: u64) -> bool {
    exists|j: int| 0 <= j < m.len() && (#[trigger] m[j]).contains_range(addr, len)
}

/// The index of an area fully containing the range. For well-formed memory
/// and a non-empty range this index is unique.
pub open spec fn containing_index(m: Seq<AreaV>, addr: u64, len: u64) -> int {
    choose|j: int| 0 <= j < m.len() && (#[trigger] m[j]).contains_range(addr, len)
}

/// The bytes that a contained read of `len` bytes at `addr` returns.
pub open spec fn read_range(m: Seq<AreaV>, addr: u64, len: u64) -> Seq<u8> {
    m[containing_index(m, addr, len)].bytes_at(addr, len)
}

/// A byte sequence with `d` written over it at offset `off`.
pub open spec fn seq_overwrite(s: Seq<u8>, off: int, d: Seq<u8>) -> Seq<u8> {
    s.take(off) + d + s.skip(off + d.len())
}

/// The memory after a contained write of `data` at `addr`; memory without an
/// area containing the range is unchanged.
pub open spec fn write_range(m: Seq<AreaV>, addr: u64, data: Seq<u8>) -> Seq<AreaV> {
    if mem_contains(m, addr, data.len() as u64) {
        let j = containing_index(m, addr, data.len() as u64);
        m.update(j, m[j].with_data(seq_overwrite(m[j].data, addr - m[j].start, data)))
    } else {
        m
    }
}

/// In well-formed memory, every area containing a range sees the same bytes
/// there; for a non-empty range the containing area is unique.
pub proof fn lemma_containing_area_agrees(m: Seq<AreaV>, addr: u64, len: u64, j: int, k: int)
    requires
        areas_wf(m),
        0 <= j < m.len(),
        0 <= k < m.len(),
        m[j].contains_range(addr, len),
        m[k].contains_range(addr, len),
    ensures
        len > 0 ==> j == k,
        m[j].bytes_at(addr, len) == m[k].bytes_at(addr, len),
{
    if len > 0 {
        assert(j == k);
    } else {
        assert(m[j].bytes_at(addr, 0) =~= m[k].bytes_at(addr, 0));
    }
}

/// Round trip through the memory model: after a contained write, reading the
/// same range returns exactly the written bytes, and the write changed no
/// area bounds.
pub proof fn lemma_mem_write_read_round_trip(m: Seq<AreaV>, addr: u64, data: Seq<u8>)
    requires
        areas_wf(m),
        mem_contains(m, addr, data.len() as u64),
        data.len() <= u64::MAX,
    ensures
        mem_contains(write_range(m, addr, data), addr, data.len() as u64),
        read_range(write_range(m, addr, data), addr, data.len() as u64) == data,
        areas_wf(write_range(m, addr, data)),
        write_range(m, addr, data).len() == m.len(),
        forall|j: int|
            0 <= j < m.len() ==> (#[trigger] write_range(m, addr, data)[j]).start == m[j].start
                && write_range(m, addr, data)[j].length == m[j].length,
{
    let len = data.len() as u64;
    let j = containing_index(m, addr, len);
    let m2 = write_range(m, addr, data);
    let off = addr - m[j].start;
    assert(0 <= j < m.len() && m[j].contains_range(addr, len));
    assert(m2[j].data =~= seq_overwrite(m[j].data, off, data));
    assert(m2[j].contains_range(addr, len));
    assert(mem_contains(m2, addr, len));
    let k = containing_index(m2, addr, len);
    assert(0 <= k < m2.len() && m2[k].contains_range(addr, len));
    assert(areas_wf(m2));
    assert(m2[j].bytes_at(addr, len) =~= data);
    lemma_containing_area_agrees(m2, addr, len, j, k);
}

impl Axecutor {
    /// Reads `length` bytes at `address`.
    ///
    /// Succeeds, returning a copy of the bytes, exactly when one mapped area
    /// fully contains the range; fails with a memory access error otherwise.
    /// Never changes any state.
    pub fn mem_read_bytes(&self, address: u64, length: u64) -> (r: Result<Vec<u8>, AxError>)
        requires
            self@.wf(),
        ensures
            r is Ok <==> mem_contains(self@.memory, address, length),
            r matches Ok(v) ==> v@ == read_range(self@.memory, address, length) && v@.len()
                == length,
            r matches Err(e) ==> e.kind == AxErrorKind::MemoryAccess,
    {
        let ghost m = self@.memory;
        let n: usize = self.memory.len();
        let mut j: usize = 0;
        while j < n
            invariant
                self@.wf(),
                m == self@.memory,
                n == self.memory.len(),
                j <= n,
                forall|i: int| 0 <= i < j ==> !(#[trigger] m[i]).contains_range(address, length),
            decreases n - j,
        {
            let area = &self.memory[j];
            if address >= area.start && length <= area.length && address - area.start
                <= area.length - length {
                proof {
                    assert(area@ == m[j as int]);
                    assert(m[j as int].wf());
                    assert(m[j as int].contains_range(address, length));
                }
                let dlen: usize = area.data.len();
                proof {
                    assert(dlen == m[j as int].data.len());
                }
                let offset: usize = (address - area.start) as usize;
                let count: usize = length as usize;
                let mut result: Vec<u8> = Vec::new();
                let mut k: usize = 0;
                while k < count
                    invariant
                        self@.wf(),
                        m == self@.memory,
                        j < self.memory.len(),
                        m[j as int].contains_range(address, length),
                        offset == address - m[j as int].start,
                        count == length,
                        offset + count <= m[j as int].data.len(),
                        m[j as int].data.len() <= usize::MAX,
                        k <= count,
                        result@.len() == k,
                        forall|i: int|
                            0 <= i < k ==> result@[i] == m[j as int].data[offset + i],
                    decreases count - k,
                {
                    result.push(self.memory[j].data[offset + k]);
                    k = k + 1;
                }
                proof {
                    assert(result@ =~= m[j as int].bytes_at(address, length));
                    let c = containing_index(m, address, length);
                    assert(0 <= c < m.len() && m[c].contains_range(address, length));
                    lemma_containing_area_agrees(m, address, length, j as int, c);
                }
                return Ok(result);
            }
            proof {
                assert(!m[j as int].contains_range(address, length));
            }
            j = j + 1;
        }
        Err(AxError::new(AxErrorKind::MemoryAccess))
    }

    /// Writes `data` at `address`.
    ///
    /// Succeeds exactly when one mapped area fully contains the range; the
    /// bytes of that area at the range become `data` and nothing else
    /// changes. Fails with a memory access error otherwise, changing nothing:
    /// no partial write ever happens.
    pub fn mem_write_bytes(&mut self, address: u64, data: &[u8]) -> (r: Result<(), AxError>)
        requires
            old(self)@.wf(),
        ensures
            final(self)@.wf(),
            r is Ok <==> mem_contains(old(self)@.memory, address, data@.len() as u64),
            r is Ok ==> final(self)@ == old(self)@.with_memory(
                write_range(old(self)@.memory, address, data@),
            ),
            r matches Err(e) ==> e.kind == AxErrorKind::MemoryAccess && final(self)@ == old(
                self,
            )@,
    {
        let ghost pre = self@;
        let ghost m = self@.memory;
        let length: u64 = data.len() as u64;
        let n: usize = self.memory.len();
        let mut j: usize = 0;
        while j < n
            invariant
                pre == old(self)@,
                self@ == pre,
                pre.wf(),
                m == pre.memory,
                n == self.memory.len(),
                j <= n,
                length == data@.len(),
                forall|i: int| 0 <= i < j ==> !(#[trigger] m[i]).contains_range(address, length),
            decreases n - j,
        {
            let found = {
                let area = &self.memory[j];
                address >= area.start && length <= area.length && address - area.start
                    <= area.length - length
            };
            if found {
                proof {
                    assert(self.memory[j as int]@ == m[j as int]);
                    assert(m[j as int].wf());
                    assert(m[j as int].contains_range(address, length));
                    assert(mem_contains(m, address, length));
                }
                let area = self.memory.remove(j);
                let MemoryArea { name, start, length: alen, data: mut bytes } = area;
                let blen: usize = bytes.len();
                proof {
                    assert(bytes@ == m[j as int].data);
                    assert(blen == m[j as int].data.len());
                }
                let offset: usize = (address - start) as usize;
                let count: usize = data.len();
                let ghost old_bytes = bytes@;
                let mut k: usize = 0;
                while k < count
                    invariant
                        offset + count <= bytes@.len(),
                        bytes@.len() <= usize::MAX,
                        count == data@.len(),
                        k <= count,
                        bytes@.len() == old_bytes.len(),
                        forall|i: int| 0 <= i < k ==> bytes@[offset + i] == data@[i],
                        forall|i: int|
                            0 <= i < bytes@.len() && !(offset <= i < offset + k)
                                ==> bytes@[i] == old_bytes[i],
                    decreases count - k,
                {
                    bytes[offset + k] = data[k];
                    k = k + 1;
                }
                let restored = MemoryArea { name, start, length: alen, data: bytes };
                proof {
                    assert(restored@.data =~= seq_overwrite(old_bytes, offset as int, data@));
                }
                self.memory.insert(j, restored);
                proof {
                    let c = containing_index(m, address, length);
                    assert(0 <= c < m.len() && m[c].contains_range(address, length));
                    lemma_containing_area_agrees(m, address, length, j as int, c);
                    lemma_mem_write_read_round_trip(m, address, data@);
                    assert(self@.memory =~~= write_range(m, address, data@));
                    assert(self@ =~~= pre.with_memory(write_range(m, address, data@)));
                }
                return Ok(());
            }
            proof {
                assert(!m[j as int].contains_range(address, length));
            }
            j = j + 1;
        }
        Err(AxError::new(AxErrorKind::MemoryAccess))
    }

    /// Reads a 64-bit little-endian value at `address`.
    pub fn mem_read_64(&self, address: u64) -> (r: Result<u64, AxError>)
        requires
            self@.wf(),
        ensures
            r is Ok <==> mem_contains(self@.memory, address, 8),
            r matches Ok(v) ==> v == vstd::bytes::spec_u64_from_le_bytes(
                read_range(self@.memory, address, 8),
            ),
            r matches Err(e) ==> e.kind == AxErrorKind::MemoryAccess,
    {
        let bytes = match self.mem_read_bytes(address, 8) {
            Ok(b) => b,
            Err(e) => {
                return Err(e);
            },
        };
        Ok(vstd::bytes::u64_from_le_bytes(bytes.as_slice()))
    }

    /// Reads a 32-bit little-endian value at `address`.
    pub fn mem_read_32(&self, address: u64) -> (r: Result<u32, AxError>)
        requires
            self@.wf(),
        ensures
            r is Ok <==> mem_contains(self@.memory, address, 4),
            r matches Ok(v) ==> v == vstd::bytes::spec_u32_from_le_bytes(
                read_range(self@.memory, address, 4),
            ),
            r matches Err(e) ==> e.kind == AxErrorKind::MemoryAccess,
    {
        let bytes = match self.mem_read_bytes(address, 4) {
            Ok(b) => b,
            Err(e) => {
                return Err(e);
            },
        };
        Ok(vstd::bytes::u32_from_le_bytes(bytes.as_slice()))
    }

    /// Reads a 16-bit little-endian value at `address`.
    pub fn mem_read_16(&self, address: u64) -> (r: Result<u16, AxError>)
        requires
            self@.wf(),
        ensures
            r is Ok <==> mem_contains(self@.memory, address, 2),
            r matches Ok(v) ==> v == vstd::bytes::spec_u16_from_le_bytes(
                read_range(self@.memory, address, 2),
            ),
            r matches Err(e) ==> e.kind == AxErrorKind::MemoryAccess,
    {
        let bytes = match self.mem_read_bytes(address, 2) {
            Ok(b) => b,
            Err(e) => {
                return Err(e);
            },
        };
        Ok(vstd::bytes::u16_from_le_bytes(bytes.as_slice()))
    }

    /// Reads one byte at `address`.
    pub fn mem_read_8(&self, address: u64) -> (r: Result<u8, AxError>)
        requires
            self@.wf(),
        ensures
            r is Ok <==> mem_contains(self@.memory, address, 1),
            r matches Ok(v) ==> v == read_range(self@.memory, address, 1)[0],
            r matches Err(e) ==> e.kind == AxErrorKind::MemoryAccess,
    {
        let bytes = match self.mem_read_bytes(address, 1) {
            Ok(b) => b,
            Err(e) => {
                return Err(e);
            },
        };
        Ok(bytes[0])
    }

    /// Writes a 64-bit value at `address` in little-endian byte order.
    pub fn mem_write_64(&mut self, address: u64, data: u64) -> (r: Result<(), AxError>)
        requires
            old(self)@.wf(),
        ensures
            final(self)@.wf(),
            r is Ok <==> mem_contains(old(self)@.memory, address, 8),
            r is Ok ==> final(self)@ == old(self)@.with_memory(
                write_range(old(self)@.memory, address, vstd::bytes::spec_u64_to_le_bytes(data)),
            ),
            r matches Err(e) ==> e.kind == AxErrorKind::MemoryAccess && final(self)@ == old(
                self,
            )@,
    {
        let bytes = vstd::bytes::u64_to_le_bytes(data);
        self.mem_write_bytes(address, bytes.as_slice())
    }

    /// Writes a 32-bit value at `address` in little-endian byte order.
    pub fn mem_write_32(&mut self, address: u64, data: u32) -> (r: Result<(), AxError>)
        requires
            old(self)@.wf(),
        ensures
            final(self)@.wf(),
            r is Ok <==> mem_contains(old(self)@.memory, address, 4),
            r is Ok ==> final(self)@ == old(self)@.with_memory(
                write_range(old(self)@.memory, address, vstd::bytes::spec_u32_to_le_bytes(data)),
            ),
            r matches Err(e) ==> e.kind == AxErrorKind::MemoryAccess && final(self)@ == old(
                self,
            )@,
    {
        let bytes = vstd::bytes::u32_to_le_bytes(data);
        self.mem_write_bytes(address, bytes.as_slice())
    }

    /// Writes a 16-bit value at `address` in little-endian byte order.
    pub fn mem_write_16(&mut self, address: u64, data: u16) -> (r: Result<(), AxError>)
        requires
            old(self)@.wf(),
        ensures
            final(self)@.wf(),
            r is Ok <==> mem_contains(old(self)@.memory, address, 2),
            r is Ok ==> final(self)@ == old(self)@.with_memory(
                write_range(old(self)@.memory, address, vstd::bytes::spec_u16_to_le_bytes(data)),
            ),
            r matches Err(e) ==> e.kind == AxErrorKind::MemoryAccess && final(self)@ == old(
                self,
            )@,
    {
        let bytes = vstd::bytes::u16_to_le_bytes(data);
        self.mem_write_bytes(address, bytes.as_slice())
    }

    /// Writes one byte at `address`.
    pub fn mem_write_8(&mut self, address: u64, data: u8) -> (r: Result<(), AxError>)
        requires
            old(self)@.wf(),
        ensures
            final(self)@.wf(),
            r is Ok <==> mem_contains(old(self)@.memory, address, 1),
            r is Ok ==> final(self)@ == old(self)@.with_memory(
                write_range(old(self)@.memory, address, seq![data]),
            ),
            r matches Err(e) ==> e.kind == AxErrorKind::MemoryAccess && final(self)@ == old(
                self,
            )@,
    {
        let mut bytes: Vec<u8> = Vec::new();
        bytes.push(data);
        proof {
            assert(bytes@ =~= seq![data]);
        }
        self.mem_write_bytes(address, bytes.as_slice())
    }

    /// Maps a new named memory area holding `data` at `start`.
    ///
    /// Succeeds exactly when the range fits in the address space and shares
    /// no byte with the reserved code region or any existing area; the new
    /// area is appended and nothing else changes. Fails with a mapping error
    /// otherwise, changing nothing.
    pub fn mem_init_area_named(&mut self, start: u64, data: Vec<u8>, name: Option<String>) -> (r:
        Result<(), AxError>)
        requires
            old(self)@.wf(),
        ensures
            final(self)@.wf(),
            r is Ok <==> old(self)@.can_map(start, data@.len() as u64),
            r is Ok ==> final(self)@ == old(self)@.with_memory(
                old(self)@.memory.push(
                    AreaV { name: name, start, length: data@.len() as u64, data: data@ },
                ),
            ),
            r matches Err(e) ==> e.kind == AxErrorKind::Mapping && final(self)@ == old(self)@,
    {
        let ghost pre = self@;
        let length: u64 = data.len() as u64;
        if length > u64::MAX - start {
            return Err(AxError::new(AxErrorKind::Mapping));
        }
        if ranges_overlap_exec(start, length, self.code_start_address, self.code_length) {
            return Err(AxError::new(AxErrorKind::Mapping));
        }
        let n: usize = self.memory.len();
        let mut j: usize = 0;
        while j < n
            invariant
                pre == old(self)@,
                self@ == pre,
                pre.wf(),
                n == self.memory.len(),
                j <= n,
                length == data@.len(),
                forall|i: int|
                    0 <= i < j ==> !AxV::ranges_overlap(
                        start,
                        length,
                        (#[trigger] pre.memory[i]).start,
                        pre.memory[i].length,
                    ),
            decreases n - j,
        {
            let area = &self.memory[j];
            if ranges_overlap_exec(start, length, area.start, area.length) {
                proof {
                    assert(AxV::ranges_overlap(
                        start,
                        length,
                        pre.memory[j as int].start,
                        pre.memory[j as int].length,
                    ));
                }
                return Err(AxError::new(AxErrorKind::Mapping));
            }
            j = j + 1;
        }
        self.memory.push(MemoryArea { name, start, length, data });
        proof {
            assert(self@.memory =~~= pre.memory.push(
                AreaV { name: name, start, length: length, data: data@ },
            ));
            assert(self@ =~~= pre.with_memory(
                pre.memory.push(AreaV { name: name, start, length: length, data: data@ }),
            ));
            assert(self@.wf());
        }
        Ok(())
    }

    /// Maps a new unnamed memory area holding `data` at `start`, under the
    /// same containment rules as [`Axecutor::mem_init_area_named`].
    pub fn mem_init_area(&mut self, start: u64, data: Vec<u8>) -> (r: Result<(), AxError>)
        requires
            old(self)@.wf(),
        ensures
            final(self)@.wf(),
            r is Ok <==> old(self)@.can_map(start, data@.len() as u64),
            r is Ok ==> final(self)@ == old(self)@.with_memory(
                old(self)@.memory.push(
                    AreaV { name: None, start, length: data@.len() as u64, data: data@ },
                ),
            ),
            r matches Err(e) ==> e.kind == AxErrorKind::Mapping && final(self)@ == old(self)@,
    {
        self.mem_init_area_named(start, data, None)
    }

    /// Maps a new unnamed zero-filled area of `length` bytes at `start`,
    /// under the same containment rules as [`Axecutor::mem_init_area_named`].
    pub fn mem_init_zero(&mut self, start: u64, length: u64) -> (r: Result<(), AxError>)
        requires
            old(self)@.wf(),
            length <= usize::MAX,
        ensures
            final(self)@.wf(),
            r is Ok <==> old(self)@.can_map(start, length),
            r is Ok ==> final(self)@ == old(self)@.with_memory(
                old(self)@.memory.push(
                    AreaV {
                        name: None,
                        start,
                        length,
                        data: Seq::new(length as nat, |i: int| 0u8),
                    },
                ),
            ),
            r matches Err(e) ==> e.kind == AxErrorKind::Mapping && final(self)@ == old(self)@,
    {
        self.mem_init_area_named(start, zero_vec(length as usize), None)
    }

    /// Maps a new named zero-filled area of `length` bytes at `start`, under
    /// the same containment rules as [`Axecutor::mem_init_area_named`].
    pub fn mem_init_zero_named(&mut self, start: u64, length: u64, name: String) -> (r: Result<
        (),
        AxError,
    >)
        requires
            old(self)@.wf(),
            length <= usize::MAX,
        ensures
            final(self)@.wf(),
            r is Ok <==> old(self)@.can_map(start, length),
            r is Ok ==> final(self)@ == old(self)@.with_memory(
                old(self)@.memory.push(
                    AreaV {
                        name: Some(name),
                        start,
                        length,
                        data: Seq::new(length as nat, |i: int| 0u8),
                    },
                ),
            ),
            r matches Err(e) ==> e.kind == AxErrorKind::Mapping && final(self)@ == old(self)@,
    {
        self.mem_init_area_named(start, zero_vec(length as usize), Some(name))
    }

    /// Sets up the stack: probes candidate start addresses beginning at
    /// `0x1000`, doubling on collision, until a zero-filled area of `length`
    /// bytes maps; then points the stack-pointer register one machine word
    /// below the top of that area and records the top-of-stack address.
    ///
    /// Succeeds at the first admissible candidate (every smaller candidate
    /// overlapped the code region or an existing area, or did not fit); it
    /// fails, changing nothing, only if every candidate below the address
    /// ceiling fails to map. In particular, whenever an area of `length`
    /// bytes can be mapped at `0x1000`, the stack lands there.
    pub fn init_stack(&mut self, length: u64) -> (r: Result<(), AxError>)
        requires
            old(self)@.wf(),
            length <= usize::MAX,
        ensures
            final(self)@.wf(),
            r is Ok ==> ({
                let a = final(self)@.memory.last();
                &&& a.length == length
                &&& a.data == Seq::new(length as nat, |i: int| 0u8)
                &&& a.name matches Some(s) && s@ == "Stack"@
                &&& 0x1000 <= a.start
                &&& a.start + length <= u64::MAX
                &&& old(self)@.can_map(a.start, length)
                &&& exists|k: nat|
                    a.start == #[trigger] stack_candidate(k) && (forall|j: nat|
                        j < k ==> !old(self)@.can_map(#[trigger] stack_candidate(j) as u64, length))
                &&& final(self)@ == old(self)@.with_memory(old(self)@.memory.push(a)).with_regs(
                    old(self)@.regs.write_view(
                        RegView { gpr: Gpr::Rsp, width: Width::W64, high: false },
                        (a.start + length - 8) as u64,
                    ),
                ).with_stack_top((a.start + length) as u64)
            }),
            r is Err ==> forall|k: nat|
                #[trigger] stack_candidate(k) < STACK_START_CEILING ==> !old(self)@.can_map(
                    stack_candidate(k) as u64,
                    length,
                ),
            old(self)@.can_map(0x1000, length) ==> r is Ok,
            r matches Err(e) ==> e.kind == AxErrorKind::StackExhausted && final(self)@ == old(
                self,
            )@,
    {
        let ghost pre = self@;
        let mut stack_start: u64 = 0x1000;
        let ghost mut n: nat = 0;
        proof {
            vstd::arithmetic::power2::lemma2_to64();
        }
        while stack_start < STACK_START_CEILING
            invariant
                pre == old(self)@,
                self@ == pre,
                pre.wf(),
                length <= usize::MAX,
                0x1000 <= stack_start,
                stack_start == stack_candidate(n),
                forall|j: nat|
                    j < n ==> !pre.can_map(#[trigger] stack_candidate(j) as u64, length),
            decreases u64::MAX - stack_start,
        {
            let name: String = "Stack".to_owned();
            match self.mem_init_zero_named(stack_start, length, name) {
                Ok(()) => {
                    let top: u64 = stack_start + length;
                    let initial_rsp: u64 = top - 8;
                    self.reg_write_64(Gpr::Rsp, initial_rsp);
                    self.stack_top = top;
                    proof {
                        let a = self@.memory.last();
                        assert(a.start == stack_candidate(n) && (forall|j: nat|
                            j < n ==> !pre.can_map(#[trigger] stack_candidate(j) as u64, length)));
                    }
                    return Ok(());
                },
                Err(_) => {
                    proof {
                        assert(!pre.can_map(stack_candidate(n) as u64, length));
                        n = n + 1;
                        vstd::arithmetic::power2::lemma_pow2_unfold(n);
                    }
                    stack_start = stack_start * 2;
                },
            }
        }
        proof {
            lemma_candidates_past_ceiling(pre, length, n, stack_start);
        }
        Err(AxError::new(AxErrorKind::StackExhausted))
    }
}

/// The stack probe never starts at or above this address.
pub const STACK_START_CEILING: u64 = 0x7fff_ffff_ffff_ffff;

/// The start address the stack probe tries on its `k`-th attempt: `0x1000`
/// doubled `k` times.
pub open spec fn stack_candidate(k: nat) -> int {
    0x1000 * vstd::arithmetic::power2::pow2(k) as int
}

/// Once the probe has passed the ceiling with every earlier candidate failed,
/// every candidate below the ceiling has failed: later candidates only grow.
proof fn lemma_candidates_past_ceiling(pre: AxV, length: u64, n: nat, reached: u64)
    requires
        reached == stack_candidate(n),
        reached >= STACK_START_CEILING,
        forall|j: nat| j < n ==> !pre.can_map(#[trigger] stack_candidate(j) as u64, length),
    ensures
        forall|k: nat|
            #[trigger] stack_candidate(k) < STACK_START_CEILING ==> !pre.can_map(
                stack_candidate(k) as u64,
                length,
            ),
{
    assert forall|k: nat|
        #[trigger] stack_candidate(k) < STACK_START_CEILING implies !pre.can_map(
        stack_candidate(k) as u64,
        length,
    ) by {
        if k >= n {
            if k > n {
                vstd::arithmetic::power2::lemma_pow2_strictly_increases(n, k);
            }
            assert(stack_candidate(k) >= stack_candidate(n));
            assert(false);
        }
    }
}

/// Decides [`AxV::ranges_overlap`] without overflowing.
pub fn ranges_overlap_exec(s1: u64, l1: u64, s2: u64, l2: u64) -> (r: bool)
    ensures
        r == AxV::ranges_overlap(s1, l1, s2, l2),
{
    l1 > 0 && l2 > 0 && (if s1 <= s2 {
        s2 - s1 < l1
    } else {
        s1 - s2 < l2
    })
}

/// Builds a zero-filled byte vector of the given length.
fn zero_vec(length: usize) -> (r: Vec<u8>)
    ensures
        r@ == Seq::new(length as nat, |i: int| 0u8),
{
    let mut v: Vec<u8> = Vec::new();
    let mut i: usize = 0;
    while i < length
        invariant
            i <= length,
            v@.len() == i,
            forall|j: int| 0 <= j < i ==> v@[j] == 0u8,
        decreases length - i,
    {
        v.push(0);
        i = i + 1;
    }
    proof {
        assert(v@ =~= Seq::new(length as nat, |i: int| 0u8));
    }
    v
}

} // verus!
