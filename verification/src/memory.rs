//! The memory implementation for the RISC-V architecture.
//!
//! A RISC-V hart has a single byte-addressable address space of `1 << XLEN`
//! bytes for all memory accesses.
//! This does not mean that a RISC-V hart has `1 << XLEN` bytes of memory
//! available.
//!
//! The address space of the RISC-V ISA is circular: a byte access first
//! consults the registered MMIO devices, in registration order, with the
//! address wrapped modulo `1 << XLEN`; when no device claims the address,
//! it falls through to the RAM buffer at the address taken modulo the
//! buffer size. A multi-byte access is little-endian and is carried out
//! byte by byte.
//!
//! See chapter 1.4 in the [`RISC-V Spec`].
//!
//! [`RISC-V Spec`]: https://riscv.org/specifications/isa-spec-pdf/

use vstd::prelude::*;

pub mod mmu;

use core::marker::PhantomData;

use vstd::arithmetic::div_mod::{lemma_add_mod_noop, lemma_mod_bound, lemma_mod_mod, lemma_small_mod};

use crate::{Address, Base};

verus! {

/// The default `MEMORY_SIZE` is 16MiB.
pub const MEMORY_SIZE: usize = 0x100_0000;

/// A memory-mapped I/O device: an abstract collaborator that services
/// byte reads and writes for the addresses it claims.
///
/// A device is registered with [`Memory::register`] and is then owned by
/// the memory object; lookups are first-match in registration order.
pub trait MmioDevice: Sized {
    /// Whether this device services the address `addr`.
    spec fn spec_maps(&self, addr: u64) -> bool;

    /// The byte this device currently presents at `addr`.
    spec fn spec_value(&self, addr: u64) -> u8;

    /// Reports whether this device services the address `addr`.
    fn maps_at(&self, addr: u64) -> (r: bool)
        ensures
            r == self.spec_maps(addr),
    ;

    /// Reads the byte this device presents at `addr`.
    fn read(&self, addr: u64) -> (r: u8)
        requires
            self.spec_maps(addr),
        ensures
            r == self.spec_value(addr),
    ;

    /// Writes a byte to this device. The claimed address range is
    /// unchanged, the written address presents the new byte, and every
    /// other claimed address is untouched.
    fn write(&mut self, addr: u64, val: u8)
        requires
            old(self).spec_maps(addr),
        ensures
            forall|a: u64| #[trigger] final (self).spec_maps(a) == old(self).spec_maps(a),
            final (self).spec_value(addr) == val,
            forall|a: u64|
                a != addr && old(self).spec_maps(a) ==> #[trigger] final (self).spec_value(a)
                    == old(self).spec_value(a),
    ;
}

/// The index of the first device in `devs` that claims `addr`, if any.
pub open spec fn spec_first_device<D: MmioDevice>(devs: Seq<D>, addr: u64) -> Option<int>
    decreases devs.len(),
{
    if devs.len() == 0 {
        None
    } else if devs[0].spec_maps(addr) {
        Some(0)
    } else {
        match spec_first_device(devs.drop_first(), addr) {
            None => None,
            Some(i) => Some(i + 1),
        }
    }
}

/// When no device in `devs` claims `addr`, no first device exists.
proof fn lemma_first_device_none<D: MmioDevice>(devs: Seq<D>, addr: u64)
    requires
        forall|j: int| 0 <= j < devs.len() ==> !(#[trigger] devs[j].spec_maps(addr)),
    ensures
        spec_first_device(devs, addr) is None,
    decreases devs.len(),
{
    if devs.len() > 0 {
        lemma_first_device_none(devs.drop_first(), addr);
    }
}

/// When device `i` claims `addr` and no earlier device does, device `i`
/// is the first device for `addr`.
proof fn lemma_first_device_at<D: MmioDevice>(devs: Seq<D>, addr: u64, i: int)
    requires
        0 <= i < devs.len(),
        devs[i].spec_maps(addr),
        forall|j: int| 0 <= j < i ==> !(#[trigger] devs[j].spec_maps(addr)),
    ensures
        spec_first_device(devs, addr) == Some(i),
    decreases devs.len(),
{
    if i > 0 {
        lemma_first_device_at(devs.drop_first(), addr, i - 1);
    }
}

/// Two device lists of equal length whose devices claim the same
/// addresses have the same first device for every address.
proof fn lemma_first_device_congruent<D: MmioDevice>(d1: Seq<D>, d2: Seq<D>, addr: u64)
    requires
        d1.len() == d2.len(),
        forall|j: int, x: u64|
            0 <= j < d1.len() ==> #[trigger] d2[j].spec_maps(x) == d1[j].spec_maps(x),
    ensures
        spec_first_device(d1, addr) == spec_first_device(d2, addr),
    decreases d1.len(),
{
    if d1.len() > 0 {
        assert forall|j: int, x: u64| 0 <= j < d1.drop_first().len() implies #[trigger] d2
            .drop_first()[j].spec_maps(x) == d1.drop_first()[j].spec_maps(x) by {
            assert(d1.drop_first()[j] == d1[j + 1]);
            assert(d2.drop_first()[j] == d2[j + 1]);
        }
        lemma_first_device_congruent(d1.drop_first(), d2.drop_first(), addr);
    }
}

/// Addition of an offset to an address, wrapped modulo `1 << XLEN`
/// (the RISC-V address space is circular).
pub open spec fn spec_wrap_add<B: Base>(a: u64, k: u64) -> u64 {
    ((a as int + k as int) % (<B::Addr as Address>::spec_max() as int + 1)) as u64
}

/// Computes an address plus an offset, wrapped modulo `1 << XLEN`.
fn wrap_addr<B: Base>(a: u64, k: u64) -> (r: u64)
    ensures
        r == spec_wrap_add::<B>(a, k),
        r <= <B::Addr as Address>::spec_max(),
{
    proof {
        B::lemma_base_wf();
    }
    let w = a.wrapping_add(k);
    if B::xlen() == 64 {
        w
    } else {
        proof {
            assert(w & 0xFFFF_FFFFu64 == w % 0x1_0000_0000) by (bit_vector);
            lemma_mod_mod(a as int + k as int, 0x1_0000_0000, 0x1_0000_0000);
        }
        w & 0xFFFF_FFFF
    }
}

/// The memory that is responsible for reading and writing
/// different types into the raw memory of the CPU.
///
/// Note that `Memory` does not include the memory management unit.
/// To translate virtual addresses use [`mmu::Mmu`].
pub struct Memory<B: Base, D: MmioDevice> {
    memory: Vec<u8>,
    devices: Vec<D>,
    _data: PhantomData<B>,
}

impl<B: Base, D: MmioDevice> Memory<B, D> {
    /// The RAM buffer.
    pub closed spec fn spec_ram(self) -> Seq<u8> {
        self.memory@
    }

    /// The registered MMIO devices, in registration order.
    pub closed spec fn spec_devices(self) -> Seq<D> {
        self.devices@
    }

    /// The RAM buffer size in bytes.
    pub open spec fn spec_size(self) -> nat {
        self.spec_ram().len()
    }

    /// Well-formedness: the RAM buffer holds at least one byte.
    pub open spec fn wf(self) -> bool {
        self.spec_size() > 0
    }

    /// The byte the memory presents at `addr`: the first device that
    /// claims `addr` services it; otherwise it comes from RAM at
    /// `addr` taken modulo the buffer size.
    pub open spec fn spec_byte(self, addr: u64) -> u8 {
        match spec_first_device(self.spec_devices(), addr) {
            Some(i) => self.spec_devices()[i].spec_value(addr),
            None => self.spec_ram()[addr as int % self.spec_size() as int],
        }
    }

    /// Whether a byte write at `target` also changes the byte presented
    /// at `x`: a device write changes exactly the written address, while
    /// a RAM write changes every RAM-serviced address that aliases the
    /// same buffer cell modulo the buffer size.
    pub open spec fn spec_writes_cell(self, target: u64, x: u64) -> bool {
        match spec_first_device(self.spec_devices(), target) {
            Some(_) => x == target,
            None => spec_first_device(self.spec_devices(), x) is None && x as int
                % self.spec_size() as int == target as int % self.spec_size() as int,
        }
    }

    /// Whether two memories have the same size and device lists that
    /// claim the same addresses (so that byte writes alias identically
    /// in both).
    pub open spec fn spec_same_structure(m1: Self, m2: Self) -> bool {
        &&& m2.spec_size() == m1.spec_size()
        &&& m2.spec_devices().len() == m1.spec_devices().len()
        &&& forall|j: int, x: u64|
            0 <= j < m1.spec_devices().len() ==> #[trigger] m2.spec_devices()[j].spec_maps(x)
                == m1.spec_devices()[j].spec_maps(x)
    }

    /// The little-endian value of `n` bytes starting at `a` (each
    /// successive byte address wrapped modulo `1 << XLEN`).
    pub open spec fn spec_read_le(self, a: u64, n: nat) -> nat
        decreases n,
    {
        if n == 0 {
            0
        } else {
            (self.spec_byte(a) + 256 * self.spec_read_le(
                spec_wrap_add::<B>(a, 1),
                (n - 1) as nat,
            )) as nat
        }
    }

    /// Creates a new [`Memory`] with the given size in bytes and no
    /// registered devices.
    pub fn with_size(size: usize) -> (r: Self)
        ensures
            r.spec_size() == size,
            r.spec_devices().len() == 0,
            forall|j: int| 0 <= j < size ==> r.spec_ram()[j] == 0u8,
    {
        let mut memory: Vec<u8> = Vec::new();
        let mut i: usize = 0;
        while i < size
            invariant
                i <= size,
                memory@.len() == i,
                forall|j: int| 0 <= j < i ==> memory@[j] == 0u8,
            decreases size - i,
        {
            memory.push(0);
            i = i + 1;
        }
        Memory { memory, devices: Vec::new(), _data: PhantomData }
    }

    /// Appends an MMIO device to the end of the device list.
    /// Registration is append-only for the hart's lifetime.
    pub fn register(&mut self, device: D)
        ensures
            final (self).spec_ram() == old(self).spec_ram(),
            final (self).spec_devices() == old(self).spec_devices().push(device),
    {
        self.devices.push(device);
    }

    /// Finds the first registered device that claims `addr`.
    fn find_device(&self, addr: u64) -> (r: Option<usize>)
        ensures
            match r {
                Some(i) => i < self.spec_devices().len() && self.spec_devices()[
                    i as int
                ].spec_maps(addr) && spec_first_device(self.spec_devices(), addr) == Some(i as int),
                None => spec_first_device(self.spec_devices(), addr) is None,
            },
    {
        let n = self.devices.len();
        let mut i: usize = 0;
        while i < n
            invariant
                i <= n,
                n == self.spec_devices().len(),
                forall|j: int| 0 <= j < i ==> !(#[trigger] self.spec_devices()[j].spec_maps(addr)),
            decreases n - i,
        {
            if self.devices[i].maps_at(addr) {
                proof {
                    lemma_first_device_at(self.spec_devices(), addr, i as int);
                }
                return Some(i);
            }
            i = i + 1;
        }
        proof {
            lemma_first_device_none(self.spec_devices(), addr);
        }
        None
    }

    /// Reads the byte presented at the (already wrapped) address `a`.
    fn read_byte_at(&self, a: u64) -> (r: u8)
        requires
            self.wf(),
        ensures
            r == self.spec_byte(a),
    {
        match self.find_device(a) {
            Some(i) => self.devices[i].read(a),
            None => {
                let len = self.memory.len();
                let idx = (a % (len as u64)) as usize;
                self.memory[idx]
            },
        }
    }

    /// Reads a [`u8`] from the memory at the given address.
    pub fn read_u8(&self, addr: B::Addr) -> (r: u8)
        requires
            self.wf(),
        ensures
            r == self.spec_byte(addr.spec_to_u64()),
    {
        self.read_byte_at(addr.to_u64())
    }

    /// Reads `n` bytes from the memory starting at the given address,
    /// each successive byte address wrapped modulo `1 << XLEN`.
    pub fn read_bytes(&self, addr: B::Addr, n: usize) -> (r: Vec<u8>)
        requires
            self.wf(),
        ensures
            r@.len() == n,
            forall|k: int|
                0 <= k < n ==> r@[k] == self.spec_byte(
                    spec_wrap_add::<B>(addr.spec_to_u64(), k as u64),
                ),
    {
        let a0 = addr.to_u64();
        let mut r: Vec<u8> = Vec::new();
        let mut k: usize = 0;
        while k < n
            invariant
                k <= n,
                r@.len() == k,
                self.wf(),
                a0 == addr.spec_to_u64(),
                forall|j: int|
                    0 <= j < k ==> r@[j] == self.spec_byte(spec_wrap_add::<B>(a0, j as u64)),
            decreases n - k,
        {
            let a = wrap_addr::<B>(a0, k as u64);
            let b = self.read_byte_at(a);
            r.push(b);
            k = k + 1;
        }
        r
    }

    /// Writes a byte at the (already wrapped) address `a`: the first
    /// device that claims `a` services it; otherwise it goes to RAM at
    /// `a` taken modulo the buffer size.
    fn write_byte_at(&mut self, a: u64, value: u8)
        requires
            old(self).wf(),
        ensures
            final (self).wf(),
            Self::spec_same_structure(*old(self), *final (self)),
            forall|x: u64|
                #[trigger] final (self).spec_byte(x) == if old(self).spec_writes_cell(a, x) {
                    value
                } else {
                    old(self).spec_byte(x)
                },
    {
        let ghost m1 = *self;
        match self.find_device(a) {
            Some(i) => {
                let dev = &mut self.devices[i];
                dev.write(a, value);
                proof {
                    let m2 = *self;
                    let d1 = m1.spec_devices();
                    let d2 = m2.spec_devices();
                    assert forall|j: int, x: u64| 0 <= j < d1.len() implies #[trigger] d2[
                        j
                    ].spec_maps(x) == d1[j].spec_maps(x) by {
                        if j != i {
                            assert(d2[j] == d1[j]);
                        }
                    }
                    assert forall|x: u64|
                        #[trigger] m2.spec_byte(x) == if m1.spec_writes_cell(a, x) {
                            value
                        } else {
                            m1.spec_byte(x)
                        } by {
                        lemma_first_device_congruent(d1, d2, x);
                        lemma_first_device_congruent(d1, d2, a);
                        lemma_first_device_props(d1, x);
                        if x != a {
                            match spec_first_device(d1, x) {
                                Some(j) => {
                                    if j != i {
                                        assert(d2[j] == d1[j]);
                                    }
                                },
                                None => {},
                            }
                        }
                    }
                }
            },
            None => {
                let len = self.memory.len();
                let idx = (a % (len as u64)) as usize;
                self.memory[idx] = value;
                proof {
                    let m2 = *self;
                    assert(m2.spec_devices() == m1.spec_devices());
                    assert forall|x: u64|
                        #[trigger] m2.spec_byte(x) == if m1.spec_writes_cell(a, x) {
                            value
                        } else {
                            m1.spec_byte(x)
                        } by {
                        lemma_first_device_props(m1.spec_devices(), x);
                    }
                }
            },
        }
    }

    /// Writes a [`u8`] into the memory at the given address.
    pub fn write_u8(&mut self, addr: B::Addr, value: u8)
        requires
            old(self).wf(),
        ensures
            final (self).wf(),
            Self::spec_same_structure(*old(self), *final (self)),
            forall|x: u64|
                #[trigger] final (self).spec_byte(x) == if old(self).spec_writes_cell(
                    addr.spec_to_u64(),
                    x,
                ) {
                    value
                } else {
                    old(self).spec_byte(x)
                },
    {
        let a = addr.to_u64();
        self.write_byte_at(a, value);
    }

    /// The last of the first `k` bytes of a multi-byte write starting
    /// at `a0` whose write changes the byte presented at `x`, if any
    /// (later bytes of a write overwrite earlier ones).
    pub open spec fn spec_last_hit(self, x: u64, a0: u64, k: nat) -> Option<int>
        decreases k,
    {
        if k == 0 {
            None
        } else if self.spec_writes_cell(spec_wrap_add::<B>(a0, (k - 1) as u64), x) {
            Some(k - 1)
        } else {
            self.spec_last_hit(x, a0, (k - 1) as nat)
        }
    }

    /// Byte writes alias identically in two memories with the same
    /// structure.
    proof fn lemma_writes_cell_congruent(m1: Self, m2: Self, target: u64, x: u64)
        requires
            Self::spec_same_structure(m1, m2),
        ensures
            m2.spec_writes_cell(target, x) == m1.spec_writes_cell(target, x),
    {
        lemma_first_device_congruent(m1.spec_devices(), m2.spec_devices(), target);
        lemma_first_device_congruent(m1.spec_devices(), m2.spec_devices(), x);
    }

    /// Writes the given bytes into the memory starting at the given
    /// address, first byte first, each successive byte address wrapped
    /// modulo `1 << XLEN`.
    pub fn write_bytes(&mut self, addr: B::Addr, data: &Vec<u8>)
        requires
            old(self).wf(),
        ensures
            final (self).wf(),
            Self::spec_same_structure(*old(self), *final (self)),
            forall|x: u64|
                #[trigger] final (self).spec_byte(x) == match old(self).spec_last_hit(
                    x,
                    addr.spec_to_u64(),
                    data@.len(),
                ) {
                    Some(j) => data@[j],
                    None => old(self).spec_byte(x),
                },
    {
        let a0 = addr.to_u64();
        self.write_bytes_at(a0, data);
    }

    /// Writes the given bytes starting at the (already wrapped)
    /// address `a0`, first byte first.
    fn write_bytes_at(&mut self, a0: u64, data: &Vec<u8>)
        requires
            old(self).wf(),
        ensures
            final (self).wf(),
            Self::spec_same_structure(*old(self), *final (self)),
            forall|x: u64|
                #[trigger] final (self).spec_byte(x) == match old(self).spec_last_hit(
                    x,
                    a0,
                    data@.len(),
                ) {
                    Some(j) => data@[j],
                    None => old(self).spec_byte(x),
                },
    {
        let ghost m1 = *self;
        let n = data.len();
        let mut k: usize = 0;
        while k < n
            invariant
                k <= n,
                n == data@.len(),
                self.wf(),
                Self::spec_same_structure(m1, *self),
                forall|x: u64|
                    #[trigger] self.spec_byte(x) == match m1.spec_last_hit(x, a0, k as nat) {
                        Some(j) => data@[j],
                        None => m1.spec_byte(x),
                    },
            decreases n - k,
        {
            let ghost cur = *self;
            let a = wrap_addr::<B>(a0, k as u64);
            self.write_byte_at(a, data[k]);
            proof {
                let m2 = *self;
                assert forall|x: u64|
                    #[trigger] m2.spec_byte(x) == match m1.spec_last_hit(
                        x,
                        a0,
                        (k + 1) as nat,
                    ) {
                        Some(j) => data@[j],
                        None => m1.spec_byte(x),
                    } by {
                    Self::lemma_writes_cell_congruent(m1, cur, a, x);
                }
            }
            k = k + 1;
        }
    }

    /// Writes the low `n` (4 or 8) bytes of `value` starting at the
    /// (already wrapped) address `a0`, little-endian.
    fn write_le_at(&mut self, a0: u64, value: u64, n: usize)
        requires
            old(self).wf(),
            n == 4 || n == 8,
            (value as nat) < spec_pow256(n as nat),
        ensures
            final (self).wf(),
            Self::spec_same_structure(*old(self), *final (self)),
            forall|x: u64|
                #[trigger] final (self).spec_byte(x) == match old(self).spec_last_hit(
                    x,
                    a0,
                    n as nat,
                ) {
                    Some(j) => spec_le_bytes(value as nat, n as nat)[j],
                    None => old(self).spec_byte(x),
                },
    {
        let v0 = value;
        let v1 = v0 / 256;
        let v2 = v1 / 256;
        let v3 = v2 / 256;
        let mut data: Vec<u8> = Vec::new();
        data.push((v0 % 256) as u8);
        data.push((v1 % 256) as u8);
        data.push((v2 % 256) as u8);
        data.push((v3 % 256) as u8);
        if n == 8 {
            let v4 = v3 / 256;
            let v5 = v4 / 256;
            let v6 = v5 / 256;
            let v7 = v6 / 256;
            data.push((v4 % 256) as u8);
            data.push((v5 % 256) as u8);
            data.push((v6 % 256) as u8);
            data.push((v7 % 256) as u8);
            proof {
                reveal_with_fuel(spec_le_bytes, 9);
                assert(data@ =~= spec_le_bytes(value as nat, 8));
            }
        } else {
            proof {
                reveal_with_fuel(spec_le_bytes, 5);
                reveal_with_fuel(spec_pow256, 5);
                assert(data@ =~= spec_le_bytes(value as nat, 4));
            }
        }
        self.write_bytes_at(a0, &data);
    }

    /// Reads the little-endian value of `n` bytes starting at the
    /// (already wrapped) address `a`.
    fn read_le_at(&self, a: u64, n: u64) -> (r: u64)
        requires
            self.wf(),
            n <= 8,
        ensures
            r as nat == self.spec_read_le(a, n as nat),
            (r as nat) < spec_pow256(n as nat),
        decreases n,
    {
        if n == 0 {
            0
        } else {
            let b = self.read_byte_at(a);
            let rest = self.read_le_at(wrap_addr::<B>(a, 1), n - 1);
            proof {
                lemma_pow256_mono((n - 1) as nat, 7);
                reveal_with_fuel(spec_pow256, 9);
            }
            b as u64 + 256 * rest
        }
    }

    /// Reads a [`u16`] from the memory at the given address
    /// (little-endian).
    pub fn read_u16(&self, addr: B::Addr) -> (r: u16)
        requires
            self.wf(),
        ensures
            r as nat == self.spec_read_le(addr.spec_to_u64(), 2),
    {
        let a0 = addr.to_u64();
        let r = self.read_le_at(a0, 2);
        proof {
            reveal_with_fuel(spec_pow256, 3);
        }
        r as u16
    }

    /// Reads a [`u32`] from the memory at the given address
    /// (little-endian).
    pub fn read_u32(&self, addr: B::Addr) -> (r: u32)
        requires
            self.wf(),
        ensures
            r as nat == self.spec_read_le(addr.spec_to_u64(), 4),
    {
        let a0 = addr.to_u64();
        let r = self.read_le_at(a0, 4);
        proof {
            reveal_with_fuel(spec_pow256, 5);
        }
        r as u32
    }

    /// Reads a [`u64`] from the memory at the given address
    /// (little-endian).
    pub fn read_u64(&self, addr: B::Addr) -> (r: u64)
        requires
            self.wf(),
        ensures
            r as nat == self.spec_read_le(addr.spec_to_u64(), 8),
    {
        let a0 = addr.to_u64();
        self.read_le_at(a0, 8)
    }

    /// Writes a [`u16`] into the memory at the given address
    /// (little-endian).
    pub fn write_u16(&mut self, addr: B::Addr, value: u16)
        requires
            old(self).wf(),
        ensures
            final (self).wf(),
            Self::spec_same_structure(*old(self), *final (self)),
            forall|x: u64|
                #[trigger] final (self).spec_byte(x) == match old(self).spec_last_hit(
                    x,
                    addr.spec_to_u64(),
                    2,
                ) {
                    Some(j) => spec_le_bytes(value as nat, 2)[j],
                    None => old(self).spec_byte(x),
                },
    {
        let v0 = value;
        let v1 = v0 / 256;
        let mut data: Vec<u8> = Vec::new();
        data.push((v0 % 256) as u8);
        data.push((v1 % 256) as u8);
        proof {
            reveal_with_fuel(spec_le_bytes, 3);
            assert(data@ =~= spec_le_bytes(value as nat, 2));
        }
        self.write_bytes(addr, &data);
    }

    /// Writes a [`u32`] into the memory at the given address
    /// (little-endian).
    pub fn write_u32(&mut self, addr: B::Addr, value: u32)
        requires
            old(self).wf(),
        ensures
            final (self).wf(),
            Self::spec_same_structure(*old(self), *final (self)),
            forall|x: u64|
                #[trigger] final (self).spec_byte(x) == match old(self).spec_last_hit(
                    x,
                    addr.spec_to_u64(),
                    4,
                ) {
                    Some(j) => spec_le_bytes(value as nat, 4)[j],
                    None => old(self).spec_byte(x),
                },
    {
        let v0 = value;
        let v1 = v0 / 256;
        let v2 = v1 / 256;
        let v3 = v2 / 256;
        let mut data: Vec<u8> = Vec::new();
        data.push((v0 % 256) as u8);
        data.push((v1 % 256) as u8);
        data.push((v2 % 256) as u8);
        data.push((v3 % 256) as u8);
        proof {
            reveal_with_fuel(spec_le_bytes, 5);
            assert(data@ =~= spec_le_bytes(value as nat, 4));
        }
        self.write_bytes(addr, &data);
    }

    /// Writes a [`u64`] into the memory at the given address
    /// (little-endian).
    pub fn write_u64(&mut self, addr: B::Addr, value: u64)
        requires
            old(self).wf(),
        ensures
            final (self).wf(),
            Self::spec_same_structure(*old(self), *final (self)),
            forall|x: u64|
                #[trigger] final (self).spec_byte(x) == match old(self).spec_last_hit(
                    x,
                    addr.spec_to_u64(),
                    8,
                ) {
                    Some(j) => spec_le_bytes(value as nat, 8)[j],
                    None => old(self).spec_byte(x),
                },
    {
        let v0 = value;
        let v1 = v0 / 256;
        let v2 = v1 / 256;
        let v3 = v2 / 256;
        let v4 = v3 / 256;
        let v5 = v4 / 256;
        let v6 = v5 / 256;
        let v7 = v6 / 256;
        let mut data: Vec<u8> = Vec::new();
        data.push((v0 % 256) as u8);
        data.push((v1 % 256) as u8);
        data.push((v2 % 256) as u8);
        data.push((v3 % 256) as u8);
        data.push((v4 % 256) as u8);
        data.push((v5 % 256) as u8);
        data.push((v6 % 256) as u8);
        data.push((v7 % 256) as u8);
        proof {
            reveal_with_fuel(spec_le_bytes, 9);
            assert(data@ =~= spec_le_bytes(value as nat, 8));
        }
        self.write_bytes(addr, &data);
    }

    /// Reads an [`i8`] from the memory at the given address.
    pub fn read_i8(&self, addr: B::Addr) -> (r: i8)
        requires
            self.wf(),
        ensures
            r == spec_signed8(self.spec_byte(addr.spec_to_u64())),
    {
        let b = self.read_byte_at(addr.to_u64());
        if b < 128 {
            b as i8
        } else {
            ((b as i16) - 0x100) as i8
        }
    }

    /// Reads an [`i16`] from the memory at the given address
    /// (little-endian).
    pub fn read_i16(&self, addr: B::Addr) -> (r: i16)
        requires
            self.wf(),
        ensures
            r == spec_signed16(self.spec_read_le(addr.spec_to_u64(), 2)),
    {
        let w = self.read_le_at(addr.to_u64(), 2);
        proof {
            reveal_with_fuel(spec_pow256, 3);
        }
        if w < 0x8000 {
            w as i16
        } else {
            ((w as i32) - 0x1_0000) as i16
        }
    }

    /// Reads an [`i32`] from the memory at the given address
    /// (little-endian).
    pub fn read_i32(&self, addr: B::Addr) -> (r: i32)
        requires
            self.wf(),
        ensures
            r == spec_signed32(self.spec_read_le(addr.spec_to_u64(), 4)),
    {
        let w = self.read_le_at(addr.to_u64(), 4);
        proof {
            reveal_with_fuel(spec_pow256, 5);
        }
        if w < 0x8000_0000 {
            w as i32
        } else {
            ((w as i64) - 0x1_0000_0000) as i32
        }
    }

    /// Reads an [`i64`] from the memory at the given address
    /// (little-endian).
    pub fn read_i64(&self, addr: B::Addr) -> (r: i64)
        requires
            self.wf(),
        ensures
            r == spec_signed64(self.spec_read_le(addr.spec_to_u64(), 8)),
    {
        let w = self.read_le_at(addr.to_u64(), 8);
        if w < 0x8000_0000_0000_0000 {
            w as i64
        } else {
            let d = w - 0x8000_0000_0000_0000;
            (d as i64) - 0x7FFF_FFFF_FFFF_FFFF - 1
        }
    }

    /// Writes an [`i8`] into the memory at the given address.
    pub fn write_i8(&mut self, addr: B::Addr, value: i8)
        requires
            old(self).wf(),
        ensures
            final (self).wf(),
            Self::spec_same_structure(*old(self), *final (self)),
            forall|x: u64|
                #[trigger] final (self).spec_byte(x) == if old(self).spec_writes_cell(
                    addr.spec_to_u64(),
                    x,
                ) {
                    spec_bits8(value)
                } else {
                    old(self).spec_byte(x)
                },
    {
        let b: u8 = if value >= 0 {
            value as u8
        } else {
            ((value as i16) + 0x100) as u8
        };
        self.write_u8(addr, b);
    }

    /// Writes an [`i16`] into the memory at the given address
    /// (little-endian).
    pub fn write_i16(&mut self, addr: B::Addr, value: i16)
        requires
            old(self).wf(),
        ensures
            final (self).wf(),
            Self::spec_same_structure(*old(self), *final (self)),
            forall|x: u64|
                #[trigger] final (self).spec_byte(x) == match old(self).spec_last_hit(
                    x,
                    addr.spec_to_u64(),
                    2,
                ) {
                    Some(j) => spec_le_bytes(spec_bits16(value) as nat, 2)[j],
                    None => old(self).spec_byte(x),
                },
    {
        let w: u16 = if value >= 0 {
            value as u16
        } else {
            ((value as i32) + 0x1_0000) as u16
        };
        self.write_u16(addr, w);
    }

    /// Writes an [`i32`] into the memory at the given address
    /// (little-endian).
    pub fn write_i32(&mut self, addr: B::Addr, value: i32)
        requires
            old(self).wf(),
        ensures
            final (self).wf(),
            Self::spec_same_structure(*old(self), *final (self)),
            forall|x: u64|
                #[trigger] final (self).spec_byte(x) == match old(self).spec_last_hit(
                    x,
                    addr.spec_to_u64(),
                    4,
                ) {
                    Some(j) => spec_le_bytes(spec_bits32(value) as nat, 4)[j],
                    None => old(self).spec_byte(x),
                },
    {
        let w: u32 = if value >= 0 {
            value as u32
        } else {
            ((value as i64) + 0x1_0000_0000) as u32
        };
        self.write_u32(addr, w);
    }

    /// Writes an [`i64`] into the memory at the given address
    /// (little-endian).
    pub fn write_i64(&mut self, addr: B::Addr, value: i64)
        requires
            old(self).wf(),
        ensures
            final (self).wf(),
            Self::spec_same_structure(*old(self), *final (self)),
            forall|x: u64|
                #[trigger] final (self).spec_byte(x) == match old(self).spec_last_hit(
                    x,
                    addr.spec_to_u64(),
                    8,
                ) {
                    Some(j) => spec_le_bytes(spec_bits64(value) as nat, 8)[j],
                    None => old(self).spec_byte(x),
                },
    {
        let w: u64 = if value >= 0 {
            value as u64
        } else {
            let d = value + 0x7FFF_FFFF_FFFF_FFFF + 1;
            (d as u64) + 0x8000_0000_0000_0000
        };
        self.write_u64(addr, w);
    }

    /// Helper for the round-trip law: under its premises, the byte
    /// written at wrapped offset `k` is the last write that changes
    /// its cell.
    proof fn lemma_last_hit_at(m1: Self, a0: u64, n: nat, k: nat)
        requires
            m1.wf(),
            k < n,
            n <= 0xFFFF_FFFF_FFFF_FFFF,
            forall|i: nat|
                i < n ==> spec_first_device(
                    m1.spec_devices(),
                    #[trigger] spec_wrap_add::<B>(a0, i as u64),
                ) is None,
            forall|i: nat, j: nat|
                i < n && j < n && i != j ==> (#[trigger] spec_wrap_add::<B>(a0, i as u64)) as int
                    % m1.spec_size() as int != (#[trigger] spec_wrap_add::<B>(a0, j as u64)) as int
                    % m1.spec_size() as int,
        ensures
            m1.spec_last_hit(spec_wrap_add::<B>(a0, k as u64), a0, n) == Some(k as int),
        decreases n,
    {
        if k < n - 1 {
            Self::lemma_last_hit_at(m1, a0, (n - 1) as nat, k);
        }
    }

    /// Helper for the round-trip law: a memory whose cells at wrapped
    /// offsets 0..n from `a0` hold the little-endian bytes of `v`
    /// reads those `n` bytes back as `v`.
    proof fn lemma_read_le_of_bytes(m: Self, a0: u64, v: nat, n: nat)
        requires
            a0 <= <B::Addr as Address>::spec_max(),
            v < spec_pow256(n),
            n <= 0xFFFF_FFFF_FFFF_FFFF,
            forall|k: nat|
                k < n ==> #[trigger] m.spec_byte(spec_wrap_add::<B>(a0, k as u64)) == spec_le_bytes(
                    v,
                    n,
                )[k as int],
        ensures
            m.spec_read_le(a0, n) == v,
        decreases n,
    {
        B::lemma_base_wf();
        let md = <B::Addr as Address>::spec_max() as int + 1;
        if n == 0 {
        } else {
            let a1 = spec_wrap_add::<B>(a0, 1);
            lemma_small_mod(a0 as nat, md as nat);
            assert(spec_wrap_add::<B>(a0, 0) == a0);
            lemma_mod_bound(a0 as int + 1, md);
            lemma_le_bytes_len(v, n);
            let k0: nat = 0;
            assert(m.spec_byte(spec_wrap_add::<B>(a0, k0 as u64)) == spec_le_bytes(v, n)[
                k0 as int
            ]);
            assert(m.spec_byte(a0) == spec_le_bytes(v, n)[0]);
            assert(spec_le_bytes(v, n)[0] == (v % 256) as u8);
            assert forall|k: nat|
                k < (n - 1) as nat implies #[trigger] m.spec_byte(
                spec_wrap_add::<B>(a1, k as u64),
            ) == spec_le_bytes(v / 256, (n - 1) as nat)[k as int] by {
                lemma_wrap_step::<B>(a0, 1, k as u64);
                lemma_le_bytes_len(v, n);
                lemma_le_bytes_len(v / 256, (n - 1) as nat);
                assert(m.spec_byte(spec_wrap_add::<B>(a0, (k + 1) as u64)) == spec_le_bytes(v, n)[
                    k as int + 1
                ]);
                assert(spec_le_bytes(v, n)[k as int + 1] == spec_le_bytes(v / 256, (n - 1) as nat)[
                    k as int
                ]);
            }
            Self::lemma_read_le_of_bytes(m, a1, v / 256, (n - 1) as nat);
        }
    }

    /// Law (round trip): after a little-endian write of `v` whose `n`
    /// byte cells are pairwise distinct and all serviced by RAM (the
    /// memory state a write of `v` at `a0` ensures), reading `n` bytes
    /// back from `a0` yields `v` again.
    pub proof fn lemma_write_read_round_trip(m1: Self, m2: Self, a0: u64, v: nat, n: nat)
        requires
            m1.wf(),
            a0 <= <B::Addr as Address>::spec_max(),
            1 <= n <= 0xFFFF_FFFF_FFFF_FFFF,
            v < spec_pow256(n),
            Self::spec_same_structure(m1, m2),
            forall|i: nat|
                i < n ==> spec_first_device(
                    m1.spec_devices(),
                    #[trigger] spec_wrap_add::<B>(a0, i as u64),
                ) is None,
            forall|i: nat, j: nat|
                i < n && j < n && i != j ==> (#[trigger] spec_wrap_add::<B>(a0, i as u64)) as int
                    % m1.spec_size() as int != (#[trigger] spec_wrap_add::<B>(a0, j as u64)) as int
                    % m1.spec_size() as int,
            forall|x: u64|
                #[trigger] m2.spec_byte(x) == match m1.spec_last_hit(x, a0, n) {
                    Some(j) => spec_le_bytes(v, n)[j],
                    None => m1.spec_byte(x),
                },
        ensures
            m2.spec_read_le(a0, n) == v,
    {
        assert forall|k: nat|
            k < n implies #[trigger] m2.spec_byte(spec_wrap_add::<B>(a0, k as u64))
            == spec_le_bytes(v, n)[k as int] by {
            Self::lemma_last_hit_at(m1, a0, n, k);
        }
        Self::lemma_read_le_of_bytes(m2, a0, v, n);
    }

    /// Law (circular addressing): a single-byte write at an address
    /// serviced by RAM is seen at every address that aliases the same
    /// RAM cell modulo the buffer size — in particular, a write at
    /// address `size` is read back at address `0`.
    pub proof fn lemma_circular_write(m1: Self, m2: Self, a: u64, x: u64, v: u8)
        requires
            m1.wf(),
            spec_first_device(m1.spec_devices(), a) is None,
            spec_first_device(m1.spec_devices(), x) is None,
            x as int % m1.spec_size() as int == a as int % m1.spec_size() as int,
            forall|y: u64|
                #[trigger] m2.spec_byte(y) == if m1.spec_writes_cell(a, y) {
                    v
                } else {
                    m1.spec_byte(y)
                },
        ensures
            m2.spec_byte(x) == v,
    {
    }

    /// Law (MMIO priority): when the device registered at index `i`
    /// claims `addr` and no earlier device does, the byte presented at
    /// `addr` comes from that device, not from RAM.
    pub proof fn lemma_mmio_priority(m: Self, addr: u64, i: int)
        requires
            0 <= i < m.spec_devices().len(),
            m.spec_devices()[i].spec_maps(addr),
            forall|j: int| 0 <= j < i ==> !(#[trigger] m.spec_devices()[j].spec_maps(addr)),
        ensures
            m.spec_byte(addr) == m.spec_devices()[i].spec_value(addr),
    {
        lemma_first_device_at(m.spec_devices(), addr, i);
    }
}

/// The signed value with the same bit pattern as the byte `b`.
pub open spec fn spec_signed8(b: u8) -> i8 {
    if b < 0x80 {
        b as i8
    } else {
        ((b as int) - 0x100) as i8
    }
}

/// The signed value with the same low 16 bits as `w`.
pub open spec fn spec_signed16(w: nat) -> i16 {
    if w < 0x8000 {
        w as i16
    } else {
        ((w as int) - 0x1_0000) as i16
    }
}

/// The signed value with the same low 32 bits as `w`.
pub open spec fn spec_signed32(w: nat) -> i32 {
    if w < 0x8000_0000 {
        w as i32
    } else {
        ((w as int) - 0x1_0000_0000) as i32
    }
}

/// The signed value with the same low 64 bits as `w`.
pub open spec fn spec_signed64(w: nat) -> i64 {
    if w < 0x8000_0000_0000_0000 {
        w as i64
    } else {
        ((w as int) - 0x1_0000_0000_0000_0000) as i64
    }
}

/// The unsigned 8-bit value with the same bit pattern as `v`.
pub open spec fn spec_bits8(v: i8) -> u8 {
    if v >= 0 {
        v as u8
    } else {
        ((v as int) + 0x100) as u8
    }
}

/// The unsigned 16-bit value with the same bit pattern as `v`.
pub open spec fn spec_bits16(v: i16) -> u16 {
    if v >= 0 {
        v as u16
    } else {
        ((v as int) + 0x1_0000) as u16
    }
}

/// The unsigned 32-bit value with the same bit pattern as `v`.
pub open spec fn spec_bits32(v: i32) -> u32 {
    if v >= 0 {
        v as u32
    } else {
        ((v as int) + 0x1_0000_0000) as u32
    }
}

/// The unsigned 64-bit value with the same bit pattern as `v`.
pub open spec fn spec_bits64(v: i64) -> u64 {
    if v >= 0 {
        v as u64
    } else {
        ((v as int) + 0x1_0000_0000_0000_0000) as u64
    }
}

/// An MMIO device backed by a byte buffer mapped at a fixed base
/// address: it claims exactly the addresses `base..base + len` and
/// services them from the buffer.
pub struct BufferDevice {
    base: u64,
    data: Vec<u8>,
}

impl BufferDevice {
    /// The first address this device claims.
    pub closed spec fn spec_base(self) -> u64 {
        self.base
    }

    /// The bytes this device presents, in address order.
    pub closed spec fn spec_data(self) -> Seq<u8> {
        self.data@
    }

    /// Creates a device that presents `data` starting at `base`.
    pub fn new(base: u64, data: Vec<u8>) -> (r: Self)
        ensures
            r.spec_base() == base,
            r.spec_data() == data@,
    {
        BufferDevice { base, data }
    }
}

impl MmioDevice for BufferDevice {
    open spec fn spec_maps(&self, addr: u64) -> bool {
        self.spec_base() <= addr && (addr as int) < self.spec_base() as int
            + self.spec_data().len()
    }

    open spec fn spec_value(&self, addr: u64) -> u8 {
        self.spec_data()[addr as int - self.spec_base() as int]
    }

    fn maps_at(&self, addr: u64) -> bool {
        addr >= self.base && addr - self.base < self.data.len() as u64
    }

    fn read(&self, addr: u64) -> u8 {
        let _n = self.data.len();
        let i = (addr - self.base) as usize;
        self.data[i]
    }

    fn write(&mut self, addr: u64, val: u8) {
        let _n = self.data.len();
        let i = (addr - self.base) as usize;
        self.data[i] = val;
    }
}

/// When a first device exists for `addr`, its index is in range and it
/// claims `addr`.
proof fn lemma_first_device_props<D: MmioDevice>(devs: Seq<D>, addr: u64)
    ensures
        match spec_first_device(devs, addr) {
            Some(j) => 0 <= j < devs.len() && devs[j].spec_maps(addr),
            None => true,
        },
    decreases devs.len(),
{
    if devs.len() > 0 && !devs[0].spec_maps(addr) {
        lemma_first_device_props(devs.drop_first(), addr);
    }
}

/// The `n` little-endian bytes of the value `v`, least significant
/// first.
pub open spec fn spec_le_bytes(v: nat, n: nat) -> Seq<u8>
    decreases n,
{
    if n == 0 {
        Seq::empty()
    } else {
        seq![(v % 256) as u8] + spec_le_bytes(v / 256, (n - 1) as nat)
    }
}

/// `spec_le_bytes` yields as many bytes as asked for.
proof fn lemma_le_bytes_len(v: nat, n: nat)
    ensures
        spec_le_bytes(v, n).len() == n,
    decreases n,
{
    if n > 0 {
        lemma_le_bytes_len(v / 256, (n - 1) as nat);
    }
}

/// 256 to the power `e`: the number of values `e` bytes can hold.
pub open spec fn spec_pow256(e: nat) -> nat
    decreases e,
{
    if e == 0 {
        1
    } else {
        256 * spec_pow256((e - 1) as nat)
    }
}

/// `spec_pow256` grows monotonically.
proof fn lemma_pow256_mono(e1: nat, e2: nat)
    requires
        e1 <= e2,
    ensures
        spec_pow256(e1) <= spec_pow256(e2),
    decreases e2,
{
    if e1 < e2 {
        lemma_pow256_mono(e1, (e2 - 1) as nat);
    }
}

/// Wrapped address addition is associative: stepping once from an
/// offset `j` lands on the offset `j + 1`.
proof fn lemma_wrap_step<B: Base>(a: u64, j: u64, k: u64)
    requires
        j + k <= u64::MAX,
    ensures
        spec_wrap_add::<B>(spec_wrap_add::<B>(a, j), k) == spec_wrap_add::<B>(a, (j + k) as u64),
{
    B::lemma_base_wf();
    let m = <B::Addr as Address>::spec_max() as int + 1;
    lemma_mod_bound(a as int + j as int, m);
    let w = (a as int + j as int) % m;
    lemma_small_mod(w as nat, m as nat);
    lemma_add_mod_noop(a as int + j as int, k as int, m);
    lemma_add_mod_noop(w, k as int, m);
}

} // verus!
