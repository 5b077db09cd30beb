//! Memory tests: typed little-endian accesses, circular addressing,
//! and MMIO device dispatch.

use rvcore::memory::{BufferDevice, Memory};
use rvcore::{RV32I, RV64I};

#[test]
fn read_write() {
    let mut memory = Memory::<RV64I, BufferDevice>::with_size(1024);

    memory.write_i32(0xA0, 1);
    assert_eq!(memory.read_i32(0xA0), 1);

    memory.write_bytes(0x00, &vec![13u8, 32, 43, 54]);
    assert_eq!(memory.read_bytes(0x00, 4), vec![13u8, 32, 43, 54]);

    let num = 0xAAAA_BBBBu32;
    memory.write_u32(0x08, num.to_be());
    let b = memory.read_bytes(0x08, 4);
    assert_eq!(u32::from_be_bytes([b[0], b[1], b[2], b[3]]), num);
}

#[test]
fn typed_round_trips() {
    let mut memory = Memory::<RV64I, BufferDevice>::with_size(256);
    memory.write_u8(0, 0xFE);
    assert_eq!(memory.read_u8(0), 0xFE);
    memory.write_u16(2, 0xBEEF);
    assert_eq!(memory.read_u16(2), 0xBEEF);
    memory.write_u32(4, 0xDEAD_BEEF);
    assert_eq!(memory.read_u32(4), 0xDEAD_BEEF);
    memory.write_u64(8, 0x0123_4567_89AB_CDEF);
    assert_eq!(memory.read_u64(8), 0x0123_4567_89AB_CDEF);
    memory.write_i8(16, -3);
    assert_eq!(memory.read_i8(16), -3);
    memory.write_i16(18, -259);
    assert_eq!(memory.read_i16(18), -259);
    memory.write_i32(20, -70000);
    assert_eq!(memory.read_i32(20), -70000);
    memory.write_i64(24, -5_000_000_000);
    assert_eq!(memory.read_i64(24), -5_000_000_000);
}

#[test]
fn little_endian_layout() {
    let mut memory = Memory::<RV64I, BufferDevice>::with_size(64);
    memory.write_u32(0, 0x0403_0201);
    assert_eq!(memory.read_u8(0), 0x01);
    assert_eq!(memory.read_u8(1), 0x02);
    assert_eq!(memory.read_u8(2), 0x03);
    assert_eq!(memory.read_u8(3), 0x04);
}

#[test]
fn circular_addressing_wraps_at_size() {
    let mut memory = Memory::<RV64I, BufferDevice>::with_size(1024);
    memory.write_u8(1024, 77);
    assert_eq!(memory.read_u8(0), 77);
    memory.write_u8(5, 12);
    assert_eq!(memory.read_u8(1024 + 5), 12);
}

#[test]
fn rv32_memory_uses_32_bit_addresses() {
    let mut memory = Memory::<RV32I, BufferDevice>::with_size(128);
    memory.write_u32(0x10u32, 0xCAFE_BABE);
    assert_eq!(memory.read_u32(0x10u32), 0xCAFE_BABE);
}

#[test]
fn mmio_device_takes_priority_over_ram() {
    let mut memory = Memory::<RV64I, BufferDevice>::with_size(256);
    memory.write_u8(0x50, 0x11);
    memory.register(BufferDevice::new(0x50, vec![0xAB]));
    assert_eq!(memory.read_u8(0x50), 0xAB);
    // Neighbouring bytes still come from RAM.
    assert_eq!(memory.read_u8(0x51), 0x00);
}

#[test]
fn first_registered_device_wins() {
    let mut memory = Memory::<RV64I, BufferDevice>::with_size(256);
    memory.register(BufferDevice::new(0x60, vec![0x01, 0x02]));
    memory.register(BufferDevice::new(0x60, vec![0xFF, 0xFE]));
    assert_eq!(memory.read_u8(0x60), 0x01);
    assert_eq!(memory.read_u8(0x61), 0x02);
}

#[test]
fn mmio_device_services_writes() {
    let mut memory = Memory::<RV64I, BufferDevice>::with_size(256);
    memory.register(BufferDevice::new(0x2000, vec![0u8; 16]));
    memory.write_u8(0x2004, 0x99);
    assert_eq!(memory.read_u8(0x2004), 0x99);
    // The RAM cell that aliases 0x2004 modulo the size is untouched.
    assert_eq!(memory.read_u8(0x04), 0x00);
}

#[test]
fn devices_may_live_beyond_ram() {
    // A device can claim addresses past the RAM size; RAM itself
    // wraps, the device does not.
    let mut memory = Memory::<RV64I, BufferDevice>::with_size(64);
    memory.register(BufferDevice::new(0x1_0000, vec![0x42]));
    assert_eq!(memory.read_u8(0x1_0000), 0x42);
}
