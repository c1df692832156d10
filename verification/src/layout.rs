//! The binary shape of the firmware's service tables.
//!
//! Every table is a run of eight-byte slots. The offsets of the slots that
//! the bridge uses are derived here from the number of slots that precede
//! them, and `lemma_table_offsets` holds them to the values that the
//! platform fixes. A table is read from its image in memory, little end
//! first, as the platform stores it.

use vstd::prelude::*;
use crate::status::UefiError;

verus! {

/// The size in bytes of one slot of a service table.
pub const SLOT_SIZE: usize = 8;

/// Slots of the boot-services table before the get-memory-map entry.
pub const SLOTS_BEFORE_GET_MEMORY_MAP: usize = 7;

/// Slots between the get-memory-map and the exit-boot-services entries.
pub const SLOTS_BEFORE_EXIT_BOOT_SERVICES: usize = 21;

/// Slots between the exit-boot-services and the locate-protocol entries.
pub const SLOTS_BEFORE_LOCATE_PROTOCOL: usize = 10;

/// Slots of the system table before the boot-services pointer.
pub const SLOTS_BEFORE_BOOT_SERVICES: usize = 12;

/// Byte offset of the get-memory-map entry in the boot-services table.
pub const GET_MEMORY_MAP_OFFSET: usize = SLOTS_BEFORE_GET_MEMORY_MAP * SLOT_SIZE;

/// Byte offset of the exit-boot-services entry in the boot-services table.
pub const EXIT_BOOT_SERVICES_OFFSET: usize = GET_MEMORY_MAP_OFFSET + SLOT_SIZE
    + SLOTS_BEFORE_EXIT_BOOT_SERVICES * SLOT_SIZE;

/// Byte offset of the locate-protocol entry in the boot-services table.
pub const LOCATE_PROTOCOL_OFFSET: usize = EXIT_BOOT_SERVICES_OFFSET + SLOT_SIZE
    + SLOTS_BEFORE_LOCATE_PROTOCOL * SLOT_SIZE;

/// Byte offset of the boot-services pointer in the system table.
pub const BOOT_SERVICES_POINTER_OFFSET: usize = SLOTS_BEFORE_BOOT_SERVICES * SLOT_SIZE;

/// Bytes of the boot-services table up to the end of its last used entry.
pub const BOOT_SERVICES_TABLE_SIZE: usize = LOCATE_PROTOCOL_OFFSET + SLOT_SIZE;

/// Bytes of the system table up to the end of the boot-services pointer.
pub const SYSTEM_TABLE_SIZE: usize = BOOT_SERVICES_POINTER_OFFSET + SLOT_SIZE;

/// The offsets of the three calls in the boot-services table and of the
/// boot-services pointer in the system table are exactly 56, 232, 320 and
/// 96 bytes. A change to the slot counts above that moves any of them stops
/// the crate from verifying.
pub proof fn lemma_table_offsets()
    ensures
        GET_MEMORY_MAP_OFFSET == 56,
        EXIT_BOOT_SERVICES_OFFSET == 232,
        LOCATE_PROTOCOL_OFFSET == 320,
        BOOT_SERVICES_POINTER_OFFSET == 96,
        BOOT_SERVICES_TABLE_SIZE == 328,
        SYSTEM_TABLE_SIZE == 104,
{
}

/// The number that eight bytes stand for, least significant byte first.
pub open spec fn le_u64(bytes: Seq<u8>) -> int
    recommends
        bytes.len() == 8,
{
    bytes[0] + bytes[1] * 0x100 + bytes[2] * 0x1_0000 + bytes[3] * 0x100_0000 + bytes[4]
        * 0x1_0000_0000 + bytes[5] * 0x100_0000_0000 + bytes[6] * 0x1_0000_0000_0000 + bytes[7]
        * 0x100_0000_0000_0000
}

/// The eight bytes of `bytes` that start at `offset`.
pub open spec fn slot_at(bytes: Seq<u8>, offset: int) -> Seq<u8> {
    bytes.subrange(offset, offset + 8)
}

/// Reads the eight-byte little-endian number at `offset`, or `None` where
/// the eight bytes do not lie within `bytes`.
pub fn read_u64_le(bytes: &[u8], offset: usize) -> (value: Option<u64>)
    ensures
        value.is_some() <==> offset + 8 <= bytes@.len(),
        value matches Some(v) ==> v == le_u64(slot_at(bytes@, offset as int)),
{
    let len: usize = bytes.len();
    if len < 8 || offset > len - 8 {
        return None;
    }
    let b0: u64 = bytes[offset] as u64;
    let b1: u64 = bytes[offset + 1] as u64;
    let b2: u64 = bytes[offset + 2] as u64;
    let b3: u64 = bytes[offset + 3] as u64;
    let b4: u64 = bytes[offset + 4] as u64;
    let b5: u64 = bytes[offset + 5] as u64;
    let b6: u64 = bytes[offset + 6] as u64;
    let b7: u64 = bytes[offset + 7] as u64;
    Some(
        b0 + b1 * 0x100 + b2 * 0x1_0000 + b3 * 0x100_0000 + b4 * 0x1_0000_0000 + b5
            * 0x100_0000_0000 + b6 * 0x1_0000_0000_0000 + b7 * 0x100_0000_0000_0000,
    )
}

/// The entry points of the three boot services that the bridge calls, as
/// the addresses found in the firmware's boot-services table.
#[derive(Debug, PartialEq, Eq, Copy, Clone, Structural)]
pub struct EfiBootServicesTable {
    /// Address of the call that writes the memory map.
    pub get_memory_map: u64,
    /// Address of the call that ends boot services.
    pub exit_boot_services: u64,
    /// Address of the call that finds a protocol by its identifier.
    pub locate_protocol: u64,
}

impl EfiBootServicesTable {
    /// The table that an image holds: each entry is the slot at its offset.
    pub open spec fn of_image(image: Seq<u8>) -> EfiBootServicesTable
        recommends
            image.len() >= BOOT_SERVICES_TABLE_SIZE,
    {
        EfiBootServicesTable {
            get_memory_map: le_u64(slot_at(image, GET_MEMORY_MAP_OFFSET as int)) as u64,
            exit_boot_services: le_u64(slot_at(image, EXIT_BOOT_SERVICES_OFFSET as int)) as u64,
            locate_protocol: le_u64(slot_at(image, LOCATE_PROTOCOL_OFFSET as int)) as u64,
        }
    }

    /// Reads the table from its image in memory. Fails with
    /// `LayoutMismatch` exactly when the image ends before the last entry.
    pub fn from_bytes(image: &[u8]) -> (table: Result<EfiBootServicesTable, UefiError>)
        ensures
            table.is_ok() <==> image@.len() >= BOOT_SERVICES_TABLE_SIZE,
            table matches Ok(t) ==> t == EfiBootServicesTable::of_image(image@),
            table matches Err(e) ==> e == UefiError::LayoutMismatch,
    {
        if image.len() < BOOT_SERVICES_TABLE_SIZE {
            return Err(UefiError::LayoutMismatch);
        }
        match (
            read_u64_le(image, GET_MEMORY_MAP_OFFSET),
            read_u64_le(image, EXIT_BOOT_SERVICES_OFFSET),
            read_u64_le(image, LOCATE_PROTOCOL_OFFSET),
        ) {
            (Some(get_memory_map), Some(exit_boot_services), Some(locate_protocol)) => Ok(
                EfiBootServicesTable { get_memory_map, exit_boot_services, locate_protocol },
            ),
            _ => Err(UefiError::LayoutMismatch),
        }
    }
}

/// The firmware's system table, as far as the bridge reads it: the address
/// of the boot-services table and the table found there.
#[derive(Debug, PartialEq, Eq, Copy, Clone, Structural)]
pub struct EfiSytemTable {
    /// Address of the boot-services table.
    pub boot_services_address: u64,
    /// The boot-services table.
    pub boot_services: EfiBootServicesTable,
}

impl EfiSytemTable {
    /// The address of the boot-services table that a system-table image
    /// holds.
    pub open spec fn boot_services_address_of(image: Seq<u8>) -> u64
        recommends
            image.len() >= SYSTEM_TABLE_SIZE,
    {
        le_u64(slot_at(image, BOOT_SERVICES_POINTER_OFFSET as int)) as u64
    }

    /// Reads the address of the boot-services table from the image of the
    /// system table. Fails with `LayoutMismatch` exactly when the image
    /// ends before the pointer does.
    pub fn locate_boot_services(image: &[u8]) -> (address: Result<u64, UefiError>)
        ensures
            address.is_ok() <==> image@.len() >= SYSTEM_TABLE_SIZE,
            address matches Ok(a) ==> a == EfiSytemTable::boot_services_address_of(image@),
            address matches Err(e) ==> e == UefiError::LayoutMismatch,
    {
        match read_u64_le(image, BOOT_SERVICES_POINTER_OFFSET) {
            Some(address) => Ok(address),
            None => Err(UefiError::LayoutMismatch),
        }
    }

    /// Reads the system table from its image and from the image of the
    /// boot-services table that it points to. Fails with `LayoutMismatch`
    /// exactly when either image is too short.
    pub fn from_bytes(system_image: &[u8], boot_services_image: &[u8]) -> (table: Result<
        EfiSytemTable,
        UefiError,
    >)
        ensures
            table.is_ok() <==> system_image@.len() >= SYSTEM_TABLE_SIZE
                && boot_services_image@.len() >= BOOT_SERVICES_TABLE_SIZE,
            table matches Ok(t) ==> t == (EfiSytemTable {
                boot_services_address: EfiSytemTable::boot_services_address_of(system_image@),
                boot_services: EfiBootServicesTable::of_image(boot_services_image@),
            }),
            table matches Err(e) ==> e == UefiError::LayoutMismatch,
    {
        let boot_services_address: u64 = match EfiSytemTable::locate_boot_services(system_image) {
            Ok(address) => address,
            Err(e) => {
                return Err(e);
            },
        };
        match EfiBootServicesTable::from_bytes(boot_services_image) {
            Ok(boot_services) => Ok(EfiSytemTable { boot_services_address, boot_services }),
            Err(e) => Err(e),
        }
    }

    /// The boot-services table.
    pub fn boot_services(&self) -> (table: &EfiBootServicesTable)
        ensures
            *table == self.boot_services,
    {
        &self.boot_services
    }
}

} // verus!
