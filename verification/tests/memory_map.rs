use uefi_bridge::layout::EfiBootServicesTable;
use uefi_bridge::memory_map::{
    EfiMemoryDescriptor, EfiMemoryType, MemoryMapHolder, MemoryMapReply, MEMORY_DESCRIPTOR_SIZE,
    MEMORY_MAP_BUFFER_SIZE, MEMORY_TYPE_COUNT,
};
use uefi_bridge::status::{EfiStatus, UefiError};

fn table() -> EfiBootServicesTable {
    EfiBootServicesTable { get_memory_map: 0x1000, exit_boot_services: 0x2000, locate_protocol: 0x3000 }
}

fn put_u64(buffer: &mut [u8], at: usize, value: u64) {
    buffer[at..at + 8].copy_from_slice(&value.to_le_bytes());
}

fn put_descriptor(buffer: &mut [u8], at: usize, tag: u64, start: u64, pages: u64) {
    put_u64(buffer, at, tag);
    put_u64(buffer, at + 8, start);
    put_u64(buffer, at + 16, start + 0x1000_0000);
    put_u64(buffer, at + 24, pages);
    put_u64(buffer, at + 32, 0xf);
}

fn reply(status: u64, size: usize, stride: usize) -> MemoryMapReply {
    MemoryMapReply {
        status,
        memory_map_size: size,
        map_key: 0x55aa,
        descriptor_size: stride,
        descriptor_version: 1,
    }
}

fn three_descriptors(stride: usize) -> [u8; MEMORY_MAP_BUFFER_SIZE] {
    let mut written = [0xeeu8; MEMORY_MAP_BUFFER_SIZE];
    put_descriptor(&mut written, 0, 7, 0x10_0000, 16);
    put_descriptor(&mut written, stride, 2, 0x20_0000, 32);
    put_descriptor(&mut written, 2 * stride, 4, 0x30_0000, 64);
    written
}

fn captured(written: &[u8; MEMORY_MAP_BUFFER_SIZE], size: usize, stride: usize) -> MemoryMapHolder {
    let mut map = MemoryMapHolder::new();
    assert_eq!(map.capture(&table(), written, &reply(0, size, stride)), Ok(()));
    map
}

#[test]
fn new_holder_is_empty() {
    let map = MemoryMapHolder::new();
    assert_eq!(map.memory_map_size(), 0);
    assert_eq!(map.map_key(), 0);
    assert_eq!(map.descriptor_size(), 0);
    assert_eq!(map.descriptor_version(), 0);
    assert!(map.iter().next().is_none());
    assert!(map.descriptors().is_empty());
}

#[test]
fn default_holder_is_empty() {
    let map = MemoryMapHolder::default();
    assert_eq!(map.memory_map_size(), 0);
    assert!(map.descriptors().is_empty());
}

#[test]
fn three_descriptors_of_forty_bytes_yield_three_items() {
    let written = three_descriptors(40);
    let map = captured(&written, 120, 40);
    let mut walk = map.iter();
    let first = walk.next().expect("first slot").expect("first descriptor");
    let second = walk.next().expect("second slot").expect("second descriptor");
    let third = walk.next().expect("third slot").expect("third descriptor");
    assert!(walk.next().is_none());
    assert!(walk.next().is_none());
    assert_eq!(first.memory_type(), EfiMemoryType::CONVENTIONAL_MEMORY);
    assert_eq!(first.number_of_pages(), 16);
    assert_eq!(first.physical_start, 0x10_0000);
    assert_eq!(first.virtual_start, 0x1010_0000);
    assert_eq!(first.attribute, 0xf);
    assert_eq!(second.memory_type(), EfiMemoryType::LOADER_DATA);
    assert_eq!(second.number_of_pages(), 32);
    assert_eq!(third.memory_type(), EfiMemoryType::BOOT_SERVICES_DATA);
    assert_eq!(third.number_of_pages(), 64);
}

#[test]
fn capture_records_what_the_firmware_reported() {
    let written = three_descriptors(40);
    let map = captured(&written, 120, 40);
    assert_eq!(map.memory_map_size(), 120);
    assert_eq!(map.map_key(), 0x55aa);
    assert_eq!(map.descriptor_size(), 40);
    assert_eq!(map.descriptor_version(), 1);
}

#[test]
fn iteration_advances_by_the_reported_stride() {
    let written = three_descriptors(48);
    let map = captured(&written, 144, 48);
    let items = map.descriptors();
    assert_eq!(items.len(), 3);
    assert_eq!(items[0].unwrap().number_of_pages(), 16);
    assert_eq!(items[1].unwrap().number_of_pages(), 32);
    assert_eq!(items[2].unwrap().number_of_pages(), 64);
}

#[test]
fn item_count_is_used_size_over_stride_rounded_down() {
    let written = three_descriptors(40);
    assert_eq!(captured(&written, 119, 40).descriptors().len(), 2);
    assert_eq!(captured(&written, 120, 40).descriptors().len(), 3);
    assert_eq!(captured(&written, 121, 40).descriptors().len(), 3);
    assert_eq!(captured(&written, 159, 40).descriptors().len(), 3);
    assert_eq!(captured(&written, 39, 40).descriptors().len(), 0);
    assert_eq!(captured(&written, 0, 40).descriptors().len(), 0);
    assert_eq!(
        captured(&written, MEMORY_MAP_BUFFER_SIZE, 40).descriptors().len(),
        MEMORY_MAP_BUFFER_SIZE / 40
    );
}

#[test]
fn bytes_past_the_used_size_are_not_decoded() {
    let mut first = three_descriptors(40);
    let mut second = three_descriptors(40);
    for byte in first[120..].iter_mut() {
        *byte = 0;
    }
    for byte in second[120..].iter_mut() {
        *byte = 0xff;
    }
    assert_eq!(captured(&first, 120, 40).descriptors(), captured(&second, 120, 40).descriptors());
}

#[test]
fn iterating_twice_yields_the_same_sequence() {
    let written = three_descriptors(40);
    let map = captured(&written, 120, 40);
    let mut once = Vec::new();
    let mut walk = map.iter();
    while let Some(item) = walk.next() {
        once.push(item);
    }
    let mut twice = Vec::new();
    let mut walk = map.iter();
    while let Some(item) = walk.next() {
        twice.push(item);
    }
    assert_eq!(once.len(), 3);
    assert_eq!(once, twice);
    assert_eq!(once, map.descriptors());
}

#[test]
fn zero_stride_yields_nothing() {
    let written = three_descriptors(40);
    let map = captured(&written, 120, 0);
    assert!(map.iter().next().is_none());
    assert!(map.descriptors().is_empty());
}

#[test]
fn stride_shorter_than_a_descriptor_yields_undecoded_slots() {
    let written = three_descriptors(40);
    let map = captured(&written, 120, 30);
    assert_eq!(map.descriptors(), vec![None, None, None, None]);
}

#[test]
fn stride_larger_than_the_used_size_yields_nothing() {
    let written = three_descriptors(40);
    let map = captured(&written, 120, usize::MAX);
    assert!(map.descriptors().is_empty());
}

#[test]
fn unknown_memory_type_is_not_coerced() {
    let mut written = three_descriptors(40);
    put_u64(&mut written, 40, 15);
    let map = captured(&written, 120, 40);
    let items = map.descriptors();
    assert_eq!(items.len(), 3);
    assert!(items[0].is_some());
    assert_eq!(items[1], None);
    assert_eq!(items[2].unwrap().memory_type(), EfiMemoryType::BOOT_SERVICES_DATA);
}

#[test]
fn oversized_map_fails_with_map_buffer_too_small() {
    let written = three_descriptors(40);
    let mut map = captured(&written, 120, 40);
    let result = map.capture(&table(), &written, &reply(5, MEMORY_MAP_BUFFER_SIZE + 1, 40));
    assert_eq!(result, Err(UefiError::MapBufferTooSmall));
    assert_eq!(map.memory_map_size(), 0);
    assert!(map.iter().next().is_none());
    assert!(map.descriptors().is_empty());
}

#[test]
fn oversized_map_with_success_status_is_still_too_small() {
    let written = three_descriptors(40);
    let mut map = MemoryMapHolder::new();
    let result = map.capture(&table(), &written, &reply(0, MEMORY_MAP_BUFFER_SIZE + 1, 40));
    assert_eq!(result, Err(UefiError::MapBufferTooSmall));
    assert!(map.descriptors().is_empty());
}

#[test]
fn failed_call_fails_with_firmware_call_failed() {
    let written = three_descriptors(40);
    let mut map = captured(&written, 120, 40);
    let result = map.capture(&table(), &written, &reply(0x8000_0000_0000_0002, 120, 40));
    assert_eq!(result, Err(UefiError::FirmwareCallFailed));
    assert_eq!(map.memory_map_size(), 0);
    assert_eq!(map.map_key(), 0);
    assert!(map.descriptors().is_empty());
}

#[test]
fn map_of_full_capacity_is_accepted() {
    let written = three_descriptors(40);
    let mut map = MemoryMapHolder::new();
    let result = map.capture(&table(), &written, &reply(0, MEMORY_MAP_BUFFER_SIZE, 40));
    assert_eq!(result, Ok(()));
    assert_eq!(map.memory_map_size(), MEMORY_MAP_BUFFER_SIZE);
}

#[test]
fn fresh_capture_overwrites_the_previous_one() {
    let written = three_descriptors(40);
    let mut map = captured(&written, 120, 40);
    let mut fresh = [0u8; MEMORY_MAP_BUFFER_SIZE];
    put_descriptor(&mut fresh, 0, 9, 0x40_0000, 1);
    let second = MemoryMapReply {
        status: 0,
        memory_map_size: 40,
        map_key: 0x77,
        descriptor_size: 40,
        descriptor_version: 2,
    };
    assert_eq!(map.capture(&table(), &fresh, &second), Ok(()));
    assert_eq!(map.map_key(), 0x77);
    assert_eq!(map.descriptor_version(), 2);
    let items = map.descriptors();
    assert_eq!(items.len(), 1);
    assert_eq!(items[0].unwrap().memory_type(), EfiMemoryType::ACPI_RECLAIM_MEMORY);
}

#[test]
fn get_memory_map_reports_the_collapsed_status() {
    let written = three_descriptors(40);
    let mut map = MemoryMapHolder::new();
    assert_eq!(table().get_memory_map(&mut map, &written, &reply(0, 120, 40)), EfiStatus::Success);
    assert_eq!(map.memory_map_size(), 120);
    assert_eq!(table().get_memory_map(&mut map, &written, &reply(3, 120, 40)), EfiStatus::Failure);
    assert_eq!(map.memory_map_size(), 0);
    assert_eq!(
        table().get_memory_map(&mut map, &written, &reply(0, MEMORY_MAP_BUFFER_SIZE + 1, 40)),
        EfiStatus::Failure
    );
}

#[test]
fn memory_type_tags_follow_the_firmware_numbers() {
    let kinds = [
        EfiMemoryType::RESERVED,
        EfiMemoryType::LOADER_CODE,
        EfiMemoryType::LOADER_DATA,
        EfiMemoryType::BOOT_SERVICES_CODE,
        EfiMemoryType::BOOT_SERVICES_DATA,
        EfiMemoryType::RUNTIME_SERVICES_CODE,
        EfiMemoryType::RUNTIME_SERVICES_DATA,
        EfiMemoryType::CONVENTIONAL_MEMORY,
        EfiMemoryType::UNUSABLE_MEMORY,
        EfiMemoryType::ACPI_RECLAIM_MEMORY,
        EfiMemoryType::ACPI_MEMORY_NVS,
        EfiMemoryType::MEMORY_MAPPED_IO,
        EfiMemoryType::MEMORY_MAPPED_IO_PORT_SPACE,
        EfiMemoryType::PAL_CODE,
        EfiMemoryType::PERSISTENT_MEMORY,
    ];
    assert_eq!(kinds.len() as u64, MEMORY_TYPE_COUNT);
    for (number, kind) in kinds.iter().enumerate() {
        assert_eq!(kind.tag(), number as u64);
        assert_eq!(EfiMemoryType::from_tag(number as u64), Some(*kind));
    }
}

#[test]
fn unknown_tags_name_no_memory_type() {
    assert_eq!(EfiMemoryType::from_tag(15), None);
    assert_eq!(EfiMemoryType::from_tag(0x1_0000_0000), None);
    assert_eq!(EfiMemoryType::from_tag(u64::MAX), None);
}

#[test]
fn decode_reads_five_little_endian_fields() {
    let mut record = [0u8; 40];
    record[0] = 11;
    record[8..16].copy_from_slice(&[0x08, 0x07, 0x06, 0x05, 0x04, 0x03, 0x02, 0x01]);
    record[16] = 0xff;
    record[25] = 0x01;
    record[39] = 0x80;
    let descriptor = EfiMemoryDescriptor::decode(&record).unwrap();
    assert_eq!(
        descriptor,
        EfiMemoryDescriptor {
            memory_type: EfiMemoryType::MEMORY_MAPPED_IO,
            physical_start: 0x0102_0304_0506_0708,
            virtual_start: 0xff,
            number_of_pages: 0x100,
            attribute: 0x8000_0000_0000_0000,
        }
    );
}

#[test]
fn decode_rejects_a_short_record() {
    assert_eq!(MEMORY_DESCRIPTOR_SIZE, 40);
    assert_eq!(EfiMemoryDescriptor::decode(&[0u8; 39]), None);
    assert_eq!(EfiMemoryDescriptor::decode(&[]), None);
    assert!(EfiMemoryDescriptor::decode(&[0u8; 40]).is_some());
    assert!(EfiMemoryDescriptor::decode(&[0u8; 64]).is_some());
}

#[test]
fn decode_rejects_a_tag_with_high_bytes_set() {
    let mut record = [0u8; 40];
    record[0] = 7;
    record[4] = 1;
    assert_eq!(EfiMemoryDescriptor::decode(&record), None);
}
