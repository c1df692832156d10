//! The firmware's memory map: the kinds of memory region, the descriptor
//! record, and a fixed-capacity snapshot with an iterator over it.

use vstd::prelude::*;
use vstd::array::array_as_slice;
use vstd::slice::slice_subrange;
use crate::layout::{le_u64, read_u64_le, slot_at, EfiBootServicesTable};
use crate::status::{EfiStatus, UefiError, EFI_SUCCESS_CODE};

verus! {

/// The kind of a memory region. The firmware names each kind by a fixed
/// number, which `tag` gives and `from_tag` reads.
#[derive(Debug, Clone, Copy, PartialEq, Eq, Structural)]
#[allow(non_camel_case_types)]
pub enum EfiMemoryType {
    RESERVED,
    LOADER_CODE,
    LOADER_DATA,
    BOOT_SERVICES_CODE,
    BOOT_SERVICES_DATA,
    RUNTIME_SERVICES_CODE,
    RUNTIME_SERVICES_DATA,
    CONVENTIONAL_MEMORY,
    UNUSABLE_MEMORY,
    ACPI_RECLAIM_MEMORY,
    ACPI_MEMORY_NVS,
    MEMORY_MAPPED_IO,
    MEMORY_MAPPED_IO_PORT_SPACE,
    PAL_CODE,
    PERSISTENT_MEMORY,
}

/// The number of memory kinds; the tags are the numbers below it.
pub const MEMORY_TYPE_COUNT: u64 = 15;

impl EfiMemoryType {
    /// The number by which the firmware names this kind.
    pub open spec fn tag_of(self) -> u64 {
        match self {
            EfiMemoryType::RESERVED => 0,
            EfiMemoryType::LOADER_CODE => 1,
            EfiMemoryType::LOADER_DATA => 2,
            EfiMemoryType::BOOT_SERVICES_CODE => 3,
            EfiMemoryType::BOOT_SERVICES_DATA => 4,
            EfiMemoryType::RUNTIME_SERVICES_CODE => 5,
            EfiMemoryType::RUNTIME_SERVICES_DATA => 6,
            EfiMemoryType::CONVENTIONAL_MEMORY => 7,
            EfiMemoryType::UNUSABLE_MEMORY => 8,
            EfiMemoryType::ACPI_RECLAIM_MEMORY => 9,
            EfiMemoryType::ACPI_MEMORY_NVS => 10,
            EfiMemoryType::MEMORY_MAPPED_IO => 11,
            EfiMemoryType::MEMORY_MAPPED_IO_PORT_SPACE => 12,
            EfiMemoryType::PAL_CODE => 13,
            EfiMemoryType::PERSISTENT_MEMORY => 14,
        }
    }

    /// The kind that a number names, if it names one.
    pub open spec fn of_tag(tag: int) -> Option<EfiMemoryType> {
        if tag == 0 {
            Some(EfiMemoryType::RESERVED)
        } else if tag == 1 {
            Some(EfiMemoryType::LOADER_CODE)
        } else if tag == 2 {
            Some(EfiMemoryType::LOADER_DATA)
        } else if tag == 3 {
            Some(EfiMemoryType::BOOT_SERVICES_CODE)
        } else if tag == 4 {
            Some(EfiMemoryType::BOOT_SERVICES_DATA)
        } else if tag == 5 {
            Some(EfiMemoryType::RUNTIME_SERVICES_CODE)
        } else if tag == 6 {
            Some(EfiMemoryType::RUNTIME_SERVICES_DATA)
        } else if tag == 7 {
            Some(EfiMemoryType::CONVENTIONAL_MEMORY)
        } else if tag == 8 {
            Some(EfiMemoryType::UNUSABLE_MEMORY)
        } else if tag == 9 {
            Some(EfiMemoryType::ACPI_RECLAIM_MEMORY)
        } else if tag == 10 {
            Some(EfiMemoryType::ACPI_MEMORY_NVS)
        } else if tag == 11 {
            Some(EfiMemoryType::MEMORY_MAPPED_IO)
        } else if tag == 12 {
            Some(EfiMemoryType::MEMORY_MAPPED_IO_PORT_SPACE)
        } else if tag == 13 {
            Some(EfiMemoryType::PAL_CODE)
        } else if tag == 14 {
            Some(EfiMemoryType::PERSISTENT_MEMORY)
        } else {
            None
        }
    }

    /// The number by which the firmware names this kind.
    pub fn tag(&self) -> (tag: u64)
        ensures
            tag == self.tag_of(),
            tag < MEMORY_TYPE_COUNT,
    {
        match self {
            EfiMemoryType::RESERVED => 0,
            EfiMemoryType::LOADER_CODE => 1,
            EfiMemoryType::LOADER_DATA => 2,
            EfiMemoryType::BOOT_SERVICES_CODE => 3,
            EfiMemoryType::BOOT_SERVICES_DATA => 4,
            EfiMemoryType::RUNTIME_SERVICES_CODE => 5,
            EfiMemoryType::RUNTIME_SERVICES_DATA => 6,
            EfiMemoryType::CONVENTIONAL_MEMORY => 7,
            EfiMemoryType::UNUSABLE_MEMORY => 8,
            EfiMemoryType::ACPI_RECLAIM_MEMORY => 9,
            EfiMemoryType::ACPI_MEMORY_NVS => 10,
            EfiMemoryType::MEMORY_MAPPED_IO => 11,
            EfiMemoryType::MEMORY_MAPPED_IO_PORT_SPACE => 12,
            EfiMemoryType::PAL_CODE => 13,
            EfiMemoryType::PERSISTENT_MEMORY => 14,
        }
    }

    /// Reads a kind from its number. A number that names no kind gives
    /// `None`: it is never taken for another kind.
    pub fn from_tag(tag: u64) -> (kind: Option<EfiMemoryType>)
        ensures
            kind == EfiMemoryType::of_tag(tag as int),
            kind.is_some() <==> tag < MEMORY_TYPE_COUNT,
            kind matches Some(k) ==> k.tag_of() == tag,
    {
        match tag {
            0 => Some(EfiMemoryType::RESERVED),
            1 => Some(EfiMemoryType::LOADER_CODE),
            2 => Some(EfiMemoryType::LOADER_DATA),
            3 => Some(EfiMemoryType::BOOT_SERVICES_CODE),
            4 => Some(EfiMemoryType::BOOT_SERVICES_DATA),
            5 => Some(EfiMemoryType::RUNTIME_SERVICES_CODE),
            6 => Some(EfiMemoryType::RUNTIME_SERVICES_DATA),
            7 => Some(EfiMemoryType::CONVENTIONAL_MEMORY),
            8 => Some(EfiMemoryType::UNUSABLE_MEMORY),
            9 => Some(EfiMemoryType::ACPI_RECLAIM_MEMORY),
            10 => Some(EfiMemoryType::ACPI_MEMORY_NVS),
            11 => Some(EfiMemoryType::MEMORY_MAPPED_IO),
            12 => Some(EfiMemoryType::MEMORY_MAPPED_IO_PORT_SPACE),
            13 => Some(EfiMemoryType::PAL_CODE),
            14 => Some(EfiMemoryType::PERSISTENT_MEMORY),
            _ => None,
        }
    }
}

/// Reading the number of a kind gives that kind back.
pub proof fn lemma_tag_round_trip(kind: EfiMemoryType)
    ensures
        EfiMemoryType::of_tag(kind.tag_of() as int) == Some(kind),
{
}

/// The bytes that one descriptor record takes in the memory map. The
/// firmware may space the records further apart than this.
pub const MEMORY_DESCRIPTOR_SIZE: usize = 40;

/// One record of the memory map: a run of pages of one kind.
#[derive(Clone, Copy, PartialEq, Eq, Debug, Structural)]
pub struct EfiMemoryDescriptor {
    pub memory_type: EfiMemoryType,
    pub physical_start: u64,
    pub virtual_start: u64,
    pub number_of_pages: u64,
    pub attribute: u64,
}

impl EfiMemoryDescriptor {
    /// The descriptor that a record holds: five eight-byte fields, the
    /// first of them the kind's number. `None` where the record is shorter
    /// than a descriptor or its first field names no kind.
    pub open spec fn decoded(record: Seq<u8>) -> Option<EfiMemoryDescriptor> {
        if record.len() < MEMORY_DESCRIPTOR_SIZE {
            None
        } else {
            match EfiMemoryType::of_tag(le_u64(slot_at(record, 0))) {
                Some(memory_type) => Some(
                    EfiMemoryDescriptor {
                        memory_type,
                        physical_start: le_u64(slot_at(record, 8)) as u64,
                        virtual_start: le_u64(slot_at(record, 16)) as u64,
                        number_of_pages: le_u64(slot_at(record, 24)) as u64,
                        attribute: le_u64(slot_at(record, 32)) as u64,
                    },
                ),
                None => None,
            }
        }
    }

    /// Decodes the descriptor at the start of `record`.
    pub fn decode(record: &[u8]) -> (descriptor: Option<EfiMemoryDescriptor>)
        ensures
            descriptor == EfiMemoryDescriptor::decoded(record@),
    {
        if record.len() < MEMORY_DESCRIPTOR_SIZE {
            return None;
        }
        let tag: u64 = match read_u64_le(record, 0) {
            Some(v) => v,
            None => {
                return None;
            },
        };
        let memory_type: EfiMemoryType = match EfiMemoryType::from_tag(tag) {
            Some(t) => t,
            None => {
                return None;
            },
        };
        match (
            read_u64_le(record, 8),
            read_u64_le(record, 16),
            read_u64_le(record, 24),
            read_u64_le(record, 32),
        ) {
            (Some(physical_start), Some(virtual_start), Some(number_of_pages), Some(attribute)) => {
                Some(
                    EfiMemoryDescriptor {
                        memory_type,
                        physical_start,
                        virtual_start,
                        number_of_pages,
                        attribute,
                    },
                )
            },
            _ => None,
        }
    }

    /// The kind of the region.
    pub fn memory_type(&self) -> (kind: EfiMemoryType)
        ensures
            kind == self.memory_type,
    {
        self.memory_type
    }

    /// The number of pages of the region.
    pub fn number_of_pages(&self) -> (pages: u64)
        ensures
            pages == self.number_of_pages,
    {
        self.number_of_pages
    }
}

/// The bytes that a memory-map snapshot can hold.
pub const MEMORY_MAP_BUFFER_SIZE: usize = 0x8000;

/// What the firmware reported for one get-memory-map call, beside the
/// bytes that it wrote.
#[derive(Debug, Clone, Copy, PartialEq, Eq, Structural)]
pub struct MemoryMapReply {
    /// The raw status code of the call.
    pub status: u64,
    /// The size of the map in bytes: what was written on success, what
    /// would be needed where the buffer was too small.
    pub memory_map_size: usize,
    /// The key that pairs this map with the firmware's state.
    pub map_key: usize,
    /// The distance in bytes from one descriptor to the next.
    pub descriptor_size: usize,
    /// The version of the descriptor format.
    pub descriptor_version: u32,
}

impl MemoryMapReply {
    /// Whether the reply holds a map that the snapshot can take: the call
    /// succeeded and the map fits the buffer.
    pub open spec fn accepted(self) -> bool {
        self.status == EFI_SUCCESS_CODE && self.memory_map_size <= MEMORY_MAP_BUFFER_SIZE
    }
}

/// What a snapshot holds: the captured bytes and what the firmware
/// reported with them. The used size is the length of `bytes`.
pub struct MemoryMapView {
    pub bytes: Seq<u8>,
    pub map_key: usize,
    pub descriptor_size: usize,
    pub descriptor_version: u32,
}

impl MemoryMapView {
    /// The snapshot that holds nothing.
    pub open spec fn empty() -> MemoryMapView {
        MemoryMapView { bytes: Seq::empty(), map_key: 0, descriptor_size: 0, descriptor_version: 0 }
    }

    /// The snapshot that a reply leaves: the first `memory_map_size` of the
    /// written bytes with the reported values where the reply is accepted,
    /// and nothing otherwise.
    pub open spec fn of_reply(written: Seq<u8>, reply: MemoryMapReply) -> MemoryMapView {
        if reply.accepted() {
            MemoryMapView {
                bytes: written.subrange(0, reply.memory_map_size as int),
                map_key: reply.map_key,
                descriptor_size: reply.descriptor_size,
                descriptor_version: reply.descriptor_version,
            }
        } else {
            MemoryMapView::empty()
        }
    }

    /// The number of descriptor slots: as many whole strides as the used
    /// bytes hold, and none where the stride is zero.
    pub open spec fn entry_count(self) -> nat {
        if self.descriptor_size == 0 {
            0
        } else {
            self.bytes.len() / (self.descriptor_size as nat)
        }
    }

    /// The bytes of slot `i`: one stride, starting at `i` strides.
    pub open spec fn slot(self, i: int) -> Seq<u8> {
        self.bytes.subrange(i * self.descriptor_size, (i + 1) * self.descriptor_size)
    }

    /// What slot `i` decodes to.
    pub open spec fn entry(self, i: int) -> Option<EfiMemoryDescriptor> {
        EfiMemoryDescriptor::decoded(self.slot(i))
    }

    /// What the slots decode to, in the order in which the firmware wrote
    /// them.
    pub open spec fn entries(self) -> Seq<Option<EfiMemoryDescriptor>> {
        Seq::new(self.entry_count(), |i: int| self.entry(i))
    }
}

/// A snapshot of the firmware's memory map in a buffer of fixed capacity.
pub struct MemoryMapHolder {
    memory_map_buffer: [u8; MEMORY_MAP_BUFFER_SIZE],
    memory_map_size: usize,
    map_key: usize,
    descriptor_size: usize,
    descriptor_version: u32,
}

impl View for MemoryMapHolder {
    type V = MemoryMapView;

    closed spec fn view(&self) -> MemoryMapView {
        MemoryMapView {
            bytes: self.memory_map_buffer@.subrange(0, self.memory_map_size as int),
            map_key: self.map_key,
            descriptor_size: self.descriptor_size,
            descriptor_version: self.descriptor_version,
        }
    }
}

impl MemoryMapHolder {
    #[verifier::type_invariant]
    spec fn fits_buffer(&self) -> bool {
        self.memory_map_size <= MEMORY_MAP_BUFFER_SIZE
    }

    /// An empty snapshot.
    pub fn new() -> (map: MemoryMapHolder)
        ensures
            map@ == MemoryMapView::empty(),
    {
        let map = MemoryMapHolder {
            memory_map_buffer: [0u8; MEMORY_MAP_BUFFER_SIZE],
            memory_map_size: 0,
            map_key: 0,
            descriptor_size: 0,
            descriptor_version: 0,
        };
        assert(map@.bytes =~= Seq::<u8>::empty());
        map
    }

    /// The number of captured bytes.
    pub fn memory_map_size(&self) -> (size: usize)
        ensures
            size == self@.bytes.len(),
            size <= MEMORY_MAP_BUFFER_SIZE,
    {
        proof {
            use_type_invariant(self);
        }
        self.memory_map_size
    }

    /// The key that pairs the snapshot with the firmware's state.
    pub fn map_key(&self) -> (key: usize)
        ensures
            key == self@.map_key,
    {
        self.map_key
    }

    /// The distance in bytes from one descriptor to the next.
    pub fn descriptor_size(&self) -> (size: usize)
        ensures
            size == self@.descriptor_size,
    {
        self.descriptor_size
    }

    /// The version of the descriptor format.
    pub fn descriptor_version(&self) -> (version: u32)
        ensures
            version == self@.descriptor_version,
    {
        self.descriptor_version
    }
}

impl Default for MemoryMapHolder {
    /// An empty snapshot.
    fn default() -> (map: Self)
        ensures
            map@ == MemoryMapView::empty(),
    {
        Self::new()
    }
}

impl EfiBootServicesTable {
    /// Takes the firmware's reply to one get-memory-map call into `map`.
    /// `written` is the buffer that was handed to the firmware. Where
    /// the reply is accepted, `map` holds the new snapshot in place of
    /// whatever it held; otherwise `map` is left empty.
    pub fn get_memory_map(
        &self,
        map: &mut MemoryMapHolder,
        written: &[u8; MEMORY_MAP_BUFFER_SIZE],
        reply: &MemoryMapReply,
    ) -> (status: EfiStatus)
        ensures
            final(map)@ == MemoryMapView::of_reply(written@, *reply),
            status == EfiStatus::Success <==> reply.accepted(),
    {
        if reply.status == EFI_SUCCESS_CODE && reply.memory_map_size <= MEMORY_MAP_BUFFER_SIZE {
            *map = MemoryMapHolder {
                memory_map_buffer: *written,
                memory_map_size: reply.memory_map_size,
                map_key: reply.map_key,
                descriptor_size: reply.descriptor_size,
                descriptor_version: reply.descriptor_version,
            };
            EfiStatus::Success
        } else {
            *map = MemoryMapHolder::new();
            EfiStatus::Failure
        }
    }
}

impl MemoryMapHolder {
    /// Captures the memory map from the firmware's reply to one
    /// get-memory-map call. Fails with `MapBufferTooSmall` exactly when the
    /// reported size exceeds the buffer, and with `FirmwareCallFailed`
    /// exactly when the size fits and the status is not success. After a
    /// failure the snapshot is empty.
    pub fn capture(
        &mut self,
        boot_services: &EfiBootServicesTable,
        written: &[u8; MEMORY_MAP_BUFFER_SIZE],
        reply: &MemoryMapReply,
    ) -> (captured: Result<(), UefiError>)
        ensures
            final(self)@ == MemoryMapView::of_reply(written@, *reply),
            captured.is_ok() <==> reply.accepted(),
            captured == Err::<(), UefiError>(UefiError::MapBufferTooSmall)
                <==> reply.memory_map_size > MEMORY_MAP_BUFFER_SIZE,
            captured == Err::<(), UefiError>(UefiError::FirmwareCallFailed)
                <==> reply.memory_map_size <= MEMORY_MAP_BUFFER_SIZE && reply.status
                != EFI_SUCCESS_CODE,
            captured.is_err() ==> final(self)@.entries().len() == 0,
    {
        let status: EfiStatus = boot_services.get_memory_map(self, written, reply);
        if status.is_success() {
            Ok(())
        } else if reply.memory_map_size > MEMORY_MAP_BUFFER_SIZE {
            Err(UefiError::MapBufferTooSmall)
        } else {
            Err(UefiError::FirmwareCallFailed)
        }
    }

    /// An iterator over the descriptor slots, from the first one.
    pub fn iter(&self) -> (iterator: MemoryMapIterator<'_>)
        ensures
            iterator.source() == self@,
            iterator.offset() == 0,
            iterator.remaining() == self@.entries(),
    {
        proof {
            use_type_invariant(self);
        }
        let iterator = MemoryMapIterator { map: self, ofs: 0, index: Ghost(0) };
        assert(slots_before(0, self.descriptor_size as int) == 0);
        assert(iterator.remaining() =~= self@.entries());
        iterator
    }

    /// What all the descriptor slots decode to, in order.
    pub fn descriptors(&self) -> (items: Vec<Option<EfiMemoryDescriptor>>)
        ensures
            items@ == self@.entries(),
    {
        let mut items: Vec<Option<EfiMemoryDescriptor>> = Vec::new();
        let mut iterator: MemoryMapIterator<'_> = self.iter();
        loop
            invariant
                iterator.source() == self@,
                items@ + iterator.remaining() == self@.entries(),
            ensures
                items@ == self@.entries(),
            decreases iterator.remaining().len(),
        {
            let ghost before = iterator.remaining();
            match iterator.next() {
                Some(item) => {
                    items.push(item);
                    assert(items@ + iterator.remaining() =~= self@.entries()) by {
                        assert(before =~= seq![before[0]] + before.drop_first());
                    }
                },
                None => {
                    assert(items@ =~= items@ + before);
                    break ;
                },
            }
        }
        items
    }
}

/// A walk over the descriptor slots of a snapshot.
pub struct MemoryMapIterator<'a> {
    map: &'a MemoryMapHolder,
    ofs: usize,
    index: Ghost<nat>,
}

impl<'a> MemoryMapIterator<'a> {
    #[verifier::type_invariant]
    spec fn on_a_slot(&self) -> bool {
        &&& self.map.memory_map_size <= MEMORY_MAP_BUFFER_SIZE
        &&& self.index@ <= self.map@.entry_count()
        &&& self.ofs == self.index@ * self.map.descriptor_size
    }

    /// The snapshot that is walked.
    pub closed spec fn source(&self) -> MemoryMapView {
        self.map@
    }

    /// The byte offset of the next slot.
    pub closed spec fn offset(&self) -> int {
        self.ofs as int
    }

    /// What is still to come, in order.
    pub closed spec fn remaining(&self) -> Seq<Option<EfiMemoryDescriptor>> {
        self.map@.entries().skip(slots_before(self.ofs as int, self.map.descriptor_size as int))
    }

    /// Decodes the slot at the current offset and moves on by one stride,
    /// or gives `None` where no whole slot is left within the used bytes.
    /// The inner `None` stands for a slot that holds no descriptor.
    pub fn next(&mut self) -> (item: Option<Option<EfiMemoryDescriptor>>)
        ensures
            final(self).source() == old(self).source(),
            final(self).offset() <= old(self).source().bytes.len(),
            old(self).remaining().len() == 0 ==> {
                &&& item.is_none()
                &&& final(self).remaining() == old(self).remaining()
                &&& final(self).offset() == old(self).offset()
            },
            old(self).remaining().len() > 0 ==> {
                &&& item == Some(old(self).remaining()[0])
                &&& final(self).remaining() == old(self).remaining().drop_first()
                &&& final(self).offset() == old(self).offset() + old(self).source().descriptor_size
            },
    {
        proof {
            use_type_invariant(&*self);
        }
        let stride: usize = self.map.descriptor_size;
        let used: usize = self.map.memory_map_size;
        let ghost i: int = self.index@ as int;
        if stride == 0 {
            assert(self.remaining().len() == 0);
            return None;
        }
        proof {
            lemma_slot_bounds(used as int, stride as int, i);
        }
        if used - self.ofs < stride {
            return None;
        }
        let buffer: &[u8] = array_as_slice(&self.map.memory_map_buffer);
        let record: &[u8] = slice_subrange(buffer, self.ofs, self.ofs + stride);
        assert(record@ =~= self.map@.slot(i));
        let item: Option<EfiMemoryDescriptor> = EfiMemoryDescriptor::decode(record);
        proof {
            lemma_slot_bounds(used as int, stride as int, i + 1);
            assert(self.map@.entries().skip(i + 1) =~= self.map@.entries().skip(i).drop_first());
        }
        *self = MemoryMapIterator {
            map: self.map,
            ofs: self.ofs + stride,
            index: Ghost((i + 1) as nat),
        };
        Some(item)
    }
}

/// The number of whole slots that lie before a byte offset.
pub open spec fn slots_before(offset: int, stride: int) -> int {
    if stride <= 0 {
        0
    } else {
        offset / stride
    }
}

/// With a stride above zero, slot `i` ends within the used bytes exactly
/// when `i` is below the number of whole strides that they hold.
pub proof fn lemma_slot_bounds(used: int, stride: int, i: int)
    requires
        0 <= used,
        0 < stride,
        0 <= i,
    ensures
        (i + 1) * stride <= used <==> i < used / stride,
        i <= used / stride ==> i * stride <= used,
        (i + 1) * stride == i * stride + stride,
        slots_before(i * stride, stride) == i,
{
    assert((i * stride) / stride == i) by (nonlinear_arith)
        requires
            0 < stride,
            0 <= i,
    ;
    assert((i + 1) * stride == i * stride + stride) by (nonlinear_arith);
    assert((i + 1) * stride <= used <==> i < used / stride) by (nonlinear_arith)
        requires
            0 <= used,
            0 < stride,
            0 <= i,
    ;
    assert(i <= used / stride ==> i * stride <= used) by (nonlinear_arith)
        requires
            0 <= used,
            0 < stride,
            0 <= i,
    ;
}

/// A snapshot whose stride is above zero has one slot for each whole
/// stride in its used bytes, each slot is one stride long, and each ends
/// within the used bytes: nothing at or past the used size is decoded.
pub proof fn lemma_entries_within_used(map: MemoryMapView)
    requires
        map.descriptor_size > 0,
    ensures
        map.entries().len() == map.bytes.len() / (map.descriptor_size as nat),
        forall|i: int|
            0 <= i < map.entries().len() ==> {
                &&& 0 <= i * map.descriptor_size
                &&& (#[trigger] map.slot(i)).len() == map.descriptor_size
                &&& (i + 1) * map.descriptor_size <= map.bytes.len()
            },
{
    assert forall|i: int| 0 <= i < map.entries().len() implies {
        &&& 0 <= i * map.descriptor_size
        &&& (#[trigger] map.slot(i)).len() == map.descriptor_size
        &&& (i + 1) * map.descriptor_size <= map.bytes.len()
    } by {
        lemma_slot_bounds(map.bytes.len() as int, map.descriptor_size as int, i);
        lemma_slot_bounds(map.bytes.len() as int, map.descriptor_size as int, i + 1);
        assert(0 <= i * map.descriptor_size) by (nonlinear_arith)
            requires
                0 <= i,
                0 <= map.descriptor_size,
        ;
    }
}

/// What a snapshot exposes does not depend on the bytes that lie at or past
/// the reported size: two buffers that agree below it give the same
/// descriptors for the same reply.
pub proof fn lemma_entries_ignore_unused_bytes(
    first: Seq<u8>,
    second: Seq<u8>,
    reply: MemoryMapReply,
)
    requires
        first.len() == second.len(),
        reply.memory_map_size <= first.len(),
        forall|k: int| 0 <= k < reply.memory_map_size ==> first[k] == second[k],
    ensures
        MemoryMapView::of_reply(first, reply).entries() == MemoryMapView::of_reply(
            second,
            reply,
        ).entries(),
{
    assert(first.subrange(0, reply.memory_map_size as int) =~= second.subrange(
        0,
        reply.memory_map_size as int,
    ));
}

/// A reply that is not accepted exposes no descriptor.
pub proof fn lemma_rejected_reply_exposes_nothing(written: Seq<u8>, reply: MemoryMapReply)
    requires
        !reply.accepted(),
    ensures
        MemoryMapView::of_reply(written, reply) == MemoryMapView::empty(),
        MemoryMapView::of_reply(written, reply).entries().len() == 0,
{
}

/// Two walks over the same snapshot that stand at the same offset have the
/// same items to come, in the same order. In particular every walk from the
/// start yields the same sequence.
pub proof fn lemma_iteration_repeats(first: MemoryMapIterator<'_>, second: MemoryMapIterator<'_>)
    requires
        first.source() == second.source(),
        first.offset() == second.offset(),
    ensures
        first.remaining() == second.remaining(),
{
}

} // verus!
