//! The exit from boot services as a state machine.
//!
//! The firmware accepts the exit only with the key of a memory map that is
//! still current. The sequencer captures a map, asks for the exit with that
//! map's key, and starts over with a fresh capture whenever the firmware
//! refuses. The calls themselves are made by the embedding program: it
//! performs the action that a step names and hands the firmware's answer to
//! the next step. Nothing here bounds the number of rounds.

use vstd::prelude::*;
use crate::layout::EfiSytemTable;
use crate::memory_map::{MemoryMapHolder, MemoryMapReply, MemoryMapView, MEMORY_MAP_BUFFER_SIZE};
use crate::status::{EfiHandle, EfiStatus, UefiError, EFI_SUCCESS_CODE};

verus! {

/// Where the exit sequence stands.
#[derive(Debug, Clone, Copy, PartialEq, Eq, Structural)]
pub enum ExitState {
    /// A memory map is being captured.
    Preparing,
    /// The exit has been asked for with the key of the captured map.
    AwaitingExit,
    /// Boot services have ended. No boot service may be called any more.
    Exited,
}

/// What the firmware answered to the call that the last step named.
#[derive(Debug, Clone, Copy, PartialEq, Eq, Structural)]
pub enum ExitEvent {
    /// The get-memory-map call returned, with this reply.
    MemoryMapReturned(MemoryMapReply),
    /// The exit-boot-services call returned, with this raw status.
    ExitReturned(u64),
}

/// What the embedding program has to do next.
#[derive(Debug, Clone, Copy, PartialEq, Eq, Structural)]
pub enum ExitAction {
    /// Call get-memory-map at `entry` with a buffer of `buffer_size` bytes.
    GetMemoryMap { entry: u64, buffer_size: usize },
    /// Call exit-boot-services at `entry` with the image handle and the
    /// key of the captured map.
    ExitBootServices { entry: u64, image_handle: EfiHandle, map_key: usize },
    /// Nothing: boot services have ended.
    Done,
    /// Give up for good: no memory map could be captured.
    Abort { error: UefiError },
}

/// The outcome of one step: the next state, the action to perform and
/// what the snapshot holds.
pub struct ExitStep {
    pub state: ExitState,
    pub action: ExitAction,
    pub map: MemoryMapView,
}

/// The call that a state waits for.
pub open spec fn awaited_action(
    image_handle: EfiHandle,
    table: EfiSytemTable,
    map: MemoryMapView,
    state: ExitState,
) -> ExitAction {
    match state {
        ExitState::Preparing => ExitAction::GetMemoryMap {
            entry: table.boot_services.get_memory_map,
            buffer_size: MEMORY_MAP_BUFFER_SIZE,
        },
        ExitState::AwaitingExit => ExitAction::ExitBootServices {
            entry: table.boot_services.exit_boot_services,
            image_handle,
            map_key: map.map_key,
        },
        ExitState::Exited => ExitAction::Done,
    }
}

/// Why a reply that is not accepted fails the capture.
pub open spec fn capture_error(reply: MemoryMapReply) -> UefiError {
    if reply.memory_map_size > MEMORY_MAP_BUFFER_SIZE {
        UefiError::MapBufferTooSmall
    } else {
        UefiError::FirmwareCallFailed
    }
}

/// One step of the exit sequence.
///
/// While preparing, an accepted memory map becomes the snapshot and the
/// exit is asked for with its key; any other reply to the capture empties
/// the snapshot and aborts. While the exit is awaited, success ends the
/// sequence and every other status starts a fresh capture. An answer that
/// the state does not wait for changes nothing, and the awaited call is
/// named again. Once exited, every step answers `Done`.
pub open spec fn exit_transition(
    image_handle: EfiHandle,
    table: EfiSytemTable,
    map: MemoryMapView,
    state: ExitState,
    written: Seq<u8>,
    event: ExitEvent,
) -> ExitStep {
    match (state, event) {
        (ExitState::Preparing, ExitEvent::MemoryMapReturned(reply)) => {
            let captured = MemoryMapView::of_reply(written, reply);
            if reply.accepted() {
                ExitStep {
                    state: ExitState::AwaitingExit,
                    action: awaited_action(image_handle, table, captured, ExitState::AwaitingExit),
                    map: captured,
                }
            } else {
                ExitStep {
                    state: ExitState::Preparing,
                    action: ExitAction::Abort { error: capture_error(reply) },
                    map: captured,
                }
            }
        },
        (ExitState::AwaitingExit, ExitEvent::ExitReturned(status)) => {
            let next = if status == EFI_SUCCESS_CODE {
                ExitState::Exited
            } else {
                ExitState::Preparing
            };
            ExitStep { state: next, action: awaited_action(image_handle, table, map, next), map }
        },
        _ => ExitStep { state, action: awaited_action(image_handle, table, map, state), map },
    }
}

impl ExitState {
    /// The call that this state waits for. The sequence begins in
    /// `Preparing`, so its first action is the one awaited there.
    pub fn awaited(
        &self,
        image_handle: EfiHandle,
        efi_system_table: &EfiSytemTable,
        memory_map: &MemoryMapHolder,
    ) -> (action: ExitAction)
        ensures
            action == awaited_action(image_handle, *efi_system_table, memory_map@, *self),
    {
        match self {
            ExitState::Preparing => ExitAction::GetMemoryMap {
                entry: efi_system_table.boot_services().get_memory_map,
                buffer_size: MEMORY_MAP_BUFFER_SIZE,
            },
            ExitState::AwaitingExit => ExitAction::ExitBootServices {
                entry: efi_system_table.boot_services().exit_boot_services,
                image_handle,
                map_key: memory_map.map_key(),
            },
            ExitState::Exited => ExitAction::Done,
        }
    }
}

/// Advances the exit sequence by one answer of the firmware.
///
/// `written` is the buffer that was handed to the get-memory-map call; it
/// is read only for an accepted memory-map reply. The snapshot is
/// overwritten in place by each capture.
pub fn exit_from_efi_boot_services(
    image_handle: EfiHandle,
    efi_system_table: &EfiSytemTable,
    memory_map: &mut MemoryMapHolder,
    state: ExitState,
    written: &[u8; MEMORY_MAP_BUFFER_SIZE],
    event: ExitEvent,
) -> (next: (ExitState, ExitAction))
    ensures
        (ExitStep { state: next.0, action: next.1, map: final(memory_map)@ }) == exit_transition(
            image_handle,
            *efi_system_table,
            old(memory_map)@,
            state,
            written@,
            event,
        ),
{
    match (state, event) {
        (ExitState::Preparing, ExitEvent::MemoryMapReturned(reply)) => {
            match memory_map.capture(efi_system_table.boot_services(), written, &reply) {
                Ok(()) => {
                    let next: ExitState = ExitState::AwaitingExit;
                    (next, next.awaited(image_handle, efi_system_table, memory_map))
                },
                Err(error) => (ExitState::Preparing, ExitAction::Abort { error }),
            }
        },
        (ExitState::AwaitingExit, ExitEvent::ExitReturned(status)) => {
            let next: ExitState = if EfiStatus::from_code(status).is_success() {
                ExitState::Exited
            } else {
                ExitState::Preparing
            };
            (next, next.awaited(image_handle, efi_system_table, memory_map))
        },
        _ => (state, state.awaited(image_handle, efi_system_table, memory_map)),
    }
}

/// The sequence run against a firmware that answers every capture with
/// `reply` and refuses the exit `refusals` times, each time with the status
/// `refused_with`, before it accepts. Gives the state in which the run
/// ends and the number of captures that it made.
pub open spec fn run_against(
    image_handle: EfiHandle,
    table: EfiSytemTable,
    map: MemoryMapView,
    state: ExitState,
    written: Seq<u8>,
    reply: MemoryMapReply,
    refused_with: u64,
    refusals: nat,
) -> (ExitState, nat)
    decreases refusals, (if state == ExitState::Preparing { 1nat } else { 0nat }),
{
    match state {
        ExitState::Exited => (ExitState::Exited, 0),
        ExitState::Preparing => {
            let step = exit_transition(
                image_handle,
                table,
                map,
                state,
                written,
                ExitEvent::MemoryMapReturned(reply),
            );
            if step.state == ExitState::AwaitingExit {
                let rest = run_against(
                    image_handle,
                    table,
                    step.map,
                    step.state,
                    written,
                    reply,
                    refused_with,
                    refusals,
                );
                (rest.0, rest.1 + 1)
            } else {
                (step.state, 1)
            }
        },
        ExitState::AwaitingExit => {
            let status = if refusals == 0 {
                EFI_SUCCESS_CODE
            } else {
                refused_with
            };
            let step = exit_transition(
                image_handle,
                table,
                map,
                state,
                written,
                ExitEvent::ExitReturned(status),
            );
            if refusals == 0 {
                (step.state, 0)
            } else {
                run_against(
                    image_handle,
                    table,
                    step.map,
                    step.state,
                    written,
                    reply,
                    refused_with,
                    (refusals - 1) as nat,
                )
            }
        },
    }
}

/// Against a firmware whose captures are accepted and whose exit is
/// refused `refusals` times before it succeeds, the sequence reaches
/// `Exited` after exactly one capture more than there were refusals.
pub proof fn lemma_exit_after_refusals(
    image_handle: EfiHandle,
    table: EfiSytemTable,
    map: MemoryMapView,
    written: Seq<u8>,
    reply: MemoryMapReply,
    refused_with: u64,
    refusals: nat,
)
    requires
        reply.accepted(),
        refused_with != EFI_SUCCESS_CODE,
    ensures
        run_against(
            image_handle,
            table,
            map,
            ExitState::Preparing,
            written,
            reply,
            refused_with,
            refusals,
        ) == (ExitState::Exited, refusals + 1),
    decreases refusals,
{
    let captured = MemoryMapView::of_reply(written, reply);
    if refusals > 0 {
        lemma_exit_after_refusals(
            image_handle,
            table,
            captured,
            written,
            reply,
            refused_with,
            (refusals - 1) as nat,
        );
    }
    assert(run_against(
        image_handle,
        table,
        captured,
        ExitState::AwaitingExit,
        written,
        reply,
        refused_with,
        refusals,
    ) == (ExitState::Exited, refusals));
}

/// A capture that the snapshot cannot take ends the run at once, still
/// preparing, with the abort that names the reason and with nothing
/// exposed.
pub proof fn lemma_failed_capture_aborts(
    image_handle: EfiHandle,
    table: EfiSytemTable,
    map: MemoryMapView,
    written: Seq<u8>,
    reply: MemoryMapReply,
)
    requires
        !reply.accepted(),
    ensures
        exit_transition(
            image_handle,
            table,
            map,
            ExitState::Preparing,
            written,
            ExitEvent::MemoryMapReturned(reply),
        ) == (ExitStep {
            state: ExitState::Preparing,
            action: ExitAction::Abort { error: capture_error(reply) },
            map: MemoryMapView::empty(),
        }),
{
}

/// `Exited` is terminal: whatever answer arrives, the state stays, the
/// snapshot stays, and no call is named.
pub proof fn lemma_exited_is_terminal(
    image_handle: EfiHandle,
    table: EfiSytemTable,
    map: MemoryMapView,
    written: Seq<u8>,
    event: ExitEvent,
)
    ensures
        exit_transition(image_handle, table, map, ExitState::Exited, written, event) == (ExitStep {
            state: ExitState::Exited,
            action: ExitAction::Done,
            map,
        }),
{
}

} // verus!
