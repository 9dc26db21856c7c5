//! RPU queue, command, event, and interrupt controller.
//!
//! Each operation is a small sequence that hands out [`RpuRequest`]s. The
//! embedding program performs them in order and feeds every outcome back.

use vstd::prelude::*;

use crate::codec;
use crate::control::MAX_STATION_MESSAGE_LEN;
use crate::memory;
use crate::memory::{Processor, Rpu, RpuError, RpuRequest};
use crate::protocol;
use crate::protocol::{
    HostMessageRef, Hpq, HpqmInfo, InterfaceType, ProtocolError, ScanReason, ScanRequest,
    SystemInitConfig, UmacCommand, HOST_MESSAGE_HEADER_LEN, HPQM_INFO_LEN,
    MAX_CONTROL_MESSAGE_LEN,
};

verus! {

/// Firmware-published host-port queue map.
pub const RPU_MEM_HPQ_INFO: u32 = 0xb000_0024;

/// LMAC RX command-slot base pointer.
pub const RPU_MEM_RX_CMD_BASE: u32 = 0xb700_0d58;

/// Fixed UMAC TX command-slot base.
pub const RPU_MEM_TX_CMD_BASE: u32 = 0xb000_00b8;

/// Root interrupt mask register.
pub const RPU_REG_INT_FROM_RPU_CTRL: u32 = 0xa400_0400;

/// Host-to-RPU command trigger register.
pub const RPU_REG_INT_TO_MCU_CTRL: u32 = 0xa400_0480;

/// Host acknowledgement register.
pub const RPU_REG_INT_FROM_MCU_ACK: u32 = 0xa400_0488;

/// UMAC interrupt enable register.
pub const RPU_REG_INT_FROM_MCU_CTRL: u32 = 0xa400_0494;

/// Root interrupt bit used by the RPU.
pub const RPU_INTERRUPT_ROOT_BIT: u32 = 0x0002_0000;

/// MCU interrupt and acknowledgement bit.
pub const RPU_INTERRUPT_MCU_BIT: u32 = 0x8000_0000;

/// First value of the command counter.
pub const RPU_COMMAND_COUNTER_START: u32 = 0xdead;

/// Bits set in every command trigger.
pub const RPU_COMMAND_TRIGGER_BITS: u32 = 0x7fff_0000;

/// Value of a queue register that firmware has not written.
pub const QUEUE_SENTINEL: u32 = 0xaaaa_aaaa;

/// Command-buffer fragment limit.
pub const DEFAULT_CONTROL_FRAGMENT_LEN: usize = 400;

/// Largest event fragment of the host interface.
pub const MAX_EVENT_FRAGMENT_LEN: usize = 1000;

/// Default event-pool fragment limit.
pub const DEFAULT_EVENT_FRAGMENT_LEN: usize = MAX_EVENT_FRAGMENT_LEN;

/// Default command-buffer polls before a timeout.
pub const DEFAULT_COMMAND_WAIT_ATTEMPTS: u16 = 1000;

/// Delay between command-buffer polls.
pub const DEFAULT_COMMAND_WAIT_DELAY_MS: u32 = 1;

/// Storage for a system initialization message.
pub const SYSTEM_INIT_MESSAGE_LEN: usize = 378;

/// Queue-controller failure.
#[derive(Debug)]
pub enum DeviceError<E> {
    /// The bus or RPU memory operation failed before ownership changed.
    Rpu(RpuError<E>),
    /// A packed command or event is invalid.
    Protocol(ProtocolError),
    /// Queue metadata has not been read from firmware.
    NotInitialized,
    /// Firmware returned a malformed queue map or command base.
    InvalidQueueMap,
    /// No command buffer is currently available.
    CommandQueueEmpty,
    /// A multi-fragment command needs the bounded-wait API.
    CommandNeedsWait,
    /// No command buffer became available before the bounded wait ended.
    CommandQueueTimeout,
    /// Command ownership changed and delivery can no longer be proved.
    CommandDeliveryUncertain,
    /// The RPU must be reset and queues must be initialized again.
    RecoveryRequired,
    /// A caller changed the scratch buffer during fragmented-event assembly.
    EventBufferChanged,
    /// The event is larger than caller storage.
    EventTooLarge { declared: usize, capacity: usize },
}

impl<E> vstd::std_specs::convert::FromSpecImpl<RpuError<E>> for DeviceError<E> {
    open spec fn obeys_from_spec() -> bool {
        true
    }

    open spec fn from_spec(value: RpuError<E>) -> Self {
        DeviceError::Rpu(value)
    }
}

impl<E> From<RpuError<E>> for DeviceError<E> {
    fn from(value: RpuError<E>) -> (error: Self) {
        DeviceError::Rpu(value)
    }
}

impl<E> vstd::std_specs::convert::FromSpecImpl<ProtocolError> for DeviceError<E> {
    open spec fn obeys_from_spec() -> bool {
        true
    }

    open spec fn from_spec(value: ProtocolError) -> Self {
        DeviceError::Protocol(value)
    }
}

impl<E> From<ProtocolError> for DeviceError<E> {
    fn from(value: ProtocolError) -> (error: Self) {
        DeviceError::Protocol(value)
    }
}

/// Invalid command or event fragmentation setting.
#[derive(Clone, Copy, Debug, PartialEq, Eq, Structural)]
pub struct FragmentLimitError;

/// A partly assembled event.
#[derive(Clone, Copy, Debug, PartialEq, Eq, Structural)]
pub struct PendingEvent {
    /// Length of the whole event.
    pub declared: usize,
    /// Bytes of the fragments taken so far.
    pub copied: usize,
    /// Whether fragments go back to firmware.
    pub resubmit: bool,
    /// Address of the storage that holds the first fragments.
    pub scratch_address: usize,
    /// Whether the rest is only removed from the queue.
    pub discard: bool,
}

impl PendingEvent {
    /// The same event, to be removed without being copied.
    pub open spec fn discarded(self) -> PendingEvent {
        PendingEvent { discard: true, scratch_address: 0, ..self }
    }

    /// Whether storage is not the one that holds the first fragments, or is
    /// too short for the event.
    pub open spec fn buffer_changed(self, capacity: usize, scratch_address: usize) -> bool {
        !self.discard && (self.scratch_address != scratch_address || capacity < self.declared)
    }
}

/// An event whose header was read.
#[derive(Clone, Copy, Debug, PartialEq, Eq, Structural)]
pub struct NewEvent {
    pub address: u32,
    pub declared: usize,
    pub first_count: usize,
    pub resubmit: bool,
}

/// Whether both addresses of a queue are usable registers.
pub open spec fn queue_usable(queue: Hpq) -> bool {
    &&& queue.enqueue_address != 0
    &&& queue.dequeue_address != 0
    &&& queue.enqueue_address != QUEUE_SENTINEL
    &&& queue.dequeue_address != QUEUE_SENTINEL
    &&& queue.enqueue_address % 4 == 0
    &&& queue.dequeue_address % 4 == 0
}

/// Whether every queue of a map is usable.
pub open spec fn map_usable(queues: HpqmInfo) -> bool {
    forall|i: int| 0 <= i < 7 ==> queue_usable(#[trigger] queues.queues()[i])
}

fn queue_is_valid(queue: Hpq) -> (valid: bool)
    ensures
        valid == queue_usable(queue),
{
    queue.enqueue_address != 0 && queue.dequeue_address != 0 && queue.enqueue_address
        != QUEUE_SENTINEL && queue.dequeue_address != QUEUE_SENTINEL && queue.enqueue_address % 4
        == 0 && queue.dequeue_address % 4 == 0
}

/// Checks every queue of a map.
pub fn queue_map_is_valid(queues: &HpqmInfo) -> (valid: bool)
    ensures
        valid == map_usable(*queues),
{
    let ghost all = queues.queues();
    assert(all[0] == queues.event_busy && all[1] == queues.event_available && all[2]
        == queues.command_busy && all[3] == queues.command_available && all[4]
        == queues.rx_buffer_busy@[0] && all[5] == queues.rx_buffer_busy@[1] && all[6]
        == queues.rx_buffer_busy@[2]);
    queue_is_valid(queues.event_busy) && queue_is_valid(queues.event_available) && queue_is_valid(
        queues.command_busy,
    ) && queue_is_valid(queues.command_available) && queue_is_valid(queues.rx_buffer_busy[0])
        && queue_is_valid(queues.rx_buffer_busy[1]) && queue_is_valid(queues.rx_buffer_busy[2])
}

/// Whether a message is complete: within the length limits and as long as its
/// header declares.
pub open spec fn message_complete(message: Seq<u8>) -> bool {
    &&& HOST_MESSAGE_HEADER_LEN <= message.len() <= MAX_STATION_MESSAGE_LEN
    &&& codec::u32_at(message, 0) == message.len()
}

/// Checks that a message is complete.
pub fn validate_complete_message<E>(message: &[u8]) -> (result: Result<(), DeviceError<E>>)
    ensures
        result == (if message_complete(message@) {
            Ok::<(), DeviceError<E>>(())
        } else {
            Err::<(), DeviceError<E>>(DeviceError::Protocol(ProtocolError::InvalidLength))
        }),
{
    if message.len() < HOST_MESSAGE_HEADER_LEN || message.len() > MAX_STATION_MESSAGE_LEN {
        return Err(DeviceError::Protocol(ProtocolError::InvalidLength));
    }
    if codec::read_u32(message, 0) as usize != message.len() {
        return Err(DeviceError::Protocol(ProtocolError::InvalidLength));
    }
    Ok(())
}

/// State of the firmware-published hardware queues behind one bus.
pub struct Device<B> {
    pub rpu: Rpu<B>,
    pub queues: Option<HpqmInfo>,
    pub rx_command_base: u32,
    pub tx_command_base: u32,
    pub command_counter: u32,
    pub command_fragment_len: usize,
    pub event_fragment_len: usize,
    pub pending_event: Option<PendingEvent>,
    pub recovery_required: bool,
}

/// Whether fragment limits are between one header and the interface limit.
pub open spec fn fragment_limits(command_len: usize, event_len: usize) -> bool {
    &&& HOST_MESSAGE_HEADER_LEN <= command_len <= DEFAULT_CONTROL_FRAGMENT_LEN
    &&& HOST_MESSAGE_HEADER_LEN <= event_len <= MAX_EVENT_FRAGMENT_LEN
}

impl<B> Device<B> {
    /// The fragment limits are legal, the TX command area is absent or at its
    /// fixed place, and a pending event is incomplete.
    pub open spec fn wf(&self) -> bool {
        &&& fragment_limits(self.command_fragment_len, self.event_fragment_len)
        &&& self.tx_command_base == 0 || self.tx_command_base == RPU_MEM_TX_CMD_BASE
        &&& self.pending_event matches Some(pending) ==> pending.copied < pending.declared
    }

    /// Creates a closed device around one bus.
    pub fn new(bus: B) -> (device: Self)
        ensures
            device == (Device {
                rpu: Rpu { bus },
                queues: None,
                rx_command_base: 0,
                tx_command_base: 0,
                command_counter: RPU_COMMAND_COUNTER_START,
                command_fragment_len: DEFAULT_CONTROL_FRAGMENT_LEN,
                event_fragment_len: DEFAULT_EVENT_FRAGMENT_LEN,
                pending_event: None,
                recovery_required: false,
            }),
            device.wf(),
    {
        Device {
            rpu: Rpu::new(bus),
            queues: None,
            rx_command_base: 0,
            tx_command_base: 0,
            command_counter: RPU_COMMAND_COUNTER_START,
            command_fragment_len: DEFAULT_CONTROL_FRAGMENT_LEN,
            event_fragment_len: DEFAULT_EVENT_FRAGMENT_LEN,
            pending_event: None,
            recovery_required: false,
        }
    }

    /// Borrows the RPU memory controller.
    pub fn rpu_mut(&mut self) -> (rpu: &mut Rpu<B>)
        ensures
            *rpu == old(self).rpu,
            *final(self) == (Device { rpu: *final(rpu), ..*old(self) }),
    {
        &mut self.rpu
    }

    /// Releases the low-level bus.
    pub fn into_inner(self) -> (bus: B)
        ensures
            bus == self.rpu.bus,
    {
        self.rpu.into_inner()
    }

    /// Returns the firmware-published queue map after initialization.
    pub fn queues(&self) -> (queues: Option<HpqmInfo>)
        ensures
            queues == self.queues,
    {
        self.queues
    }

    /// Returns the LMAC RX command-slot base.
    pub fn rx_command_base(&self) -> (base: Option<u32>)
        ensures
            base == (if self.rx_command_base == 0 {
                None::<u32>
            } else {
                Some(self.rx_command_base)
            }),
    {
        if self.rx_command_base == 0 {
            None
        } else {
            Some(self.rx_command_base)
        }
    }

    /// Returns the fixed UMAC TX command-slot base after initialization.
    pub fn tx_command_base(&self) -> (base: Option<u32>)
        ensures
            base == (if self.tx_command_base == 0 {
                None::<u32>
            } else {
                Some(self.tx_command_base)
            }),
    {
        if self.tx_command_base == 0 {
            None
        } else {
            Some(self.tx_command_base)
        }
    }

    /// Reports whether the RPU must be reset before more queue operations.
    pub fn recovery_required(&self) -> (required: bool)
        ensures
            required == self.recovery_required,
    {
        self.recovery_required
    }

    /// The device as it is after a confirmed RPU reset.
    pub open spec fn queues_reset(self) -> Device<B> {
        Device {
            queues: None,
            rx_command_base: 0,
            tx_command_base: 0,
            command_counter: RPU_COMMAND_COUNTER_START,
            pending_event: None,
            recovery_required: false,
            ..self
        }
    }

    /// Invalidates all queue metadata after a confirmed RPU reset.
    ///
    /// Call this after hardware reset and before firmware load. Initializing
    /// the queues again makes the device usable.
    pub fn reset_queue_state(&mut self)
        ensures
            *final(self) == old(self).queues_reset(),
            old(self).wf() ==> final(self).wf(),
    {
        self.queues = None;
        self.rx_command_base = 0;
        self.tx_command_base = 0;
        self.command_counter = RPU_COMMAND_COUNTER_START;
        self.pending_event = None;
        self.recovery_required = false;
    }

    /// Sets command and event fragment limits.
    pub fn set_fragment_limits(&mut self, command_len: usize, event_len: usize) -> (result: Result<
        (),
        FragmentLimitError,
    >)
        ensures
            match result {
                Ok(()) => fragment_limits(command_len, event_len) && *final(self) == (Device {
                    command_fragment_len: command_len,
                    event_fragment_len: event_len,
                    ..*old(self)
                }),
                Err(_) => !fragment_limits(command_len, event_len) && *final(self) == *old(self),
            },
    {
        if command_len < HOST_MESSAGE_HEADER_LEN || command_len > DEFAULT_CONTROL_FRAGMENT_LEN
            || event_len < HOST_MESSAGE_HEADER_LEN || event_len > MAX_EVENT_FRAGMENT_LEN {
            return Err(FragmentLimitError);
        }
        self.command_fragment_len = command_len;
        self.event_fragment_len = event_len;
        Ok(())
    }

    /// Marks a partly assembled event for discard.
    ///
    /// The next event reads remove its remaining fragments before they read a
    /// new event.
    pub fn discard_pending_event(&mut self) -> (pending: bool)
        ensures
            pending == old(self).pending_event is Some,
            *final(self) == (Device {
                pending_event: match old(self).pending_event {
                    Some(event) => Some(event.discarded()),
                    None => None,
                },
                ..*old(self)
            }),
    {
        match self.pending_event {
            None => false,
            Some(event) => {
                let mut event = event;
                event.discard = true;
                event.scratch_address = 0;
                self.pending_event = Some(event);
                true
            },
        }
    }

    fn ensure_operational<E>(&self) -> (result: Result<(), DeviceError<E>>)
        ensures
            result == (if self.recovery_required {
                Err::<(), DeviceError<E>>(DeviceError::RecoveryRequired)
            } else {
                Ok::<(), DeviceError<E>>(())
            }),
    {
        if self.recovery_required {
            Err(DeviceError::RecoveryRequired)
        } else {
            Ok(())
        }
    }

    /// The command trigger value that comes next.
    pub open spec fn trigger_value(&self) -> u32 {
        self.command_counter | RPU_COMMAND_TRIGGER_BITS
    }

    /// Asks to trigger the command queue.
    pub fn trigger_command(&self) -> (request: RpuRequest)
        ensures
            request == memory::write_register_request(
                RPU_REG_INT_TO_MCU_CTRL,
                self.trigger_value(),
            ),
    {
        memory::write_register(
            RPU_REG_INT_TO_MCU_CTRL,
            self.command_counter | RPU_COMMAND_TRIGGER_BITS,
        )
    }

    /// Counts one delivered trigger.
    pub fn command_triggered(&mut self)
        ensures
            *final(self) == (Device {
                command_counter: next_counter(old(self).command_counter),
                ..*old(self)
            }),
    {
        self.command_counter = self.command_counter.wrapping_add(1);
    }
}

/// The command counter wraps.
pub open spec fn next_counter(counter: u32) -> u32 {
    if counter == u32::MAX {
        0
    } else {
        (counter + 1) as u32
    }
}

/// The stages of reading the queue map.
#[derive(Clone, Copy)]
pub enum QueueInit {
    /// Read the map.
    ReadMap,
    /// Read the RX command base.
    ReadBase(HpqmInfo),
    /// The device is usable.
    Ready(HpqmInfo),
}

impl QueueInit {
    /// The access that comes next, `None` once the device is usable.
    pub open spec fn next(self) -> Option<RpuRequest> {
        match self {
            QueueInit::ReadMap => Some(
                RpuRequest::Read {
                    processor: Processor::Umac,
                    address: RPU_MEM_HPQ_INFO,
                    len: HPQM_INFO_LEN,
                },
            ),
            QueueInit::ReadBase(_) => Some(memory::read_register_request(RPU_MEM_RX_CMD_BASE)),
            QueueInit::Ready(_) => None,
        }
    }

    /// Returns the next access, `None` once the device is usable.
    pub fn request(&self) -> (request: Option<RpuRequest>)
        ensures
            request == self.next(),
    {
        match self {
            QueueInit::ReadMap => Some(
                RpuRequest::Read {
                    processor: Processor::Umac,
                    address: RPU_MEM_HPQ_INFO,
                    len: HPQM_INFO_LEN,
                },
            ),
            QueueInit::ReadBase(_) => Some(memory::read_register(RPU_MEM_RX_CMD_BASE)),
            QueueInit::Ready(_) => None,
        }
    }
}

impl<B> Device<B> {
    /// The device with freshly published queues.
    pub open spec fn queues_published(self, queues: HpqmInfo, rx_command_base: u32) -> Device<B> {
        Device {
            queues: Some(queues),
            rx_command_base,
            tx_command_base: RPU_MEM_TX_CMD_BASE,
            command_counter: RPU_COMMAND_COUNTER_START,
            pending_event: None,
            recovery_required: false,
            ..self
        }
    }

    /// Starts to read the queue map and the data-command base published after
    /// firmware boot.
    pub fn initialize_queues(&self) -> (stage: QueueInit)
        ensures
            stage is ReadMap,
    {
        QueueInit::ReadMap
    }

    /// Takes the outcome of the access that the stage asked for and returns
    /// the stage behind it. The TX command area is fixed and is not read.
    pub fn resume_initialization<E>(
        &mut self,
        stage: QueueInit,
        reply: Result<&[u8], RpuError<E>>,
    ) -> (result: Result<QueueInit, DeviceError<E>>)
        requires
            stage.next() matches Some(request) && request.answered_by(reply),
        ensures
            old(self).wf() ==> final(self).wf(),
            match reply {
                Err(error) => result == Err::<QueueInit, DeviceError<E>>(DeviceError::Rpu(error))
                    && *final(self) == *old(self),
                Ok(bytes) => match stage {
                    QueueInit::ReadMap => {
                        &&& *final(self) == *old(self)
                        &&& match result {
                            Ok(next) => next matches QueueInit::ReadBase(queues) && map_usable(queues)
                                && queues.queues() == Seq::new(
                                7,
                                |i: int| protocol::hpq_at(bytes@, 8 * i),
                            ),
                            Err(error) => error == DeviceError::<E>::InvalidQueueMap && exists|
                                i: int,
                            |
                                0 <= i < 7 && !queue_usable(
                                    #[trigger] protocol::hpq_at(bytes@, 8 * i),
                                ),
                        }
                    },
                    QueueInit::ReadBase(queues) => {
                        let base = codec::u32_at(bytes@, 0);
                        if base == 0 || base == QUEUE_SENTINEL {
                            &&& *final(self) == *old(self)
                            &&& result == Err::<QueueInit, DeviceError<E>>(
                                DeviceError::InvalidQueueMap,
                            )
                        } else {
                            &&& *final(self) == old(self).queues_published(queues, base)
                            &&& result == Ok::<QueueInit, DeviceError<E>>(QueueInit::Ready(queues))
                        }
                    },
                    QueueInit::Ready(_) => true,
                },
            },
    {
        let bytes: &[u8] = match reply {
            Ok(bytes) => bytes,
            Err(error) => return Err(DeviceError::Rpu(error)),
        };
        match stage {
            QueueInit::ReadMap => {
                let queues = match HpqmInfo::parse(bytes) {
                    Ok(queues) => queues,
                    Err(error) => return Err(DeviceError::Protocol(error)),
                };
                if !queue_map_is_valid(&queues) {
                    proof {
                        let i = choose|i: int|
                            0 <= i < 7 && !queue_usable(#[trigger] queues.queues()[i]);
                        assert(queues.queues()[i] == protocol::hpq_at(bytes@, 8 * i));
                    }
                    return Err(DeviceError::InvalidQueueMap);
                }
                Ok(QueueInit::ReadBase(queues))
            },
            QueueInit::ReadBase(queues) => {
                let base: u32 = codec::read_u32(bytes, 0);
                if base == 0 || base == QUEUE_SENTINEL {
                    return Err(DeviceError::InvalidQueueMap);
                }
                self.queues = Some(queues);
                self.rx_command_base = base;
                self.tx_command_base = RPU_MEM_TX_CMD_BASE;
                self.command_counter = RPU_COMMAND_COUNTER_START;
                self.pending_event = None;
                self.recovery_required = false;
                Ok(QueueInit::Ready(queues))
            },
            QueueInit::Ready(queues) => Ok(QueueInit::Ready(queues)),
        }
    }
}

/// Switches the root and UMAC interrupt lines on or off.
#[derive(Clone, Copy, Debug, PartialEq, Eq, Structural)]
pub enum InterruptSwitch {
    /// Read the root mask.
    ReadRoot { enable: bool },
    /// Write the root mask back with its bit set or cleared.
    WriteRoot { enable: bool, root: u32 },
    /// Write the UMAC enable register.
    WriteMcu { enable: bool },
    /// The lines are switched.
    Switched,
}

impl InterruptSwitch {
    /// The access that comes next, `None` once the lines are switched.
    pub open spec fn next(self) -> Option<RpuRequest> {
        match self {
            InterruptSwitch::ReadRoot { .. } => Some(
                memory::read_register_request(RPU_REG_INT_FROM_RPU_CTRL),
            ),
            InterruptSwitch::WriteRoot { enable, root } => Some(
                memory::write_register_request(
                    RPU_REG_INT_FROM_RPU_CTRL,
                    if enable {
                        root | RPU_INTERRUPT_ROOT_BIT
                    } else {
                        root & !RPU_INTERRUPT_ROOT_BIT
                    },
                ),
            ),
            InterruptSwitch::WriteMcu { enable } => Some(
                memory::write_register_request(
                    RPU_REG_INT_FROM_MCU_CTRL,
                    if enable {
                        RPU_INTERRUPT_MCU_BIT
                    } else {
                        0
                    },
                ),
            ),
            InterruptSwitch::Switched => None,
        }
    }

    /// Returns the next access, `None` once the lines are switched.
    pub fn request(&self) -> (request: Option<RpuRequest>)
        ensures
            request == self.next(),
    {
        match *self {
            InterruptSwitch::ReadRoot { .. } => Some(
                memory::read_register(RPU_REG_INT_FROM_RPU_CTRL),
            ),
            InterruptSwitch::WriteRoot { enable, root } => Some(
                memory::write_register(
                    RPU_REG_INT_FROM_RPU_CTRL,
                    if enable {
                        root | RPU_INTERRUPT_ROOT_BIT
                    } else {
                        root & !RPU_INTERRUPT_ROOT_BIT
                    },
                ),
            ),
            InterruptSwitch::WriteMcu { enable } => Some(
                memory::write_register(
                    RPU_REG_INT_FROM_MCU_CTRL,
                    if enable {
                        RPU_INTERRUPT_MCU_BIT
                    } else {
                        0
                    },
                ),
            ),
            InterruptSwitch::Switched => None,
        }
    }

    /// The stage behind a successful access.
    pub open spec fn after(self, bytes: Seq<u8>) -> InterruptSwitch {
        match self {
            InterruptSwitch::ReadRoot { enable } => InterruptSwitch::WriteRoot {
                enable,
                root: codec::u32_at(bytes, 0),
            },
            InterruptSwitch::WriteRoot { enable, .. } => InterruptSwitch::WriteMcu { enable },
            _ => InterruptSwitch::Switched,
        }
    }

    /// Takes the outcome of the access that the stage asked for.
    pub fn resume<E>(self, reply: Result<&[u8], RpuError<E>>) -> (result: Result<
        InterruptSwitch,
        DeviceError<E>,
    >)
        requires
            self.next() matches Some(request) && request.answered_by(reply),
        ensures
            result == (match reply {
                Ok(bytes) => Ok::<InterruptSwitch, DeviceError<E>>(self.after(bytes@)),
                Err(error) => Err::<InterruptSwitch, DeviceError<E>>(DeviceError::Rpu(error)),
            }),
    {
        let bytes: &[u8] = match reply {
            Ok(bytes) => bytes,
            Err(error) => return Err(DeviceError::Rpu(error)),
        };
        Ok(
            match self {
                InterruptSwitch::ReadRoot { enable } => InterruptSwitch::WriteRoot {
                    enable,
                    root: codec::read_u32(bytes, 0),
                },
                InterruptSwitch::WriteRoot { enable, .. } => InterruptSwitch::WriteMcu { enable },
                InterruptSwitch::WriteMcu { .. } => InterruptSwitch::Switched,
                InterruptSwitch::Switched => InterruptSwitch::Switched,
            },
        )
    }
}

/// The acknowledgement of one RPU-to-host interrupt.
pub open spec fn acknowledgement() -> RpuRequest {
    memory::write_register_request(RPU_REG_INT_FROM_MCU_ACK, RPU_INTERRUPT_MCU_BIT)
}

/// Asks to acknowledge one RPU-to-host interrupt.
pub fn acknowledge_interrupt() -> (request: RpuRequest)
    ensures
        request == acknowledgement(),
{
    memory::write_register(RPU_REG_INT_FROM_MCU_ACK, RPU_INTERRUPT_MCU_BIT)
}

impl<B> Device<B> {
    /// Starts to enable the root and UMAC interrupt lines.
    pub fn enable_interrupts<E>(&self) -> (result: Result<InterruptSwitch, DeviceError<E>>)
        ensures
            result == (if self.recovery_required {
                Err::<InterruptSwitch, DeviceError<E>>(DeviceError::RecoveryRequired)
            } else {
                Ok::<InterruptSwitch, DeviceError<E>>(InterruptSwitch::ReadRoot { enable: true })
            }),
    {
        self.ensure_operational::<E>()?;
        Ok(InterruptSwitch::ReadRoot { enable: true })
    }

    /// Starts to disable the root and UMAC interrupt lines.
    pub fn disable_interrupts(&self) -> (stage: InterruptSwitch)
        ensures
            stage == (InterruptSwitch::ReadRoot { enable: false }),
    {
        InterruptSwitch::ReadRoot { enable: false }
    }
}

/// What the delivery of a command does next.
#[derive(Clone, Copy, Debug, PartialEq, Eq, Structural)]
pub enum SendState {
    /// Look for a free command buffer.
    Poll,
    /// Remove the buffer from its queue.
    Claim { buffer: u32 },
    /// Copy the fragment into the buffer.
    Payload { buffer: u32 },
    /// Queue the buffer for firmware.
    Post { buffer: u32 },
    /// Trigger the command queue.
    Trigger,
    /// Pause before the next look.
    Pause,
    /// Every fragment is delivered.
    Sent,
}

/// Delivery of one command in fragments. The data of every payload request is
/// the message.
#[derive(Clone, Copy, Debug, PartialEq, Eq, Structural)]
pub struct CommandSend {
    /// Length of the message.
    pub len: usize,
    /// Bytes whose fragments are delivered.
    pub sent: usize,
    /// Most bytes per fragment.
    pub fragment_len: usize,
    /// Register that free buffers are taken from.
    pub free_register: u32,
    /// Register that filled buffers are queued with.
    pub busy_register: u32,
    /// Looks for a buffer per fragment.
    pub attempts: u16,
    /// Looks left for this fragment.
    pub left: u16,
    /// Pause between looks.
    pub delay_ms: u32,
    /// Whether an empty queue is waited for.
    pub waits: bool,
    pub state: SendState,
}

/// Where one outcome leads a delivery.
#[derive(Clone, Copy, Debug, PartialEq, Eq, Structural)]
pub enum SendOutcome {
    /// Go on.
    Continue(CommandSend),
    /// The queue is empty and nothing was delivered.
    Empty,
    /// The wait is over and nothing was delivered.
    TimedOut,
    /// Firmware may own part of the command.
    Uncertain,
}

impl CommandSend {
    /// Fragments are not empty, and bytes are left unless all is sent.
    pub open spec fn wf(self) -> bool {
        &&& 0 < self.fragment_len
        &&& self.sent <= self.len
        &&& self.state == SendState::Sent <==> self.sent == self.len
        &&& self.state == SendState::Poll ==> self.left > 0
        &&& !self.waits ==> self.len <= self.fragment_len && (self.sent == 0 || self.sent
            == self.len)
    }

    /// Length of the current fragment.
    pub open spec fn count(self) -> usize {
        if self.len - self.sent < self.fragment_len {
            (self.len - self.sent) as usize
        } else {
            self.fragment_len
        }
    }

    /// The access that comes next, `None` once all is sent.
    pub open spec fn next(self, trigger: u32) -> Option<RpuRequest> {
        match self.state {
            SendState::Poll => Some(memory::read_register_request(self.free_register)),
            SendState::Claim { buffer } => Some(
                memory::write_register_request(self.free_register, buffer),
            ),
            SendState::Payload { buffer } => Some(
                RpuRequest::WriteFrom {
                    processor: Processor::Umac,
                    address: buffer,
                    start: self.sent,
                    len: self.count(),
                },
            ),
            SendState::Post { buffer } => Some(
                memory::write_register_request(self.busy_register, buffer),
            ),
            SendState::Trigger => Some(
                memory::write_register_request(RPU_REG_INT_TO_MCU_CTRL, trigger),
            ),
            SendState::Pause => Some(RpuRequest::Delay { ms: self.delay_ms }),
            SendState::Sent => None,
        }
    }

    /// Where an outcome leads; `None` stands for a failed access. Any failed
    /// access and a corrupt queue leave the delivery uncertain, and so does a
    /// timeout behind a delivered fragment.
    pub open spec fn after(self, reply: Option<Seq<u8>>) -> SendOutcome {
        if reply is None {
            SendOutcome::Uncertain
        } else {
            let word = codec::u32_at(reply->0, 0);
            match self.state {
                SendState::Poll => if word == 0 {
                    if self.waits {
                        SendOutcome::Continue(
                            CommandSend {
                                left: (self.left - 1) as u16,
                                state: SendState::Pause,
                                ..self
                            },
                        )
                    } else {
                        SendOutcome::Empty
                    }
                } else if word == QUEUE_SENTINEL {
                    SendOutcome::Uncertain
                } else {
                    SendOutcome::Continue(
                        CommandSend { state: SendState::Claim { buffer: word }, ..self },
                    )
                },
                SendState::Claim { buffer } => SendOutcome::Continue(
                    CommandSend { state: SendState::Payload { buffer }, ..self },
                ),
                SendState::Payload { buffer } => SendOutcome::Continue(
                    CommandSend { state: SendState::Post { buffer }, ..self },
                ),
                SendState::Post { .. } => SendOutcome::Continue(
                    CommandSend { state: SendState::Trigger, ..self },
                ),
                SendState::Trigger => {
                    let sent = (self.sent + self.count()) as usize;
                    SendOutcome::Continue(
                        CommandSend {
                            sent,
                            left: self.attempts,
                            state: if sent == self.len {
                                SendState::Sent
                            } else {
                                SendState::Poll
                            },
                            ..self
                        },
                    )
                },
                SendState::Pause => if self.left > 0 {
                    SendOutcome::Continue(CommandSend { state: SendState::Poll, ..self })
                } else if self.sent > 0 {
                    SendOutcome::Uncertain
                } else {
                    SendOutcome::TimedOut
                },
                SendState::Sent => SendOutcome::Continue(self),
            }
        }
    }

    /// Returns where an outcome leads; `None` stands for a failed access.
    pub fn outcome(&self, reply: Option<&[u8]>) -> (outcome: SendOutcome)
        requires
            self.wf(),
            self.attempts > 0,
            reply matches Some(bytes) ==> self.next(0) matches Some(request) && bytes@.len()
                == request.reply_len(),
        ensures
            outcome == self.after(
                match reply {
                    Some(bytes) => Some(bytes@),
                    None => None,
                },
            ),
            outcome matches SendOutcome::Continue(next) ==> next.wf() && next.attempts
                == self.attempts,
    {
        let bytes: &[u8] = match reply {
            Some(bytes) => bytes,
            None => return SendOutcome::Uncertain,
        };
        let mut next = *self;
        match self.state {
            SendState::Poll => {
                let word: u32 = codec::read_u32(bytes, 0);
                if word == 0 {
                    if !self.waits {
                        return SendOutcome::Empty;
                    }
                    next.left = self.left - 1;
                    next.state = SendState::Pause;
                } else if word == QUEUE_SENTINEL {
                    return SendOutcome::Uncertain;
                } else {
                    next.state = SendState::Claim { buffer: word };
                }
            },
            SendState::Claim { buffer } => {
                next.state = SendState::Payload { buffer };
            },
            SendState::Payload { buffer } => {
                next.state = SendState::Post { buffer };
            },
            SendState::Post { .. } => {
                next.state = SendState::Trigger;
            },
            SendState::Trigger => {
                let rest: usize = self.len - self.sent;
                next.sent = self.sent + if rest < self.fragment_len {
                    rest
                } else {
                    self.fragment_len
                };
                next.left = self.attempts;
                next.state =
                if next.sent == self.len {
                    SendState::Sent
                } else {
                    SendState::Poll
                };
            },
            SendState::Pause => {
                if self.left == 0 {
                    return if self.sent > 0 {
                        SendOutcome::Uncertain
                    } else {
                        SendOutcome::TimedOut
                    };
                }
                next.state = SendState::Poll;
            },
            SendState::Sent => {},
        }
        SendOutcome::Continue(next)
    }
}

/// A failed access never passes for an empty queue: whatever stage it hits,
/// the delivery is uncertain.
pub proof fn law_failed_access_is_uncertain(send: CommandSend)
    ensures
        send.after(None) == SendOutcome::Uncertain,
{
}

/// A timeout or an empty queue is reported as such only while nothing has been
/// delivered to firmware.
pub proof fn law_partial_command_is_never_reported_undelivered(
    send: CommandSend,
    reply: Option<Seq<u8>>,
)
    requires
        send.wf(),
        send.after(reply) == SendOutcome::Empty || send.after(reply) == SendOutcome::TimedOut,
    ensures
        send.sent == 0,
{
}

/// The fragments of a delivery follow one another without gap or overlap, and
/// the delivery ends with the last byte of the message.
pub proof fn law_fragments_cover_message(send: CommandSend, reply: Seq<u8>)
    requires
        send.wf(),
        send.state == SendState::Trigger,
    ensures
        send.after(Some(reply)) matches SendOutcome::Continue(next) && next.sent == send.sent
            + send.count() && 0 < send.count() <= send.fragment_len && next.sent <= next.len && (
        next.state == SendState::Sent <==> next.sent == next.len),
{
}

impl<B> Device<B> {
    /// Why a command cannot be started at all, if it cannot.
    pub open spec fn send_fault<E>(&self, message: Seq<u8>) -> Option<DeviceError<E>> {
        if !message_complete(message) {
            Some(DeviceError::Protocol(ProtocolError::InvalidLength))
        } else if self.recovery_required {
            Some(DeviceError::RecoveryRequired)
        } else {
            None
        }
    }

    /// A delivery that has not started.
    pub open spec fn delivery(
        &self,
        len: nat,
        attempts: u16,
        delay_ms: u32,
        waits: bool,
    ) -> CommandSend {
        CommandSend {
            len: len as usize,
            sent: 0,
            fragment_len: self.command_fragment_len,
            free_register: self.queues->0.command_available.dequeue_address,
            busy_register: self.queues->0.command_busy.enqueue_address,
            attempts,
            left: attempts,
            delay_ms,
            waits,
            state: SendState::Poll,
        }
    }

    /// The outcome of starting a delivery that must fit one command buffer.
    pub open spec fn single_delivery<E>(&self, message: Seq<u8>) -> Result<
        CommandSend,
        DeviceError<E>,
    > {
        if self.send_fault::<E>(message) is Some {
            Err(self.send_fault::<E>(message)->0)
        } else if message.len() > self.command_fragment_len {
            Err(DeviceError::CommandNeedsWait)
        } else if self.queues is None {
            Err(DeviceError::NotInitialized)
        } else {
            Ok(self.delivery(message.len(), 1, 0, false))
        }
    }

    /// The outcome of starting a delivery that waits for command buffers.
    pub open spec fn waiting_delivery<E>(
        &self,
        message: Seq<u8>,
        attempts: u16,
        delay_ms: u32,
    ) -> Result<CommandSend, DeviceError<E>> {
        if self.send_fault::<E>(message) is Some {
            Err(self.send_fault::<E>(message)->0)
        } else if attempts == 0 {
            Err(DeviceError::CommandQueueTimeout)
        } else if self.queues is None {
            Err(DeviceError::NotInitialized)
        } else {
            Ok(self.delivery(message.len(), attempts, delay_ms, true))
        }
    }

    /// Starts to send one command that fits one firmware command buffer.
    ///
    /// Use [`Device::send_control_with_wait`] for a command that needs more
    /// than one fragment. This rule prevents a normal queue-empty result after
    /// firmware already received the first part of a command.
    pub fn send_control<E>(&self, message: &[u8]) -> (result: Result<CommandSend, DeviceError<E>>)
        requires
            self.wf(),
        ensures
            result == self.single_delivery::<E>(message@),
            result matches Ok(send) ==> send.wf() && send.attempts > 0,
    {
        validate_complete_message::<E>(message)?;
        self.ensure_operational::<E>()?;
        if message.len() > self.command_fragment_len {
            return Err(DeviceError::CommandNeedsWait);
        }
        let queues = match self.queues {
            Some(queues) => queues,
            None => return Err(DeviceError::NotInitialized),
        };
        Ok(self.start_delivery(queues, message.len(), 1, 0, false))
    }

    fn start_delivery(
        &self,
        queues: HpqmInfo,
        len: usize,
        attempts: u16,
        delay_ms: u32,
        waits: bool,
    ) -> (send: CommandSend)
        requires
            self.wf(),
            self.queues == Some(queues),
            len > 0,
            attempts > 0,
            !waits ==> len <= self.command_fragment_len,
        ensures
            send == self.delivery(len as nat, attempts, delay_ms, waits),
            send.wf(),
    {
        CommandSend {
            len,
            sent: 0,
            fragment_len: self.command_fragment_len,
            free_register: queues.command_available.dequeue_address,
            busy_register: queues.command_busy.enqueue_address,
            attempts,
            left: attempts,
            delay_ms,
            waits,
            state: SendState::Poll,
        }
    }

    /// Starts to send a complete command with a bounded wait for each command
    /// buffer.
    ///
    /// If a timeout or bus error occurs after ownership changes, the device is
    /// marked for recovery. Reset the RPU and initialize the queues before
    /// more commands are sent.
    pub fn send_control_with_wait<E>(&self, message: &[u8], attempts: u16, delay_ms: u32) -> (result:
        Result<CommandSend, DeviceError<E>>)
        requires
            self.wf(),
        ensures
            result == self.waiting_delivery::<E>(message@, attempts, delay_ms),
            result matches Ok(send) ==> send.wf() && send.attempts > 0,
    {
        validate_complete_message::<E>(message)?;
        self.ensure_operational::<E>()?;
        if attempts == 0 {
            return Err(DeviceError::CommandQueueTimeout);
        }
        let queues = match self.queues {
            Some(queues) => queues,
            None => return Err(DeviceError::NotInitialized),
        };
        Ok(self.start_delivery(queues, message.len(), attempts, delay_ms, true))
    }

    /// Starts to send a complete command with the default one-second queue
    /// wait.
    pub fn send_control_reliable<E>(&self, message: &[u8]) -> (result: Result<
        CommandSend,
        DeviceError<E>,
    >)
        requires
            self.wf(),
        ensures
            result == self.waiting_delivery::<E>(
                message@,
                DEFAULT_COMMAND_WAIT_ATTEMPTS,
                DEFAULT_COMMAND_WAIT_DELAY_MS,
            ),
            result matches Ok(send) ==> send.wf() && send.attempts > 0,
    {
        self.send_control_with_wait(
            message,
            DEFAULT_COMMAND_WAIT_ATTEMPTS,
            DEFAULT_COMMAND_WAIT_DELAY_MS,
        )
    }

    /// Returns the next access of a delivery, `None` once all is sent.
    pub fn send_request(&self, send: &CommandSend) -> (request: Option<RpuRequest>)
        requires
            send.wf(),
        ensures
            request == send.next(self.trigger_value()),
    {
        match send.state {
            SendState::Poll => Some(memory::read_register(send.free_register)),
            SendState::Claim { buffer } => Some(memory::write_register(send.free_register, buffer)),
            SendState::Payload { buffer } => {
                let rest: usize = send.len - send.sent;
                let count: usize = if rest < send.fragment_len {
                    rest
                } else {
                    send.fragment_len
                };
                Some(
                    RpuRequest::WriteFrom {
                        processor: Processor::Umac,
                        address: buffer,
                        start: send.sent,
                        len: count,
                    },
                )
            },
            SendState::Post { buffer } => Some(memory::write_register(send.busy_register, buffer)),
            SendState::Trigger => Some(self.trigger_command()),
            SendState::Pause => Some(RpuRequest::Delay { ms: send.delay_ms }),
            SendState::Sent => None,
        }
    }

    /// The outcome of one access of a delivery.
    pub open spec fn send_resumed<E>(
        before: Self,
        after: Self,
        from: CommandSend,
        to: CommandSend,
        reply: Result<&[u8], RpuError<E>>,
        result: Result<(), DeviceError<E>>,
    ) -> bool {
        let outcome = from.after(
            match reply {
                Ok(bytes) => Some(bytes@),
                Err(_) => None,
            },
        );
        match outcome {
            SendOutcome::Continue(next) => {
                &&& result is Ok
                &&& to == next
                &&& after == (Device {
                    command_counter: if from.state == SendState::Trigger {
                        next_counter(before.command_counter)
                    } else {
                        before.command_counter
                    },
                    ..before
                })
            },
            SendOutcome::Empty => {
                &&& result == Err::<(), DeviceError<E>>(DeviceError::CommandQueueEmpty)
                &&& after == before
            },
            SendOutcome::TimedOut => {
                &&& result == Err::<(), DeviceError<E>>(DeviceError::CommandQueueTimeout)
                &&& after == before
            },
            SendOutcome::Uncertain => {
                &&& result == Err::<(), DeviceError<E>>(
                    DeviceError::CommandDeliveryUncertain,
                )
                &&& after == (Device { recovery_required: true, ..before })
            },
        }
    }

    /// Takes the outcome of the access that [`Device::send_request`] asked
    /// for. An uncertain delivery marks the device for recovery.
    pub fn resume_send<E>(
        &mut self,
        send: &mut CommandSend,
        reply: Result<&[u8], RpuError<E>>,
    ) -> (result: Result<(), DeviceError<E>>)
        requires
            old(send).wf(),
            old(send).attempts > 0,
            old(send).next(old(self).trigger_value()) matches Some(request) && request.answered_by(
                reply,
            ),
        ensures
            final(send).wf(),
            final(send).attempts == old(send).attempts,
            Self::send_resumed(*old(self), *final(self), *old(send), *final(send), reply, result),
    {
        let bytes: Option<&[u8]> = match reply {
            Ok(bytes) => Some(bytes),
            Err(_) => None,
        };
        let triggered: bool = send.state == SendState::Trigger;
        match send.outcome(bytes) {
            SendOutcome::Continue(next) => {
                if triggered {
                    self.command_triggered();
                }
                *send = next;
                Ok(())
            },
            SendOutcome::Empty => Err(DeviceError::CommandQueueEmpty),
            SendOutcome::TimedOut => Err(DeviceError::CommandQueueTimeout),
            SendOutcome::Uncertain => {
                self.recovery_required = true;
                Err(DeviceError::CommandDeliveryUncertain)
            },
        }
    }
}

/// The outcome of encoding a message and starting its single-buffer delivery.
pub open spec fn started_single<B, E>(
    device: Device<B>,
    result: Result<CommandSend, DeviceError<E>>,
    before: Seq<u8>,
    after: Seq<u8>,
    message: Seq<u8>,
    fault: Option<ProtocolError>,
) -> bool {
    match fault {
        Some(error) => {
            &&& after == before
            &&& result == Err::<CommandSend, DeviceError<E>>(DeviceError::Protocol(error))
        },
        None => {
            &&& after == message + before.skip(message.len() as int)
            &&& result == device.single_delivery::<E>(message)
        },
    }
}

impl<B> Device<B> {
    /// Encodes the packed system initialization command and starts to send it.
    pub fn send_system_init<E>(
        &self,
        message: &mut [u8; SYSTEM_INIT_MESSAGE_LEN],
        config: &SystemInitConfig,
    ) -> (result: Result<CommandSend, DeviceError<E>>)
        requires
            self.wf(),
        ensures
            started_single(
                *self,
                result,
                old(message)@,
                final(message)@,
                protocol::host_message(
                    protocol::HostMessageType::System,
                    false,
                    protocol::system_init_bytes(*config),
                ),
                protocol::system_init_fault(SYSTEM_INIT_MESSAGE_LEN as nat, *config),
            ),
            result matches Ok(send) ==> send.wf() && send.attempts > 0,
    {
        let len: usize = match protocol::encode_system_init(message, config) {
            Ok(len) => len,
            Err(error) => return Err(DeviceError::Protocol(error)),
        };
        self.send_encoded(message, len)
    }

    fn send_encoded<E>(&self, message: &[u8], len: usize) -> (result: Result<
        CommandSend,
        DeviceError<E>,
    >)
        requires
            self.wf(),
            len <= message@.len(),
        ensures
            result == self.single_delivery::<E>(message@.subrange(0, len as int)),
            result matches Ok(send) ==> send.wf() && send.attempts > 0,
    {
        self.send_control(&message[0..len])
    }

    /// Encodes the creation of a station interface and starts to send it.
    pub fn add_station_interface<E>(
        &self,
        message: &mut [u8; 128],
        wdev_id: u32,
        mac_address: [u8; 6],
        interface_name: &[u8],
    ) -> (result: Result<CommandSend, DeviceError<E>>)
        requires
            self.wf(),
        ensures
            started_single(
                *self,
                result,
                old(message)@,
                final(message)@,
                protocol::umac_command(
                    UmacCommand::NewInterface,
                    protocol::wdev_ids(wdev_id),
                    protocol::new_interface_body(
                        InterfaceType::Station,
                        mac_address@,
                        interface_name@,
                    ),
                ),
                if interface_name@.len() > protocol::MAX_INTERFACE_NAME_LEN {
                    Some(ProtocolError::LimitExceeded)
                } else {
                    None
                },
            ),
            result matches Ok(send) ==> send.wf() && send.attempts > 0,
    {
        let len: usize = match protocol::encode_new_interface(
            message,
            wdev_id,
            InterfaceType::Station,
            mac_address,
            interface_name,
        ) {
            Ok(len) => len,
            Err(error) => return Err(DeviceError::Protocol(error)),
        };
        let ghost image = protocol::umac_command(
            UmacCommand::NewInterface,
            protocol::wdev_ids(wdev_id),
            protocol::new_interface_body(InterfaceType::Station, mac_address@, interface_name@),
        );
        assert(message@.subrange(0, len as int) =~= image);
        self.send_encoded(message, len)
    }

    /// Encodes one firmware scan and starts to send it.
    ///
    /// The scan command is larger than one command buffer. Use
    /// [`Device::start_scan_reliable`] for normal operation.
    pub fn start_scan<E>(
        &self,
        message: &mut [u8; MAX_CONTROL_MESSAGE_LEN],
        wdev_id: u32,
        request: &ScanRequest<'_>,
    ) -> (result: Result<CommandSend, DeviceError<E>>)
        requires
            self.wf(),
        ensures
            started_single(
                *self,
                result,
                old(message)@,
                final(message)@,
                protocol::umac_command(
                    UmacCommand::TriggerScan,
                    protocol::wdev_ids(wdev_id),
                    request.body(),
                ),
                scan_fault(*request),
            ),
            result matches Ok(send) ==> send.wf() && send.attempts > 0,
    {
        let len: usize = match protocol::encode_scan(message, wdev_id, request) {
            Ok(len) => len,
            Err(error) => return Err(DeviceError::Protocol(error)),
        };
        let ghost image = protocol::umac_command(
            UmacCommand::TriggerScan,
            protocol::wdev_ids(wdev_id),
            request.body(),
        );
        assert(message@.subrange(0, len as int) =~= image);
        self.send_encoded(message, len)
    }

    /// Encodes one firmware scan and starts to send it with bounded
    /// command-buffer waits.
    pub fn start_scan_reliable<E>(
        &self,
        message: &mut [u8; MAX_CONTROL_MESSAGE_LEN],
        wdev_id: u32,
        request: &ScanRequest<'_>,
    ) -> (result: Result<CommandSend, DeviceError<E>>)
        requires
            self.wf(),
        ensures
            ({
                let image = protocol::umac_command(
                    UmacCommand::TriggerScan,
                    protocol::wdev_ids(wdev_id),
                    request.body(),
                );
                match scan_fault(*request) {
                    Some(error) => final(message)@ == old(message)@ && result == Err::<
                        CommandSend,
                        DeviceError<E>,
                    >(DeviceError::Protocol(error)),
                    None => final(message)@ == image + old(message)@.skip(image.len() as int)
                        && result == self.waiting_delivery::<E>(
                        image,
                        DEFAULT_COMMAND_WAIT_ATTEMPTS,
                        DEFAULT_COMMAND_WAIT_DELAY_MS,
                    ),
                }
            }),
            result matches Ok(send) ==> send.wf() && send.attempts > 0,
    {
        let len: usize = match protocol::encode_scan(message, wdev_id, request) {
            Ok(len) => len,
            Err(error) => return Err(DeviceError::Protocol(error)),
        };
        let ghost image = protocol::umac_command(
            UmacCommand::TriggerScan,
            protocol::wdev_ids(wdev_id),
            request.body(),
        );
        assert(message@.subrange(0, len as int) =~= image);
        let encoded: &[u8] = message;
        self.send_control_reliable(&encoded[0..len])
    }

    /// Encodes the request for results after a scan-done event and starts to
    /// send it.
    pub fn get_scan_results<E>(&self, message: &mut [u8; 96], wdev_id: u32, reason: ScanReason) -> (
    result: Result<CommandSend, DeviceError<E>>)
        requires
            self.wf(),
        ensures
            started_single(
                *self,
                result,
                old(message)@,
                final(message)@,
                protocol::umac_command(
                    UmacCommand::GetScanResults,
                    protocol::wdev_ids(wdev_id),
                    codec::le32(reason.wire() as u32),
                ),
                None,
            ),
            result matches Ok(send) ==> send.wf() && send.attempts > 0,
    {
        let len: usize = match protocol::encode_get_scan_results(message, wdev_id, reason) {
            Ok(len) => len,
            Err(error) => return Err(DeviceError::Protocol(error)),
        };
        let ghost image = protocol::umac_command(
            UmacCommand::GetScanResults,
            protocol::wdev_ids(wdev_id),
            codec::le32(reason.wire() as u32),
        );
        assert(message@.subrange(0, len as int) =~= image);
        self.send_encoded(message, len)
    }

    /// Encodes a station deauthentication request and starts to send it.
    pub fn deauthenticate<E>(
        &self,
        message: &mut [u8; 96],
        wdev_id: u32,
        bssid: [u8; 6],
        reason_code: u16,
        local_state_change: bool,
    ) -> (result: Result<CommandSend, DeviceError<E>>)
        requires
            self.wf(),
        ensures
            started_single(
                *self,
                result,
                old(message)@,
                final(message)@,
                protocol::umac_command(
                    UmacCommand::Deauthenticate,
                    protocol::wdev_ids(wdev_id),
                    protocol::deauthenticate_body(bssid@, reason_code, local_state_change),
                ),
                None,
            ),
            result matches Ok(send) ==> send.wf() && send.attempts > 0,
    {
        let len: usize = match protocol::encode_deauthenticate(
            message,
            wdev_id,
            bssid,
            reason_code,
            local_state_change,
        ) {
            Ok(len) => len,
            Err(error) => return Err(DeviceError::Protocol(error)),
        };
        let ghost image = protocol::umac_command(
            UmacCommand::Deauthenticate,
            protocol::wdev_ids(wdev_id),
            protocol::deauthenticate_body(bssid@, reason_code, local_state_change),
        );
        assert(message@.subrange(0, len as int) =~= image);
        self.send_encoded(message, len)
    }
}

/// Why a scan cannot be encoded into a control message, if it cannot.
pub open spec fn scan_fault(request: ScanRequest<'_>) -> Option<ProtocolError> {
    if !request.within_limits() {
        Some(ProtocolError::LimitExceeded)
    } else {
        protocol::umac_fault(
            MAX_CONTROL_MESSAGE_LEN as nat,
            (protocol::SCAN_FIXED_LEN + 4 * request.center_frequencies_mhz@.len()) as nat,
        )
    }
}

/// What the reading of an event is for.
#[derive(Clone, Copy, Debug, PartialEq, Eq, Structural)]
pub enum EventPlan {
    /// Take the remaining fragments of an event.
    Drain(PendingEvent),
    /// Look for a new event.
    Fresh,
    /// Give back an event that is shorter than its header.
    Short(NewEvent),
    /// Give back an event that is longer than the storage.
    Oversized(NewEvent),
    /// Take the first fragment of an event.
    Take(NewEvent),
}

/// What the reading of an event does next.
#[derive(Clone, Copy, Debug, PartialEq, Eq, Structural)]
pub enum EventState {
    /// Look for a filled event buffer.
    Poll,
    /// Remove the buffer from its queue.
    Claim { address: u32 },
    /// Read the host header of a new event.
    Header { address: u32 },
    /// Copy the fragment.
    Body { address: u32 },
    /// Give the buffer back to firmware.
    Release { address: u32 },
    /// Acknowledge the interrupt.
    Acknowledge,
}

/// Reading of one queued event into caller storage.
#[derive(Clone, Copy, Debug, PartialEq, Eq, Structural)]
pub struct EventRead {
    /// Length of the caller's storage.
    pub capacity: usize,
    /// Address of the caller's storage.
    pub scratch_address: usize,
    /// Most bytes per fragment.
    pub fragment_len: usize,
    /// Register that filled buffers are taken from.
    pub busy_register: u32,
    /// Register that buffers are given back with.
    pub free_register: u32,
    /// Whether a fragment was removed from the queue.
    pub removed: bool,
    pub plan: EventPlan,
    pub state: EventState,
}

/// Where one successful access leads the reading of an event.
#[derive(Clone, Copy, Debug, PartialEq, Eq, Structural)]
pub enum EventOutcome {
    /// Go on.
    Continue(EventRead),
    /// A discarded event is gone; go on with a new one.
    Restart(EventRead),
    /// No complete event is there; this part of one is pending.
    Waiting(Option<PendingEvent>),
    /// An event of this length is complete.
    Complete(usize),
    /// The event was shorter than its header.
    Invalid,
    /// The event does not fit; this part of it is still to be removed.
    TooLarge { declared: usize, pending: Option<PendingEvent> },
    /// The queue register is corrupt.
    Corrupt,
}

/// The shorter of two lengths.
pub open spec fn shorter(left: usize, right: usize) -> usize {
    if left < right {
        left
    } else {
        right
    }
}

fn shorter_of(left: usize, right: usize) -> (least: usize)
    ensures
        least == shorter(left, right),
{
    if left < right {
        left
    } else {
        right
    }
}

impl EventRead {
    /// Whether a new event is the reading of a header.
    pub open spec fn announced(self, event: NewEvent) -> bool {
        event.first_count == shorter(self.fragment_len, event.declared)
    }

    /// The plan, the state and the storage fit together.
    pub open spec fn wf(self) -> bool {
        &&& HOST_MESSAGE_HEADER_LEN <= self.fragment_len
        &&& match self.plan {
            EventPlan::Drain(pending) => {
                &&& !pending.discard ==> pending.declared <= self.capacity
                &&& pending.copied <= pending.declared
                &&& self.state != EventState::Acknowledge ==> pending.copied < pending.declared
                &&& !(self.state is Header)
                &&& self.state is Body ==> !pending.discard
            },
            EventPlan::Fresh => self.state == EventState::Poll || self.state is Claim
                || self.state is Header,
            EventPlan::Short(event) => {
                &&& self.announced(event)
                &&& event.declared < HOST_MESSAGE_HEADER_LEN
                &&& self.state is Release || self.state == EventState::Acknowledge
            },
            EventPlan::Oversized(event) => {
                &&& self.announced(event)
                &&& event.declared > self.capacity
                &&& event.declared >= HOST_MESSAGE_HEADER_LEN
                &&& self.state is Release || self.state == EventState::Acknowledge
            },
            EventPlan::Take(event) => {
                &&& self.announced(event)
                &&& HOST_MESSAGE_HEADER_LEN <= event.declared <= self.capacity
                &&& self.state is Body || self.state is Release || self.state
                    == EventState::Acknowledge
            },
        }
    }

    /// Where the current fragment goes in the storage: offset and length.
    pub open spec fn fragment(self) -> (usize, usize) {
        match self.plan {
            EventPlan::Drain(pending) => (
                pending.copied,
                shorter(self.fragment_len, (pending.declared - pending.copied) as usize),
            ),
            EventPlan::Take(event) => (0, event.first_count),
            _ => (0, 0),
        }
    }

    /// The access that comes next.
    pub open spec fn next(self) -> RpuRequest {
        match self.state {
            EventState::Poll => memory::read_register_request(self.busy_register),
            EventState::Claim { address } => memory::write_register_request(
                self.busy_register,
                address,
            ),
            EventState::Header { address } => RpuRequest::Read {
                processor: Processor::Umac,
                address,
                len: HOST_MESSAGE_HEADER_LEN,
            },
            EventState::Body { address } => RpuRequest::ReadInto {
                processor: Processor::Umac,
                address,
                start: self.fragment().0,
                len: self.fragment().1,
            },
            EventState::Release { address } => memory::write_register_request(
                self.free_register,
                address,
            ),
            EventState::Acknowledge => acknowledgement(),
        }
    }

    /// The reading behind a drained fragment.
    pub open spec fn drained(self, pending: PendingEvent) -> EventRead {
        let copied = (pending.copied + self.fragment().1) as usize;
        EventRead {
            removed: true,
            plan: EventPlan::Drain(PendingEvent { copied, ..pending }),
            state: if copied == pending.declared {
                EventState::Acknowledge
            } else {
                EventState::Poll
            },
            ..self
        }
    }

    /// The state that gives a buffer back, if firmware wants it.
    pub open spec fn give_back(resubmit: bool, address: u32) -> EventState {
        if resubmit {
            EventState::Release { address }
        } else {
            EventState::Acknowledge
        }
    }

    /// The reading behind a copied or skipped fragment.
    pub open spec fn taken(self, address: u32) -> EventRead {
        match self.plan {
            EventPlan::Drain(pending) => if pending.resubmit {
                EventRead { state: EventState::Release { address }, ..self }
            } else {
                self.drained(pending)
            },
            EventPlan::Take(event) => EventRead {
                state: Self::give_back(event.resubmit, address),
                ..self
            },
            _ => self,
        }
    }

    /// The reading behind the header of a new event.
    pub open spec fn announce(self, address: u32, header: Seq<u8>) -> EventRead {
        let declared = codec::u32_at(header, 0) as usize;
        let resubmit = codec::u32_at(header, 4) != 0;
        let event = NewEvent {
            address,
            declared,
            first_count: shorter(self.fragment_len, declared),
            resubmit,
        };
        if declared < HOST_MESSAGE_HEADER_LEN {
            EventRead {
                plan: EventPlan::Short(event),
                state: Self::give_back(resubmit, address),
                ..self
            }
        } else if declared > self.capacity {
            EventRead {
                plan: EventPlan::Oversized(event),
                state: Self::give_back(resubmit, address),
                ..self
            }
        } else {
            EventRead { plan: EventPlan::Take(event), state: EventState::Body { address }, ..self }
        }
    }

    /// Where the acknowledgement leads.
    pub open spec fn acknowledged(self) -> EventOutcome {
        match self.plan {
            EventPlan::Drain(pending) => if pending.copied < pending.declared {
                EventOutcome::Waiting(Some(pending))
            } else if pending.discard {
                EventOutcome::Restart(
                    EventRead { plan: EventPlan::Fresh, state: EventState::Poll, ..self },
                )
            } else {
                EventOutcome::Complete(pending.declared)
            },
            EventPlan::Fresh => EventOutcome::Waiting(None),
            EventPlan::Short(_) => EventOutcome::Invalid,
            EventPlan::Oversized(event) => EventOutcome::TooLarge {
                declared: event.declared,
                pending: if event.first_count < event.declared {
                    Some(
                        PendingEvent {
                            declared: event.declared,
                            copied: event.first_count,
                            resubmit: event.resubmit,
                            scratch_address: 0,
                            discard: true,
                        },
                    )
                } else {
                    None
                },
            },
            EventPlan::Take(event) => if event.first_count == event.declared {
                EventOutcome::Complete(event.declared)
            } else {
                EventOutcome::Waiting(
                    Some(
                        PendingEvent {
                            declared: event.declared,
                            copied: event.first_count,
                            resubmit: event.resubmit,
                            scratch_address: self.scratch_address,
                            discard: false,
                        },
                    ),
                )
            },
        }
    }

    /// Where a successful access leads.
    pub open spec fn after(self, bytes: Seq<u8>) -> EventOutcome {
        let word = codec::u32_at(bytes, 0);
        match self.state {
            EventState::Poll => if word == QUEUE_SENTINEL {
                EventOutcome::Corrupt
            } else if word != 0 {
                EventOutcome::Continue(
                    EventRead { state: EventState::Claim { address: word }, ..self },
                )
            } else {
                match self.plan {
                    EventPlan::Drain(pending) => if self.removed {
                        EventOutcome::Continue(EventRead { state: EventState::Acknowledge, ..self })
                    } else {
                        EventOutcome::Waiting(Some(pending))
                    },
                    _ => EventOutcome::Waiting(None),
                }
            },
            EventState::Claim { address } => match self.plan {
                EventPlan::Drain(pending) => if pending.discard {
                    EventOutcome::Continue(self.taken(address))
                } else {
                    EventOutcome::Continue(
                        EventRead { state: EventState::Body { address }, ..self },
                    )
                },
                _ => EventOutcome::Continue(
                    EventRead { state: EventState::Header { address }, ..self },
                ),
            },
            EventState::Header { address } => EventOutcome::Continue(self.announce(address, bytes)),
            EventState::Body { address } => EventOutcome::Continue(self.taken(address)),
            EventState::Release { .. } => match self.plan {
                EventPlan::Drain(pending) => EventOutcome::Continue(self.drained(pending)),
                _ => EventOutcome::Continue(EventRead { state: EventState::Acknowledge, ..self }),
            },
            EventState::Acknowledge => self.acknowledged(),
        }
    }

    /// Returns the next access. A fragment is only ever copied inside the
    /// caller's storage.
    pub fn request(&self) -> (request: RpuRequest)
        requires
            self.wf(),
        ensures
            request == self.next(),
            request matches RpuRequest::ReadInto { start, len, .. } ==> start + len
                <= self.capacity,
    {
        match self.state {
            EventState::Poll => memory::read_register(self.busy_register),
            EventState::Claim { address } => memory::write_register(self.busy_register, address),
            EventState::Header { address } => RpuRequest::Read {
                processor: Processor::Umac,
                address,
                len: HOST_MESSAGE_HEADER_LEN,
            },
            EventState::Body { address } => {
                let (start, len) = self.fragment_range();
                RpuRequest::ReadInto { processor: Processor::Umac, address, start, len }
            },
            EventState::Release { address } => memory::write_register(self.free_register, address),
            EventState::Acknowledge => acknowledge_interrupt(),
        }
    }

    fn fragment_range(&self) -> (range: (usize, usize))
        requires
            self.wf(),
        ensures
            range == self.fragment(),
    {
        match self.plan {
            EventPlan::Drain(pending) => (
                pending.copied,
                shorter_of(self.fragment_len, pending.declared - pending.copied),
            ),
            EventPlan::Take(event) => (0, event.first_count),
            _ => (0, 0),
        }
    }

    fn finish_fragment(&self, pending: PendingEvent) -> (next: EventRead)
        requires
            self.wf(),
            self.plan == EventPlan::Drain(pending),
            pending.copied < pending.declared,
        ensures
            next == self.drained(pending),
            next.wf(),
    {
        let (start, len) = self.fragment_range();
        let mut taken = pending;
        taken.copied = start + len;
        let mut next = *self;
        next.removed = true;
        next.plan = EventPlan::Drain(taken);
        next.state =
        if taken.copied == pending.declared {
            EventState::Acknowledge
        } else {
            EventState::Poll
        };
        next
    }

    fn take_fragment(&self, address: u32) -> (next: EventRead)
        requires
            self.wf(),
            self.state != EventState::Acknowledge,
            self.plan is Drain || self.plan is Take,
        ensures
            next == self.taken(address),
            next.wf(),
    {
        let mut next = *self;
        match self.plan {
            EventPlan::Drain(pending) => {
                if !pending.resubmit {
                    return self.finish_fragment(pending);
                }
                next.state = EventState::Release { address };
            },
            EventPlan::Take(event) => {
                next.state =
                if event.resubmit {
                    EventState::Release { address }
                } else {
                    EventState::Acknowledge
                };
            },
            _ => {},
        }
        next
    }

    fn read_header(&self, address: u32, header: &[u8]) -> (next: EventRead)
        requires
            self.wf(),
            self.plan == EventPlan::Fresh,
            header@.len() == HOST_MESSAGE_HEADER_LEN,
        ensures
            next == self.announce(address, header@),
            next.wf(),
    {
        let declared: usize = codec::read_u32(header, 0) as usize;
        let resubmit: bool = codec::read_u32(header, 4) != 0;
        let event = NewEvent {
            address,
            declared,
            first_count: shorter_of(self.fragment_len, declared),
            resubmit,
        };
        let back = if resubmit {
            EventState::Release { address }
        } else {
            EventState::Acknowledge
        };
        let mut next = *self;
        if declared < HOST_MESSAGE_HEADER_LEN {
            next.plan = EventPlan::Short(event);
            next.state = back;
        } else if declared > self.capacity {
            next.plan = EventPlan::Oversized(event);
            next.state = back;
        } else {
            next.plan = EventPlan::Take(event);
            next.state = EventState::Body { address };
        }
        next
    }

    fn acknowledge(&self) -> (outcome: EventOutcome)
        requires
            self.wf(),
            self.state == EventState::Acknowledge,
        ensures
            outcome == self.acknowledged(),
            outcome matches EventOutcome::Restart(next) ==> next.wf(),
    {
        match self.plan {
            EventPlan::Drain(pending) => {
                if pending.copied < pending.declared {
                    EventOutcome::Waiting(Some(pending))
                } else if pending.discard {
                    let mut next = *self;
                    next.plan = EventPlan::Fresh;
                    next.state = EventState::Poll;
                    EventOutcome::Restart(next)
                } else {
                    EventOutcome::Complete(pending.declared)
                }
            },
            EventPlan::Fresh => EventOutcome::Waiting(None),
            EventPlan::Short(_) => EventOutcome::Invalid,
            EventPlan::Oversized(event) => {
                let pending = if event.first_count < event.declared {
                    Some(
                        PendingEvent {
                            declared: event.declared,
                            copied: event.first_count,
                            resubmit: event.resubmit,
                            scratch_address: 0,
                            discard: true,
                        },
                    )
                } else {
                    None
                };
                EventOutcome::TooLarge { declared: event.declared, pending }
            },
            EventPlan::Take(event) => {
                if event.first_count == event.declared {
                    return EventOutcome::Complete(event.declared);
                }
                EventOutcome::Waiting(
                    Some(
                        PendingEvent {
                            declared: event.declared,
                            copied: event.first_count,
                            resubmit: event.resubmit,
                            scratch_address: self.scratch_address,
                            discard: false,
                        },
                    ),
                )
            },
        }
    }

    /// Returns where a successful access leads.
    pub fn outcome(&self, bytes: &[u8]) -> (outcome: EventOutcome)
        requires
            self.wf(),
            bytes@.len() == self.next().reply_len(),
        ensures
            outcome == self.after(bytes@),
            outcome matches EventOutcome::Continue(next) ==> next.wf(),
            outcome matches EventOutcome::Restart(next) ==> next.wf(),
    {
        let mut next = *self;
        match self.state {
            EventState::Poll => {
                let word: u32 = codec::read_u32(bytes, 0);
                if word == QUEUE_SENTINEL {
                    return EventOutcome::Corrupt;
                }
                if word == 0 {
                    return match self.plan {
                        EventPlan::Drain(pending) => {
                            if !self.removed {
                                return EventOutcome::Waiting(Some(pending));
                            }
                            next.state = EventState::Acknowledge;
                            EventOutcome::Continue(next)
                        },
                        _ => EventOutcome::Waiting(None),
                    };
                }
                next.state = EventState::Claim { address: word };
            },
            EventState::Claim { address } => {
                match self.plan {
                    EventPlan::Drain(pending) => {
                        if pending.discard {
                            return EventOutcome::Continue(self.take_fragment(address));
                        }
                        next.state = EventState::Body { address };
                    },
                    _ => {
                        next.state = EventState::Header { address };
                    },
                }
            },
            EventState::Header { address } => {
                next = self.read_header(address, bytes);
            },
            EventState::Body { address } => {
                next = self.take_fragment(address);
            },
            EventState::Release { .. } => {
                match self.plan {
                    EventPlan::Drain(pending) => {
                        next = self.finish_fragment(pending);
                    },
                    _ => {
                        next.state = EventState::Acknowledge;
                    },
                }
            },
            EventState::Acknowledge => return self.acknowledge(),
        }
        EventOutcome::Continue(next)
    }
}

/// What one step of reading an event brought.
#[derive(Clone, Copy, Debug, PartialEq, Eq, Structural)]
pub enum EventProgress {
    /// More accesses follow.
    Pending,
    /// No complete event is available.
    Idle,
    /// The storage holds a complete event of this length.
    Complete(usize),
}

impl<B> Device<B> {
    /// The outcome of starting to read an event.
    pub open spec fn read_started<E>(
        before: Self,
        after: Self,
        capacity: usize,
        scratch_address: usize,
        result: Result<EventRead, DeviceError<E>>,
    ) -> bool {
        if before.recovery_required {
            &&& result == Err::<EventRead, DeviceError<E>>(DeviceError::RecoveryRequired)
            &&& after == before
        } else if before.queues is None {
            &&& result == Err::<EventRead, DeviceError<E>>(DeviceError::NotInitialized)
            &&& after == before
        } else if before.pending_event matches Some(pending) && pending.buffer_changed(
            capacity,
            scratch_address,
        ) {
            &&& result == Err::<EventRead, DeviceError<E>>(DeviceError::EventBufferChanged)
            &&& after == (Device {
                pending_event: Some(before.pending_event->0.discarded()),
                ..before
            })
        } else {
            &&& after == before
            &&& result == Ok::<EventRead, DeviceError<E>>(
                EventRead {
                    capacity,
                    scratch_address,
                    fragment_len: before.event_fragment_len,
                    busy_register: before.queues->0.event_busy.dequeue_address,
                    free_register: before.queues->0.event_available.enqueue_address,
                    removed: false,
                    plan: match before.pending_event {
                        Some(pending) => EventPlan::Drain(pending),
                        None => EventPlan::Fresh,
                    },
                    state: EventState::Poll,
                },
            )
        }
    }

    /// Starts to read and reassemble one queued event into caller storage of
    /// this length and address.
    ///
    /// [`EventProgress::Idle`] can also mean that a fragmented event is waiting
    /// for its next fragment. Keep the same storage unchanged until that event
    /// completes. If it must change, call [`Device::discard_pending_event`]
    /// first.
    ///
    /// An oversized event is removed over this read and later ones. The first
    /// one ends with [`DeviceError::EventTooLarge`]. Later ones discard the
    /// remaining fragments before they read a new event.
    pub fn try_read_event<E>(&mut self, capacity: usize, scratch_address: usize) -> (result: Result<
        EventRead,
        DeviceError<E>,
    >)
        requires
            old(self).wf(),
        ensures
            final(self).wf(),
            result matches Ok(read) ==> read.wf(),
            Self::read_started(*old(self), *final(self), capacity, scratch_address, result),
    {
        self.ensure_operational::<E>()?;
        let queues = match self.queues {
            Some(queues) => queues,
            None => return Err(DeviceError::NotInitialized),
        };
        let plan = match self.pending_event {
            None => EventPlan::Fresh,
            Some(pending) => {
                if !pending.discard && (pending.scratch_address != scratch_address || capacity
                    < pending.declared) {
                    self.discard_pending_event();
                    return Err(DeviceError::EventBufferChanged);
                }
                EventPlan::Drain(pending)
            },
        };
        Ok(
            EventRead {
                capacity,
                scratch_address,
                fragment_len: self.event_fragment_len,
                busy_register: queues.event_busy.dequeue_address,
                free_register: queues.event_available.enqueue_address,
                removed: false,
                plan,
                state: EventState::Poll,
            },
        )
    }

    /// The outcome of one access of a reading.
    pub open spec fn event_resumed<E>(
        before: Self,
        after: Self,
        from: EventRead,
        to: EventRead,
        reply: Result<&[u8], RpuError<E>>,
        result: Result<EventProgress, DeviceError<E>>,
    ) -> bool {
        match reply {
            Err(error) => {
                &&& result == Err::<EventProgress, DeviceError<E>>(DeviceError::Rpu(error))
                &&& after == before
            },
            Ok(bytes) => match from.after(bytes@) {
                EventOutcome::Continue(next) => {
                    &&& result == Ok::<EventProgress, DeviceError<E>>(EventProgress::Pending)
                    &&& to == next
                    &&& after == before
                },
                EventOutcome::Restart(next) => {
                    &&& result == Ok::<EventProgress, DeviceError<E>>(EventProgress::Pending)
                    &&& to == next
                    &&& after == (Device { pending_event: None, ..before })
                },
                EventOutcome::Waiting(pending) => {
                    &&& result == Ok::<EventProgress, DeviceError<E>>(EventProgress::Idle)
                    &&& after == (Device { pending_event: pending, ..before })
                },
                EventOutcome::Complete(len) => {
                    &&& result == Ok::<EventProgress, DeviceError<E>>(
                        EventProgress::Complete(len),
                    )
                    &&& len <= from.capacity
                    &&& after == (Device { pending_event: None, ..before })
                },
                EventOutcome::Invalid => {
                    &&& result == Err::<EventProgress, DeviceError<E>>(
                        DeviceError::Protocol(ProtocolError::InvalidLength),
                    )
                    &&& after == before
                },
                EventOutcome::TooLarge { declared, pending } => {
                    &&& result == Err::<EventProgress, DeviceError<E>>(
                        DeviceError::EventTooLarge {
                            declared,
                            capacity: from.capacity,
                        },
                    )
                    &&& after == (Device { pending_event: pending, ..before })
                },
                EventOutcome::Corrupt => {
                    &&& result == Err::<EventProgress, DeviceError<E>>(
                        DeviceError::InvalidQueueMap,
                    )
                    &&& after == before
                },
            },
        }
    }

    /// Takes the outcome of the access that [`EventRead::request`] asked for.
    /// A failed access leaves the pending event as it was.
    pub fn resume_event<E>(&mut self, read: &mut EventRead, reply: Result<&[u8], RpuError<E>>) -> (
    result: Result<EventProgress, DeviceError<E>>)
        requires
            old(self).wf(),
            old(read).wf(),
            old(read).next().answered_by(reply),
        ensures
            final(self).wf(),
            final(read).wf(),
            Self::event_resumed(*old(self), *final(self), *old(read), *final(read), reply, result),
    {
        let bytes: &[u8] = match reply {
            Ok(bytes) => bytes,
            Err(error) => return Err(DeviceError::Rpu(error)),
        };
        match read.outcome(bytes) {
            EventOutcome::Continue(next) => {
                *read = next;
                Ok(EventProgress::Pending)
            },
            EventOutcome::Restart(next) => {
                *read = next;
                self.pending_event = None;
                Ok(EventProgress::Pending)
            },
            EventOutcome::Waiting(pending) => {
                self.pending_event = pending;
                Ok(EventProgress::Idle)
            },
            EventOutcome::Complete(len) => {
                self.pending_event = None;
                Ok(EventProgress::Complete(len))
            },
            EventOutcome::Invalid => Err(DeviceError::Protocol(ProtocolError::InvalidLength)),
            EventOutcome::TooLarge { declared, pending } => {
                self.pending_event = pending;
                Err(DeviceError::EventTooLarge { declared, capacity: read.capacity })
            },
            EventOutcome::Corrupt => Err(DeviceError::InvalidQueueMap),
        }
    }
}

/// Parses a complete event from the start of the storage that holds it.
pub fn finish_event<'a, E>(scratch: &'a [u8], len: usize) -> (result: Result<
    HostMessageRef<'a>,
    DeviceError<E>,
>)
    requires
        len <= scratch@.len(),
    ensures
        match result {
            Ok(message) => protocol::parsed_host_message(scratch@.subrange(0, len as int)) == Ok::<
                (bool, protocol::HostMessageType, Seq<u8>),
                ProtocolError,
            >((message.resubmit, message.message_type, message.payload@)),
            Err(error) => exists|cause: ProtocolError|
                error == DeviceError::<E>::Protocol(cause) && protocol::parsed_host_message(
                    scratch@.subrange(0, len as int),
                ) == Err::<(bool, protocol::HostMessageType, Seq<u8>), ProtocolError>(cause),
        },
{
    match protocol::parse_host_message(&scratch[0..len]) {
        Ok(message) => Ok(message),
        Err(error) => Err(DeviceError::Protocol(error)),
    }
}

/// A pending event is finished before a new one is read: its fragments follow
/// each other without a gap, and only once all of them are removed does a
/// kept event complete or a discarded one make room for the next.
pub proof fn law_pending_event_is_drained_first(
    read: EventRead,
    pending: PendingEvent,
    bytes: Seq<u8>,
)
    requires
        read.wf(),
        read.plan == EventPlan::Drain(pending),
    ensures
        match read.after(bytes) {
            EventOutcome::Continue(next) => next.plan matches EventPlan::Drain(later) && {
                &&& later.declared == pending.declared
                &&& later.discard == pending.discard
                &&& later.copied == pending.copied || (later.copied == pending.copied
                    + read.fragment().1 && read.fragment().0 == pending.copied)
            },
            EventOutcome::Restart(_) => pending.discard && pending.copied == pending.declared,
            EventOutcome::Complete(len) => !pending.discard && pending.copied == pending.declared
                && len == pending.declared,
            EventOutcome::Waiting(later) => later == Some(pending) && pending.copied
                < pending.declared,
            EventOutcome::Corrupt => read.state == EventState::Poll,
            _ => false,
        },
{
}

/// A reading never ends without giving a buffer back that firmware wants: a
/// claimed buffer of a resubmitted event is released before the interrupt is
/// acknowledged.
pub proof fn law_resubmitted_buffers_are_released(read: EventRead, bytes: Seq<u8>)
    requires
        read.wf(),
        read.state is Body || read.state is Header,
        read.after(bytes) matches EventOutcome::Continue(next) && next.state
            == EventState::Acknowledge,
    ensures
        ({
            let next = read.after(bytes)->Continue_0;
            match next.plan {
                EventPlan::Drain(pending) => !pending.resubmit,
                EventPlan::Short(event) => !event.resubmit,
                EventPlan::Oversized(event) => !event.resubmit,
                EventPlan::Take(event) => !event.resubmit,
                EventPlan::Fresh => false,
            }
        }),
{
}

/// The queue map is read from its place in packet memory, the receive command base
/// from its own register; a map is usable when every register of its seven queues
/// is an aligned address that the firmware has written.
pub proof fn law_queue_initialization(queues: HpqmInfo, queue: Hpq)
    ensures
        QueueInit::ReadMap.next() == Some(
            RpuRequest::Read { processor: Processor::Umac, address: 0xb000_0024, len: 56 },
        ),
        QueueInit::ReadBase(queues).next() == Some(
            RpuRequest::Read { processor: Processor::Lmac, address: 0xb700_0d58, len: 4 },
        ),
        queue_usable(queue) <==> (queue.enqueue_address != 0 && queue.enqueue_address
            != 0xaaaa_aaaa && queue.enqueue_address % 4 == 0) && (queue.dequeue_address != 0
            && queue.dequeue_address != 0xaaaa_aaaa && queue.dequeue_address % 4 == 0),
        map_usable(queues) <==> queue_usable(queues.event_busy) && queue_usable(
            queues.event_available,
        ) && queue_usable(queues.command_busy) && queue_usable(queues.command_available)
            && queue_usable(queues.rx_buffer_busy@[0]) && queue_usable(queues.rx_buffer_busy@[1])
            && queue_usable(queues.rx_buffer_busy@[2]),
{
    let all = queues.queues();
    assert(all[0] == queues.event_busy);
    assert(all[1] == queues.event_available);
    assert(all[2] == queues.command_busy);
    assert(all[3] == queues.command_available);
    assert(all[4] == queues.rx_buffer_busy@[0]);
    assert(all[5] == queues.rx_buffer_busy@[1]);
    assert(all[6] == queues.rx_buffer_busy@[2]);
}

/// Published queues start a fresh command count and clear what an earlier firmware
/// left; a reset forgets the queues.
pub proof fn law_published_queues_start_fresh<B>(
    device: Device<B>,
    queues: HpqmInfo,
    rx_command_base: u32,
)
    ensures
        ({
            let after = device.queues_published(queues, rx_command_base);
            &&& after.queues == Some(queues)
            &&& after.rx_command_base == rx_command_base
            &&& after.tx_command_base == 0xb000_00b8
            &&& after.command_counter == 0xdead
            &&& after.pending_event is None
            &&& !after.recovery_required
            &&& after.command_fragment_len == device.command_fragment_len
                && after.event_fragment_len == device.event_fragment_len
        }),
        ({
            let after = device.queues_reset();
            &&& after.queues is None
            &&& after.rx_command_base == 0 && after.tx_command_base == 0
            &&& after.command_counter == 0xdead
            &&& after.pending_event is None
            &&& !after.recovery_required
        }),
{
}

/// Switching interrupts changes the root bit alone in the root register, keeps what
/// else it held, and then sets or clears the processor interrupt.
pub proof fn law_interrupt_switch(enable: bool, value: Seq<u8>)
    requires
        value.len() == 4,
    ensures
        ({
            let start = InterruptSwitch::ReadRoot { enable };
            let root = codec::u32_at(value, 0);
            let written = if enable {
                root | 0x2_0000
            } else {
                root & !0x2_0000u32
            };
            &&& start.next() == Some(
                RpuRequest::Read { processor: Processor::Lmac, address: 0xa400_0400, len: 4 },
            )
            &&& start.after(value).next() == Some(
                RpuRequest::WriteWord {
                    processor: Processor::Lmac,
                    address: 0xa400_0400,
                    value: written,
                },
            )
            &&& start.after(value).after(seq![]).next() == Some(
                RpuRequest::WriteWord {
                    processor: Processor::Lmac,
                    address: 0xa400_0494,
                    value: if enable {
                        0x8000_0000
                    } else {
                        0
                    },
                },
            )
            &&& start.after(value).after(seq![]).after(seq![]) == InterruptSwitch::Switched
            &&& acknowledgement() == (RpuRequest::WriteWord {
                processor: Processor::Lmac,
                address: 0xa400_0488,
                value: 0x8000_0000,
            })
        }),
{
}

/// A command waits for a free buffer, takes it off the queue, fills it with the next
/// fragment, hands it to the busy queue and rings the doorbell, in this order.
pub proof fn law_commands_are_posted_last(send: CommandSend, trigger: u32, word: Seq<u8>)
    requires
        send.wf(),
        send.state == SendState::Poll,
        word.len() == 4,
        codec::u32_at(word, 0) != 0,
        codec::u32_at(word, 0) != 0xaaaa_aaaa,
    ensures
        ({
            let buffer = codec::u32_at(word, 0);
            let register = |address: u32, value: u32|
                Some(RpuRequest::WriteWord { processor: Processor::Lmac, address, value });
            let claim = send.after(Some(word))->Continue_0;
            let payload = claim.after(Some(seq![]))->Continue_0;
            let post = payload.after(Some(seq![]))->Continue_0;
            let ring = post.after(Some(seq![]))->Continue_0;
            let count = if send.len - send.sent < send.fragment_len {
                send.len - send.sent
            } else {
                send.fragment_len as int
            };
            &&& send.next(trigger) == Some(
                RpuRequest::Read {
                    processor: Processor::Lmac,
                    address: send.free_register,
                    len: 4,
                },
            )
            &&& claim.next(trigger) == register(send.free_register, buffer)
            &&& payload.next(trigger) == Some(
                RpuRequest::WriteFrom {
                    processor: Processor::Umac,
                    address: buffer,
                    start: send.sent,
                    len: count as usize,
                },
            )
            &&& post.next(trigger) == register(send.busy_register, buffer)
            &&& ring.next(trigger) == register(0xa400_0480, trigger)
            &&& ring.state == SendState::Trigger && ring.sent == send.sent
        }),
{
}

/// An empty queue is polled again after a pause while attempts are left; then a
/// command that has not started timed out, and one that has is in doubt. A queue
/// that shows the sentinel is in doubt at once.
pub proof fn law_empty_queues_are_polled_again(send: CommandSend, word: Seq<u8>, trigger: u32)
    requires
        send.wf(),
        word.len() == 4,
    ensures
        send.state == SendState::Poll && codec::u32_at(word, 0) == 0 && !send.waits ==> send.after(
            Some(word),
        ) == SendOutcome::Empty,
        send.state == SendState::Poll && codec::u32_at(word, 0) == 0 && send.waits ==> (send.after(
            Some(word),
        ) matches SendOutcome::Continue(next) && next.left == send.left - 1 && next.sent
            == send.sent && next.next(trigger) == Some(RpuRequest::Delay { ms: send.delay_ms })),
        send.state == SendState::Poll && codec::u32_at(word, 0) == 0xaaaa_aaaa ==> send.after(
            Some(word),
        ) == SendOutcome::Uncertain,
        send.state == SendState::Pause && send.left > 0 ==> (send.after(Some(seq![]))
            matches SendOutcome::Continue(next) && next.state == SendState::Poll && next.left
            == send.left),
        send.state == SendState::Pause && send.left == 0 && send.sent == 0 ==> send.after(
            Some(seq![]),
        ) == SendOutcome::TimedOut,
        send.state == SendState::Pause && send.left == 0 && send.sent > 0 ==> send.after(
            Some(seq![]),
        ) == SendOutcome::Uncertain,
{
}

/// A delivery takes its buffers from the available command queue, hands them to the
/// busy one and starts at the first byte; it waits only when it is asked to.
pub proof fn law_deliveries_use_the_command_queues<B, E>(
    device: Device<B>,
    message: Seq<u8>,
    attempts: u16,
    delay_ms: u32,
)
    ensures
        ({
            let complete = 12 <= message.len() <= 2048 && codec::u32_at(message, 0)
                == message.len();
            let waiting = device.waiting_delivery::<E>(message, attempts, delay_ms);
            let single = device.single_delivery::<E>(message);
            &&& !complete ==> waiting == Err::<CommandSend, DeviceError<E>>(
                DeviceError::Protocol(ProtocolError::InvalidLength),
            ) && single == waiting
            &&& complete && device.recovery_required ==> waiting == Err::<
                CommandSend,
                DeviceError<E>,
            >(DeviceError::RecoveryRequired) && single == waiting
            &&& waiting is Ok <==> complete && !device.recovery_required && attempts > 0
                && device.queues is Some
            &&& single is Ok <==> complete && !device.recovery_required && message.len()
                <= device.command_fragment_len && device.queues is Some
            &&& waiting matches Ok(send) ==> {
                &&& send.len == message.len() && send.sent == 0
                &&& send.free_register == device.queues->0.command_available.dequeue_address
                &&& send.busy_register == device.queues->0.command_busy.enqueue_address
                &&& send.fragment_len == device.command_fragment_len
                &&& send.attempts == attempts && send.left == attempts && send.delay_ms == delay_ms
                &&& send.waits && send.state == SendState::Poll
            }
            &&& single matches Ok(send) ==> {
                &&& send.len == message.len() && send.sent == 0
                &&& send.free_register == device.queues->0.command_available.dequeue_address
                &&& send.busy_register == device.queues->0.command_busy.enqueue_address
                &&& !send.waits && send.state == SendState::Poll
            }
        }),
{
}

/// Every doorbell carries the count of the commands before it, under the fixed
/// trigger bits, and the count wraps around.
pub proof fn law_triggers_count_commands<B>(device: Device<B>)
    ensures
        device.trigger_value() == device.command_counter | 0x7fff_0000,
        next_counter(device.command_counter) == (device.command_counter + 1) % 0x1_0000_0000,
{
}

/// A fresh event is read from the busy event queue; its header announces the length
/// in bytes 0 to 4 and in bytes 4 to 8 whether its buffer is to be given back, and
/// an event that is too short or too long is not copied.
pub proof fn law_event_headers_announce(read: EventRead, address: u32, header: Seq<u8>)
    requires
        read.wf(),
        read.plan == EventPlan::Fresh,
        read.state == (EventState::Header { address }),
        header.len() == 12,
    ensures
        ({
            let declared = codec::u32_at(header, 0) as usize;
            let resubmit = codec::u32_at(header, 4) != 0;
            let after = read.after(header)->Continue_0;
            let first = if read.fragment_len < declared {
                read.fragment_len
            } else {
                declared
            };
            &&& read.next() == (RpuRequest::Read { processor: Processor::Umac, address, len: 12 })
            &&& read.after(header) is Continue
            &&& after.plan is Short <==> declared < 12
            &&& after.plan is Oversized <==> declared >= 12 && declared > read.capacity
            &&& after.plan is Take <==> 12 <= declared <= read.capacity
            &&& after.plan is Take ==> after.next() == (RpuRequest::ReadInto {
                processor: Processor::Umac,
                address,
                start: 0,
                len: first,
            })
            &&& !(after.plan is Take) && resubmit ==> after.next() == (RpuRequest::WriteWord {
                processor: Processor::Lmac,
                address: read.free_register,
                value: address,
            })
            &&& !(after.plan is Take) && !resubmit ==> after.next() == acknowledgement()
            &&& match after.plan {
                EventPlan::Take(event) => event.declared == declared && event.resubmit == resubmit,
                EventPlan::Short(event) => event.declared == declared && event.resubmit
                    == resubmit,
                EventPlan::Oversized(event) => event.declared == declared && event.resubmit
                    == resubmit,
                _ => false,
            }
        }),
{
}

/// An event buffer is polled from the busy event queue and claimed there before it
/// is read; an empty queue leaves the device idle and the sentinel is an error.
pub proof fn law_events_are_claimed_first(read: EventRead, word: Seq<u8>)
    requires
        read.wf(),
        read.state == EventState::Poll,
        read.plan == EventPlan::Fresh,
        word.len() == 4,
    ensures
        ({
            let address = codec::u32_at(word, 0);
            let claim = read.after(word)->Continue_0;
            let header = claim.after(seq![])->Continue_0;
            &&& read.next() == (RpuRequest::Read {
                processor: Processor::Lmac,
                address: read.busy_register,
                len: 4,
            })
            &&& address == 0 ==> read.after(word) == EventOutcome::Waiting(None)
            &&& address == 0xaaaa_aaaa ==> read.after(word) == EventOutcome::Corrupt
            &&& address != 0 && address != 0xaaaa_aaaa ==> {
                &&& read.after(word) is Continue && claim.after(seq![]) is Continue
                &&& claim.next() == (RpuRequest::WriteWord {
                    processor: Processor::Lmac,
                    address: read.busy_register,
                    value: address,
                })
                &&& header.state == (EventState::Header { address })
            }
        }),
{
}

/// A taken event is complete when its first fragment holds all of it; a longer one
/// waits for the rest in the same storage, and one that does not fit is skipped to
/// its end.
pub proof fn law_acknowledged_events<B, E>(
    read: EventRead,
    device: Device<B>,
    after: Device<B>,
    capacity: usize,
    scratch_address: usize,
    result: Result<EventRead, DeviceError<E>>,
)
    requires
        Device::read_started(device, after, capacity, scratch_address, result),
    ensures
        result matches Ok(started) ==> {
            &&& started.busy_register == device.queues->0.event_busy.dequeue_address
            &&& started.free_register == device.queues->0.event_available.enqueue_address
            &&& started.capacity == capacity && started.scratch_address == scratch_address
            &&& started.fragment_len == device.event_fragment_len
            &&& started.state == EventState::Poll && !started.removed
            &&& device.pending_event is None ==> started.plan == EventPlan::Fresh
            &&& device.pending_event matches Some(pending) ==> started.plan == EventPlan::Drain(
                pending,
            ) && (pending.discard || (pending.scratch_address == scratch_address
                && pending.declared <= capacity))
        },
        result is Ok ==> !device.recovery_required && device.queues is Some && after == device,
        read.plan matches EventPlan::Take(event) ==> match read.acknowledged() {
            EventOutcome::Complete(len) => len == event.declared && event.first_count
                == event.declared,
            EventOutcome::Waiting(Some(pending)) => pending.declared == event.declared
                && pending.copied == event.first_count && pending.resubmit == event.resubmit
                && pending.scratch_address == read.scratch_address && !pending.discard
                && event.first_count != event.declared,
            _ => false,
        },
        read.plan matches EventPlan::Oversized(event) ==> (read.acknowledged()
            matches EventOutcome::TooLarge { declared, pending } && declared == event.declared && (
        pending is Some <==> event.first_count < event.declared) && (pending matches Some(rest)
            ==> rest.discard && rest.declared == event.declared && rest.copied
            == event.first_count && rest.resubmit == event.resubmit)),
        read.plan is Short ==> read.acknowledged() == EventOutcome::Invalid,
{
}

/// Fragments hold a header at least, and no more than 400 bytes of a command or
/// 1000 of an event.
pub proof fn law_fragment_limits(command_len: usize, event_len: usize)
    ensures
        fragment_limits(command_len, event_len) <==> 12 <= command_len <= 400 && 12 <= event_len
            <= 1000,
{
}

/// A command that goes on counts each doorbell; one that is in doubt asks for
/// recovery, and one that was not started leaves the device as it was.
pub proof fn law_send_progress<B, E>(
    before: Device<B>,
    after: Device<B>,
    from: CommandSend,
    to: CommandSend,
    reply: Result<&[u8], RpuError<E>>,
    result: Result<(), DeviceError<E>>,
)
    requires
        Device::send_resumed(before, after, from, to, reply, result),
        from.wf(),
    ensures
        reply is Err ==> result == Err::<(), DeviceError<E>>(DeviceError::CommandDeliveryUncertain)
            && after.recovery_required,
        result == Err::<(), DeviceError<E>>(DeviceError::CommandDeliveryUncertain)
            ==> after.recovery_required,
        result is Err && result != Err::<(), DeviceError<E>>(
            DeviceError::CommandDeliveryUncertain,
        ) ==> after == before,
        result is Ok ==> after.recovery_required == before.recovery_required && after.queues
            == before.queues && after.pending_event == before.pending_event,
        result is Ok && from.state == SendState::Trigger ==> after.command_counter == (
        before.command_counter + 1) % 0x1_0000_0000 && from.sent < to.sent <= from.len && (to.sent
            == from.len || to.sent == from.sent + from.fragment_len),
        result is Ok && from.state != SendState::Trigger ==> after.command_counter
            == before.command_counter && to.sent == from.sent,
{
}

/// Reading an event changes the device only by the event that is still to be read:
/// none once it is complete, the rest while it waits or is skipped.
pub proof fn law_event_progress<B, E>(
    before: Device<B>,
    after: Device<B>,
    from: EventRead,
    to: EventRead,
    reply: Result<&[u8], RpuError<E>>,
    result: Result<EventProgress, DeviceError<E>>,
)
    requires
        Device::event_resumed(before, after, from, to, reply, result),
    ensures
        after == (Device { pending_event: after.pending_event, ..before }),
        result matches Ok(EventProgress::Complete(len)) ==> after.pending_event is None && len
            <= from.capacity,
        reply matches Err(error) ==> after == before && result == Err::<
            EventProgress,
            DeviceError<E>,
        >(DeviceError::Rpu(error)),
        result matches Err(DeviceError::EventTooLarge { declared, capacity }) ==> capacity
            == from.capacity,
        result matches Err(DeviceError::InvalidQueueMap) ==> after == before,
{
}

/// A single-shot command is encoded at the start of its buffer and sent from there.
pub proof fn law_single_commands_are_sent_from_their_buffer<B, E>(
    device: Device<B>,
    result: Result<CommandSend, DeviceError<E>>,
    before: Seq<u8>,
    after: Seq<u8>,
    message: Seq<u8>,
    fault: Option<ProtocolError>,
)
    requires
        started_single(device, result, before, after, message, fault),
        message.len() <= before.len(),
    ensures
        result matches Ok(send) ==> fault is None && send.len == message.len() && send.sent == 0
            && after.subrange(0, message.len() as int) == message && !send.waits
            && send.attempts == 1 && send.delay_ms == 0 && send.fragment_len
            == device.command_fragment_len
            && message.len() <= device.command_fragment_len && !device.recovery_required,
        fault matches Some(error) ==> after == before && result == Err::<
            CommandSend,
            DeviceError<E>,
        >(DeviceError::Protocol(error)),
{
    assert((message + before.skip(message.len() as int)).subrange(0, message.len() as int)
        =~= message);
}

/// A scan that fits its wire fields also fits a control message.
pub proof fn law_scans_fit_control_messages(request: ScanRequest<'_>)
    ensures
        scan_fault(request) is None <==> request.within_limits(),
        !request.within_limits() ==> scan_fault(request) == Some(ProtocolError::LimitExceeded),
{
}

/// The device encodes the command that it is asked for: a system-init message, or the
/// UMAC command with its own code for the named interface.
pub proof fn law_device_commands_name_themselves<B, E>(
    device: &Device<B>,
    config: &SystemInitConfig,
    wdev_id: u32,
    mac_address: [u8; 6],
    interface_name: &[u8],
    request: &ScanRequest<'_>,
    reason: ScanReason,
    reason_code: u16,
    local: bool,
    send: CommandSend,
)
    ensures
        forall|message: &mut [u8; 128]| #[trigger]
            call_ensures(
                Device::<B>::add_station_interface::<E>,
                (device, message, wdev_id, mac_address, interface_name),
                Ok::<CommandSend, DeviceError<E>>(send),
            ) ==> protocol::names_command(final(message)@, 15, wdev_id),
        forall|message: &mut [u8; MAX_CONTROL_MESSAGE_LEN]| #[trigger]
            call_ensures(
                Device::<B>::start_scan::<E>,
                (device, message, wdev_id, request),
                Ok::<CommandSend, DeviceError<E>>(send),
            ) ==> protocol::names_command(final(message)@, 0, wdev_id) && !send.waits,
        forall|message: &mut [u8; MAX_CONTROL_MESSAGE_LEN]| #[trigger]
            call_ensures(
                Device::<B>::start_scan_reliable::<E>,
                (device, message, wdev_id, request),
                Ok::<CommandSend, DeviceError<E>>(send),
            ) ==> protocol::names_command(final(message)@, 0, wdev_id) && send.waits
                && send.attempts == 1000 && send.delay_ms == 1,
        forall|message: &mut [u8; 96]| #[trigger]
            call_ensures(
                Device::<B>::get_scan_results::<E>,
                (device, message, wdev_id, reason),
                Ok::<CommandSend, DeviceError<E>>(send),
            ) ==> protocol::names_command(final(message)@, 1, wdev_id) && final(message)@.subrange(
                48,
                52,
            ) == codec::le32(
                if reason is Display {
                    0
                } else {
                    1
                },
            ),
        forall|message: &mut [u8; 96]| #[trigger]
            call_ensures(
                Device::<B>::deauthenticate::<E>,
                (device, message, wdev_id, mac_address, reason_code, local),
                Ok::<CommandSend, DeviceError<E>>(send),
            ) ==> protocol::names_command(final(message)@, 4, wdev_id),
{
    broadcast use {crate::codec::group_image_lengths, protocol::lemma_written_command};

}

/// A buffered event that the caller gives up is skipped to its end, and reading it
/// into other storage is refused.
pub proof fn law_buffered_events_keep_their_storage(
    pending: PendingEvent,
    capacity: usize,
    scratch_address: usize,
)
    ensures
        pending.discarded().discard,
        pending.discarded().declared == pending.declared && pending.discarded().copied
            == pending.copied && pending.discarded().resubmit == pending.resubmit,
        pending.discarded().scratch_address == 0,
        !pending.discarded().buffer_changed(capacity, scratch_address),
        !pending.discard ==> (pending.buffer_changed(capacity, scratch_address)
            <==> pending.scratch_address != scratch_address || capacity < pending.declared),
{
}

} // verus!
