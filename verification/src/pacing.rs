//! The loop that sends one chunk of data per timer tick.
//!
//! For each chunk the loop fills the descriptor, hands its address to the
//! DMA engine and enables the channel, starts a timer and sleeps until an
//! interrupt wakes it, and disables the channel again. [`Pacer::step`] makes
//! the decisions of that loop. Its caller carries out the actions that a
//! step returns, in their order, and reports back with the next event.

use vstd::prelude::*;
use crate::dmac::AddressMode;
use crate::dmac::BModeSel;
use crate::dmac::BlockSize;
use crate::dmac::DataWidth;
use crate::dmac::Descriptor;
use crate::dmac::DescriptorAddress;
use crate::dmac::DescriptorConfig;
use crate::dmac::DescriptorView;
use crate::dmac::DestDrqType;
use crate::dmac::SrcDrqType;
use crate::dmac::ADDRESS_LIMIT;
use crate::dmac::BYTE_COUNTER_LIMIT;
use crate::timer::start_accesses;
use crate::timer::Timer;
use crate::timer::TimerAccess;
use crate::timer::TimerUnit;

verus! {

/// Bytes in memory that one transfer sends.
#[derive(Clone, Copy, PartialEq, Eq, Debug)]
pub struct Chunk {
    pub address: u64,
    pub length: usize,
}

impl Chunk {
    /// The chunk can be written into a descriptor.
    pub open spec fn fits(self) -> bool {
        self.address < ADDRESS_LIMIT && self.length < BYTE_COUNTER_LIMIT
    }
}

/// Where the loop stands.
#[derive(Clone, Copy, PartialEq, Eq, Debug)]
pub enum PacingState {
    /// No transfer is under way; the next chunk is awaited.
    Idle,
    /// The descriptor is being written to memory.
    Configuring,
    /// The engine is being told of the descriptor and the channel enabled.
    Armed,
    /// The timer is being started and the processor put to sleep.
    WaitingForInterrupt,
    /// The channel is being disabled.
    Disarming,
    /// The loop has stopped for good.
    Done,
}

/// What the caller reports to the loop.
#[derive(Clone, Copy, PartialEq, Eq, Debug)]
pub enum PacingEvent {
    /// There is a further chunk to send.
    Chunk(Chunk),
    /// There is no further chunk.
    Exhausted,
    /// The actions of the last step have been carried out; after
    /// [`Action::WaitForInterrupt`] this says that an interrupt has woken
    /// the processor.
    Performed,
}

/// One thing for the caller to do to the hardware.
#[derive(Clone, Copy, PartialEq, Eq, Debug)]
pub enum Action {
    /// Write these six words to the memory of the descriptor.
    StoreDescriptor([u32; 6]),
    /// Let no memory access move across this point.
    Fence,
    /// Write the two parts of the descriptor's address to the channel's
    /// descriptor-address register.
    SetDescriptorAddress(DescriptorAddress),
    /// Enable the DMA channel.
    EnableChannel,
    /// Carry out this access to a timer.
    Timer(TimerAccess),
    /// Put the processor to sleep until an interrupt arrives.
    WaitForInterrupt,
    /// Disable the DMA channel.
    DisableChannel,
    /// Stop for good.
    Halt,
}

/// An [`Action`] with the words of a descriptor as a sequence.
pub enum ActionView {
    StoreDescriptor(Seq<u32>),
    Fence,
    SetDescriptorAddress(DescriptorAddress),
    EnableChannel,
    Timer(TimerAccess),
    WaitForInterrupt,
    DisableChannel,
    Halt,
}

impl View for Action {
    type V = ActionView;

    open spec fn view(&self) -> ActionView {
        match *self {
            Action::StoreDescriptor(words) => ActionView::StoreDescriptor(words@),
            Action::Fence => ActionView::Fence,
            Action::SetDescriptorAddress(parts) => ActionView::SetDescriptorAddress(parts),
            Action::EnableChannel => ActionView::EnableChannel,
            Action::Timer(access) => ActionView::Timer(access),
            Action::WaitForInterrupt => ActionView::WaitForInterrupt,
            Action::DisableChannel => ActionView::DisableChannel,
            Action::Halt => ActionView::Halt,
        }
    }
}

/// The actions of a step, each by its view.
pub open spec fn views(actions: Seq<Action>) -> Seq<ActionView> {
    Seq::new(actions.len(), |i: int| actions[i]@)
}

/// Why a loop cannot be set up.
#[derive(Clone, Copy, PartialEq, Eq, Debug)]
pub enum PacingError {
    /// The destination does not fit in 34 bits.
    DestinationOutOfRange(u64),
    /// The address of the descriptor does not fit in 34 bits, or is no
    /// multiple of four.
    DescriptorMisplaced(u64),
}

/// The transfer of `byte_counter` bytes from memory at `source` to a serial
/// port's transmit register at `destination`: bytes one by one, through
/// rising addresses in memory and always to the same address at the port.
pub open spec fn spec_transmit_config(
    source: u64,
    destination: u64,
    byte_counter: usize,
) -> DescriptorConfig {
    DescriptorConfig {
        source: source,
        destination: destination,
        byte_counter: byte_counter,
        link: None,
        wait_clock_cycles: 0,
        bmode: BModeSel::Normal,
        dest_width: DataWidth::Bit8,
        dest_addr_mode: AddressMode::IoMode,
        dest_block_size: BlockSize::Byte1,
        dest_drq_type: DestDrqType::Uart0Tx,
        src_data_width: DataWidth::Bit8,
        src_addr_mode: AddressMode::LinearMode,
        src_block_size: BlockSize::Byte1,
        src_drq_type: SrcDrqType::Dram,
    }
}

/// The transfer of `byte_counter` bytes from memory at `source` to the
/// transmit register of the first serial port at `destination`.
#[verifier::when_used_as_spec(spec_transmit_config)]
pub fn transmit_config(source: u64, destination: u64, byte_counter: usize) -> (config:
    DescriptorConfig)
    ensures
        config == spec_transmit_config(source, destination, byte_counter),
        config.configuration() == 0x010E_0001,
{
    DescriptorConfig {
        source: source,
        destination: destination,
        byte_counter: byte_counter,
        link: None,
        wait_clock_cycles: 0,
        bmode: BModeSel::Normal,
        dest_width: DataWidth::Bit8,
        dest_addr_mode: AddressMode::IoMode,
        dest_block_size: BlockSize::Byte1,
        dest_drq_type: DestDrqType::Uart0Tx,
        src_data_width: DataWidth::Bit8,
        src_addr_mode: AddressMode::LinearMode,
        src_block_size: BlockSize::Byte1,
        src_drq_type: SrcDrqType::Dram,
    }
}

/// What a pacing loop holds.
pub struct PacerView {
    pub state: PacingState,
    pub descriptor: DescriptorView,
    pub destination: u64,
    pub descriptor_address: DescriptorAddress,
    pub interval: u32,
}

impl PacerView {
    /// The descriptor once it describes the transfer of `chunk`: every
    /// field but the reserved bits of `parameter` is written anew.
    pub open spec fn configured(self, chunk: Chunk) -> DescriptorView {
        DescriptorView {
            configuration: transmit_config(
                chunk.address,
                self.destination,
                chunk.length,
            ).configuration(),
            source: chunk.address,
            destination: self.destination,
            byte_counter: chunk.length as u32,
            reserved: self.descriptor.reserved,
            link: crate::dmac::END_OF_CHAIN,
        }
    }

    /// Both addresses of the transfer of `chunk` fit in 34 bits, and its
    /// length in the byte counter.
    pub open spec fn accepts(self, chunk: Chunk) -> bool {
        chunk.fits() && self.destination < ADDRESS_LIMIT
    }

    /// The loop after a step on `event`. A chunk that cannot be written
    /// into a descriptor, and an event that the state does not await, stop
    /// the loop, as does the end of the chunks.
    pub open spec fn next(self, event: PacingEvent) -> PacerView {
        match (self.state, event) {
            (PacingState::Idle, PacingEvent::Chunk(chunk)) => if self.accepts(chunk) {
                PacerView {
                    state: PacingState::Configuring,
                    descriptor: self.configured(chunk),
                    ..self
                }
            } else {
                PacerView { state: PacingState::Done, ..self }
            },
            (PacingState::Configuring, PacingEvent::Performed) => PacerView {
                state: PacingState::Armed,
                ..self
            },
            (PacingState::Armed, PacingEvent::Performed) => PacerView {
                state: PacingState::WaitingForInterrupt,
                ..self
            },
            (PacingState::WaitingForInterrupt, PacingEvent::Performed) => PacerView {
                state: PacingState::Disarming,
                ..self
            },
            (PacingState::Disarming, PacingEvent::Performed) => PacerView {
                state: PacingState::Idle,
                ..self
            },
            _ => PacerView { state: PacingState::Done, ..self },
        }
    }

    /// The actions that a step on `event` asks for, for a loop that is
    /// timed by `unit`.
    pub open spec fn actions(self, unit: TimerUnit, event: PacingEvent) -> Seq<ActionView> {
        match (self.state, event) {
            (PacingState::Idle, PacingEvent::Chunk(chunk)) => if self.accepts(chunk) {
                seq![ActionView::StoreDescriptor(self.configured(chunk).words())]
            } else {
                seq![ActionView::Halt]
            },
            (PacingState::Configuring, PacingEvent::Performed) => seq![
                ActionView::Fence,
                ActionView::SetDescriptorAddress(self.descriptor_address),
                ActionView::EnableChannel,
                ActionView::Fence,
            ],
            (PacingState::Armed, PacingEvent::Performed) => seq![
                ActionView::Timer(start_accesses(unit, self.interval)[0]),
                ActionView::Timer(start_accesses(unit, self.interval)[1]),
                ActionView::WaitForInterrupt,
            ],
            (PacingState::WaitingForInterrupt, PacingEvent::Performed) => seq![
                ActionView::DisableChannel,
            ],
            (PacingState::Disarming, PacingEvent::Performed) => Seq::empty(),
            _ => seq![ActionView::Halt],
        }
    }
}

/// The actions of the five steps that send one chunk, in their order: the
/// descriptor is stored once, the channel enabled once between two fences,
/// the timer started and the processor put to sleep once, and the channel
/// disabled once, after the processor has woken.
pub open spec fn chunk_actions(pacer: PacerView, unit: TimerUnit, chunk: Chunk) -> Seq<
    ActionView,
> {
    seq![
        ActionView::StoreDescriptor(pacer.configured(chunk).words()),
        ActionView::Fence,
        ActionView::SetDescriptorAddress(pacer.descriptor_address),
        ActionView::EnableChannel,
        ActionView::Fence,
        ActionView::Timer(TimerAccess::WriteInterval(unit, pacer.interval)),
        ActionView::Timer(TimerAccess::ReloadAndEnable(unit)),
        ActionView::WaitForInterrupt,
        ActionView::DisableChannel,
    ]
}

/// From an idle loop, a chunk that it accepts and four reports that the
/// actions were carried out lead back to an idle loop, through the states
/// in their order, and the actions asked for on the way are those of
/// [`chunk_actions`]. Of the loop only the descriptor has changed: it
/// describes the chunk.
pub proof fn lemma_chunk_cycle(pacer: PacerView, unit: TimerUnit, chunk: Chunk)
    requires
        pacer.state == PacingState::Idle,
        pacer.accepts(chunk),
    ensures
        ({
            let configuring = pacer.next(PacingEvent::Chunk(chunk));
            let armed = configuring.next(PacingEvent::Performed);
            let waiting = armed.next(PacingEvent::Performed);
            let disarming = waiting.next(PacingEvent::Performed);
            let idle = disarming.next(PacingEvent::Performed);
            &&& configuring.state == PacingState::Configuring
            &&& armed.state == PacingState::Armed
            &&& waiting.state == PacingState::WaitingForInterrupt
            &&& disarming.state == PacingState::Disarming
            &&& idle == (PacerView { descriptor: pacer.configured(chunk), ..pacer })
            &&& pacer.actions(unit, PacingEvent::Chunk(chunk)) + configuring.actions(
                unit,
                PacingEvent::Performed,
            ) + armed.actions(unit, PacingEvent::Performed) + waiting.actions(
                unit,
                PacingEvent::Performed,
            ) + disarming.actions(unit, PacingEvent::Performed) == chunk_actions(
                pacer,
                unit,
                chunk,
            )
        }),
{
    let configuring = pacer.next(PacingEvent::Chunk(chunk));
    let armed = configuring.next(PacingEvent::Performed);
    let waiting = armed.next(PacingEvent::Performed);
    let disarming = waiting.next(PacingEvent::Performed);
    assert(pacer.actions(unit, PacingEvent::Chunk(chunk)) + configuring.actions(
        unit,
        PacingEvent::Performed,
    ) + armed.actions(unit, PacingEvent::Performed) + waiting.actions(
        unit,
        PacingEvent::Performed,
    ) + disarming.actions(unit, PacingEvent::Performed) =~= chunk_actions(pacer, unit, chunk));
}

/// The loop stops when the chunks end, on a chunk that it does not accept
/// and on an event that its state does not await; and once stopped it stays
/// stopped, asking for nothing but to halt.
pub proof fn lemma_stops(pacer: PacerView, unit: TimerUnit, event: PacingEvent)
    ensures
        pacer.state == PacingState::Idle && event == PacingEvent::Exhausted ==> pacer.next(
            event,
        ).state == PacingState::Done,
        pacer.state == PacingState::Idle && (event matches PacingEvent::Chunk(chunk)
            && !pacer.accepts(chunk)) ==> pacer.next(event).state == PacingState::Done,
        pacer.state == PacingState::Done ==> pacer.next(event).state == PacingState::Done,
        pacer.next(event).state == PacingState::Done ==> pacer.actions(unit, event) == seq![
            ActionView::Halt,
        ] && pacer.next(event).descriptor == pacer.descriptor,
{
}

/// The pacing loop, timed by a timer of kind `T`.
pub struct Pacer<T: Timer> {
    state: PacingState,
    descriptor: Descriptor,
    timer: T,
    destination: u64,
    descriptor_address: DescriptorAddress,
    interval: u32,
}

impl<T: Timer> View for Pacer<T> {
    type V = PacerView;

    closed spec fn view(&self) -> PacerView {
        PacerView {
            state: self.state,
            descriptor: self.descriptor@,
            destination: self.destination,
            descriptor_address: self.descriptor_address,
            interval: self.interval,
        }
    }
}

impl<T: Timer> Pacer<T> {
    /// A loop that sends to `destination`, keeps its descriptor in memory at
    /// `descriptor_address` and gives each transfer `interval` ticks of
    /// `timer`. It starts idle, with a descriptor of zeros.
    pub fn new(timer: T, destination: u64, descriptor_address: u64, interval: u32) -> (r: Result<
        Pacer<T>,
        PacingError,
    >)
        ensures
            destination >= ADDRESS_LIMIT ==> r == Err::<Pacer<T>, PacingError>(
                PacingError::DestinationOutOfRange(destination),
            ),
            destination < ADDRESS_LIMIT && !(descriptor_address < ADDRESS_LIMIT
                && descriptor_address % 4 == 0) ==> r == Err::<Pacer<T>, PacingError>(
                PacingError::DescriptorMisplaced(descriptor_address),
            ),
            r is Ok <==> destination < ADDRESS_LIMIT && descriptor_address < ADDRESS_LIMIT
                && descriptor_address % 4 == 0,
            destination >= ADDRESS_LIMIT ==> r == Err::<Pacer<T>, PacingError>(
                PacingError::DestinationOutOfRange(destination),
            ),
            destination < ADDRESS_LIMIT && r is Err ==> r == Err::<Pacer<T>, PacingError>(
                PacingError::DescriptorMisplaced(descriptor_address),
            ),
            r matches Ok(pacer) ==> {
                &&& pacer@.state == PacingState::Idle
                &&& pacer@.destination == destination
                &&& pacer@.descriptor_address.address() == descriptor_address
                &&& pacer@.interval == interval
                &&& pacer@.descriptor == (DescriptorView {
                    configuration: 0,
                    source: 0,
                    destination: 0,
                    byte_counter: 0,
                    reserved: 0,
                    link: 0,
                })
            },
    {
        if destination >= ADDRESS_LIMIT {
            return Err(PacingError::DestinationOutOfRange(destination));
        }
        match DescriptorAddress::new(descriptor_address) {
            Some(parts) => Ok(
                Pacer {
                    state: PacingState::Idle,
                    descriptor: Descriptor::new(),
                    timer: timer,
                    destination: destination,
                    descriptor_address: parts,
                    interval: interval,
                },
            ),
            None => Err(PacingError::DescriptorMisplaced(descriptor_address)),
        }
    }

    /// Where the loop stands.
    pub fn state(&self) -> (state: PacingState)
        ensures
            state == self@.state,
    {
        self.state
    }

    /// The descriptor as the loop last filled it.
    pub fn descriptor(&self) -> (descriptor: &Descriptor)
        ensures
            descriptor@ == self@.descriptor,
    {
        &self.descriptor
    }

    /// Writes `chunk` into the descriptor, field by field, and ends its
    /// chain.
    fn configure(&mut self, chunk: Chunk)
        requires
            chunk.fits(),
            old(self)@.destination < ADDRESS_LIMIT,
        ensures
            final(self)@ == (PacerView { descriptor: old(self)@.configured(chunk), ..old(self)@ }),
    {
        let config = transmit_config(chunk.address, self.destination, chunk.length);
        self.descriptor.set_source(chunk.address);
        self.descriptor.set_dest(self.destination);
        let counted = self.descriptor.set_byte_counter(chunk.length);
        assert(counted is Ok);
        self.descriptor.set_configuration(config.configuration());
        self.descriptor.end_link();
    }

    /// Takes the loop one step on: the new state is [`PacerView::next`] of
    /// the old one, and the actions returned are [`PacerView::actions`], for
    /// the caller to carry out in their order before the next step.
    pub fn step(&mut self, event: PacingEvent) -> (actions: Vec<Action>)
        ensures
            final(self)@ == old(self)@.next(event),
            views(actions@) == old(self)@.actions(T::spec_unit(), event),
    {
        let mut actions: Vec<Action> = Vec::new();
        match (self.state, event) {
            (PacingState::Idle, PacingEvent::Chunk(chunk)) => {
                if chunk.address < ADDRESS_LIMIT && chunk.length < BYTE_COUNTER_LIMIT as usize
                    && self.destination < ADDRESS_LIMIT {
                    self.configure(chunk);
                    self.state = PacingState::Configuring;
                    actions.push(Action::StoreDescriptor(self.descriptor.words()));
                } else {
                    self.state = PacingState::Done;
                    actions.push(Action::Halt);
                }
            },
            (PacingState::Configuring, PacingEvent::Performed) => {
                self.state = PacingState::Armed;
                actions.push(Action::Fence);
                actions.push(Action::SetDescriptorAddress(self.descriptor_address));
                actions.push(Action::EnableChannel);
                actions.push(Action::Fence);
            },
            (PacingState::Armed, PacingEvent::Performed) => {
                self.state = PacingState::WaitingForInterrupt;
                let start = self.timer.start_counter(self.interval);
                actions.push(Action::Timer(start[0]));
                actions.push(Action::Timer(start[1]));
                actions.push(Action::WaitForInterrupt);
            },
            (PacingState::WaitingForInterrupt, PacingEvent::Performed) => {
                self.state = PacingState::Disarming;
                actions.push(Action::DisableChannel);
            },
            (PacingState::Disarming, PacingEvent::Performed) => {
                self.state = PacingState::Idle;
            },
            _ => {
                self.state = PacingState::Done;
                actions.push(Action::Halt);
            },
        }
        assert(views(actions@) =~= old(self)@.actions(T::spec_unit(), event));
        actions
    }
}

} // verus!
