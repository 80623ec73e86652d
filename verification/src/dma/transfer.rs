//! Transfers in flight: what the controller holds while it works, and how
//! the program gets it back.

use vstd::prelude::*;
use core::marker::PhantomData;
use crate::barrier::fence;
use crate::bits::{bit, with_bit};
use crate::dma::control::{enabled, with_enable, Control, Direction, Priority, Width, ENABLE};
use crate::dma::{
    clear, clear_word, flags, flags_of, Buffer, CircBuffer, CircState, DmaChannel, Error, Flag,
    Flags, State, Window,
};

verus! {

/// Marks a transfer from the peripheral to memory.
pub struct R;

/// Marks a transfer from memory to the peripheral.
pub struct W;

/// What a driver asks of a channel.
#[derive(Clone, Copy, Debug, PartialEq, Eq, Structural)]
pub struct Request {
    /// Address of the peripheral's data register
    pub peripheral_address: u32,
    /// Address of the first item in memory
    pub memory_address: u32,
    /// Number of items to move
    pub count: u16,
    /// Size of one item, at both ends
    pub width: Width,
    /// The channel's priority
    pub priority: Priority,
}

/// What is to be written to the channel's registers to start a transfer:
/// the two addresses and the count in any order, the control word last.
#[derive(Clone, Copy, Debug, PartialEq, Eq, Structural)]
pub struct Setup {
    /// For the peripheral address register
    pub peripheral_address: u32,
    /// For the memory address register
    pub memory_address: u32,
    /// For the transfer count register
    pub count: u16,
    /// For the control register
    pub control: u32,
}

/// A register of a channel.
#[derive(Clone, Copy, Debug, PartialEq, Eq, Structural)]
pub enum Register {
    /// The peripheral address register
    PeripheralAddress,
    /// The memory address register
    MemoryAddress,
    /// The transfer count register
    Count,
    /// The control register
    Control,
}

impl Setup {
    /// The writes that start the transfer, in order: the addresses and the
    /// count must be in place before the control word enables the channel,
    /// so the control register comes last.
    pub open spec fn sequence(self) -> Seq<(Register, u32)> {
        seq![
            (Register::PeripheralAddress, self.peripheral_address),
            (Register::MemoryAddress, self.memory_address),
            (Register::Count, self.count as u32),
            (Register::Control, self.control),
        ]
    }

    /// The registers to write and what to write to each, in order.
    pub fn writes(&self) -> (writes: [(Register, u32); 4])
        ensures
            writes@ == self.sequence(),
    {
        let writes = [
            (Register::PeripheralAddress, self.peripheral_address),
            (Register::MemoryAddress, self.memory_address),
            (Register::Count, self.count as u32),
            (Register::Control, self.control),
        ];
        assert(writes@ =~= self.sequence());
        writes
    }
}

/// What is to be written to end a transfer that is complete: first the
/// flag is cleared, then the channel disabled.
#[derive(Clone, Copy, Debug, PartialEq, Eq, Structural)]
pub struct Teardown {
    /// For the interrupt flag clear register
    pub acknowledge: u32,
    /// For the channel's control register
    pub control: u32,
}

/// A transfer that was not started, with everything that was offered for it.
pub struct Rejected<CHANNEL, BUFFER, PAYLOAD> {
    /// Why it was not started
    pub error: Error,
    /// The channel
    pub channel: CHANNEL,
    /// The buffer, as it was
    pub buffer: BUFFER,
    /// The peripheral's driver
    pub payload: PAYLOAD,
}

/// The control setting of a transfer: the channel enabled, the memory
/// address advancing and the peripheral address fixed, no interrupts.
pub open spec fn setting(direction: Direction, circular: bool, request: Request) -> Control {
    Control {
        enable: true,
        transfer_complete_interrupt: false,
        half_transfer_interrupt: false,
        transfer_error_interrupt: false,
        direction,
        circular,
        peripheral_increment: false,
        memory_increment: true,
        peripheral_width: request.width,
        memory_width: request.width,
        priority: request.priority,
        memory_to_memory: false,
    }
}

/// The register values that start what `request` asks for.
pub open spec fn setup(direction: Direction, circular: bool, request: Request) -> Setup {
    Setup {
        peripheral_address: request.peripheral_address,
        memory_address: request.memory_address,
        count: request.count,
        control: setting(direction, circular, request).word(),
    }
}

fn program(direction: Direction, circular: bool, request: Request) -> (values: Setup)
    ensures
        values == setup(direction, circular, request),
        bit(values.control, ENABLE),
{
    let control = Control {
        enable: true,
        transfer_complete_interrupt: false,
        half_transfer_interrupt: false,
        transfer_error_interrupt: false,
        direction,
        circular,
        peripheral_increment: false,
        memory_increment: true,
        peripheral_width: request.width,
        memory_width: request.width,
        priority: request.priority,
        memory_to_memory: false,
    };
    proof {
        control.lemma_word_reads_back();
    }
    Setup {
        peripheral_address: request.peripheral_address,
        memory_address: request.memory_address,
        count: request.count,
        control: control.encode(),
    }
}

/// What polling a one-shot transfer answers when the channel's flags are
/// `flags`: a transfer error whatever else is set, and else whether the
/// transfer is complete.
pub open spec fn done_answer(flags: Flags) -> Result<bool, Error> {
    if flags.transfer_error {
        Err(Error::Transfer)
    } else {
        Ok(flags.transfer_complete)
    }
}

/// A one-shot DMA transfer in flight.
///
/// It holds the channel, the buffer and the peripheral's driver for as long
/// as the controller works, and only `wait` gives them back.
pub struct Transfer<MODE, CHANNEL, T, PAYLOAD> {
    _mode: PhantomData<MODE>,
    channel: CHANNEL,
    buffer: Buffer<T, CHANNEL>,
    payload: PAYLOAD,
    control: u32,
}

/// What one look at a transfer comes to.
pub enum Wait<MODE, CHANNEL, T, PAYLOAD> {
    /// The controller is still at work: look again.
    Pending(Transfer<MODE, CHANNEL, T, PAYLOAD>),
    /// The transfer is complete. Everything is handed back, the buffer
    /// unlocked, with what is to be written to the registers.
    Done {
        /// The channel
        channel: CHANNEL,
        /// The buffer
        buffer: Buffer<T, CHANNEL>,
        /// The peripheral's driver
        payload: PAYLOAD,
        /// What to write to clear the flag and disable the channel
        teardown: Teardown,
    },
    /// The controller has flagged a transfer error. Everything is handed
    /// back, the buffer unlocked; the channel is to be set up anew.
    Failed {
        /// The error
        error: Error,
        /// The channel
        channel: CHANNEL,
        /// The buffer
        buffer: Buffer<T, CHANNEL>,
        /// The peripheral's driver
        payload: PAYLOAD,
    },
}

impl<MODE, CHANNEL, T, PAYLOAD> Transfer<MODE, CHANNEL, T, PAYLOAD> {
    /// The transfer that holds these.
    pub closed spec fn holding(
        channel: CHANNEL,
        buffer: Buffer<T, CHANNEL>,
        payload: PAYLOAD,
        control: u32,
    ) -> Self {
        Transfer { _mode: PhantomData, channel, buffer, payload, control }
    }

    /// The channel that the transfer runs on.
    pub closed spec fn channel(self) -> CHANNEL {
        self.channel
    }

    /// The buffer that the controller works on.
    pub closed spec fn buffer(self) -> Buffer<T, CHANNEL> {
        self.buffer
    }

    /// The driver of the peripheral at the other end.
    pub closed spec fn payload(self) -> PAYLOAD {
        self.payload
    }

    /// The control word that the channel was started with.
    pub closed spec fn control(self) -> u32 {
        self.control
    }

    /// A transfer is what it holds.
    pub proof fn lemma_holding(
        channel: CHANNEL,
        buffer: Buffer<T, CHANNEL>,
        payload: PAYLOAD,
        control: u32,
    )
        ensures
            Self::holding(channel, buffer, payload, control).channel() == channel,
            Self::holding(channel, buffer, payload, control).buffer() == buffer,
            Self::holding(channel, buffer, payload, control).payload() == payload,
            Self::holding(channel, buffer, payload, control).control() == control,
    {
    }

    /// What starting a transfer answers. `current` is the channel's control
    /// word as it is now, and `locked` the state that the buffer is put in.
    /// A channel that is enabled is in use: nothing is started and
    /// everything is handed back as it came.
    pub open spec fn started(
        channel: CHANNEL,
        buffer: Buffer<T, CHANNEL>,
        payload: PAYLOAD,
        current: u32,
        request: Request,
        direction: Direction,
        locked: State,
    ) -> Result<(Self, Setup), Rejected<CHANNEL, Buffer<T, CHANNEL>, PAYLOAD>> {
        if bit(current, ENABLE) {
            Err(Rejected { error: Error::InUse, channel, buffer, payload })
        } else {
            Ok(
                (
                    Self::holding(
                        channel,
                        buffer.in_state(locked),
                        payload,
                        setup(direction, false, request).control,
                    ),
                    setup(direction, false, request),
                ),
            )
        }
    }

    /// The buffer that the controller works on: the program may read it
    /// while the controller only reads it too.
    pub fn peek(&self) -> (buffer: &Buffer<T, CHANNEL>)
        ensures
            *buffer == self.buffer(),
    {
        &self.buffer
    }
}

impl<MODE, CHANNEL: DmaChannel, T, PAYLOAD> Transfer<MODE, CHANNEL, T, PAYLOAD> {
    /// What one look at the transfer comes to when the channel's flags are
    /// `flags`.
    pub open spec fn waited(self, flags: Flags) -> Wait<MODE, CHANNEL, T, PAYLOAD> {
        match done_answer(flags) {
            Err(error) => Wait::Failed {
                error,
                channel: self.channel(),
                buffer: self.buffer().in_state(State::Unlocked),
                payload: self.payload(),
            },
            Ok(true) => Wait::Done {
                channel: self.channel(),
                buffer: self.buffer().in_state(State::Unlocked),
                payload: self.payload(),
                teardown: Teardown {
                    acknowledge: clear_word(CHANNEL::index(), Flag::TransferComplete),
                    control: with_bit(self.control(), ENABLE, false),
                },
            },
            Ok(false) => Wait::Pending(self),
        }
    }

    /// Whether the transfer is complete, given the interrupt status word
    /// `isr` just read. Nothing is changed by asking.
    pub fn is_done(&self, isr: u32) -> (answer: Result<bool, Error>)
        ensures
            answer == done_answer(flags_of(isr, CHANNEL::index())),
    {
        let seen = flags::<CHANNEL>(isr);
        if seen.transfer_error {
            Err(Error::Transfer)
        } else {
            Ok(seen.transfer_complete)
        }
    }

    /// Looks once at the transfer, given the interrupt status word `isr`
    /// just read, and ends it if the controller is done. To wait for the
    /// transfer is to call this until it no longer answers `Pending`.
    pub fn wait(self, isr: u32) -> (answer: Wait<MODE, CHANNEL, T, PAYLOAD>)
        ensures
            answer == self.waited(flags_of(isr, CHANNEL::index())),
            match answer {
                Wait::Pending(same) => same == self,
                Wait::Done { channel, buffer, payload, teardown } => {
                    &&& channel == self.channel()
                    &&& buffer@ == self.buffer()@
                    &&& buffer.state() == State::Unlocked
                    &&& payload == self.payload()
                    &&& !bit(teardown.control, ENABLE)
                },
                Wait::Failed { error, channel, buffer, payload } => {
                    &&& channel == self.channel()
                    &&& buffer@ == self.buffer()@
                    &&& buffer.state() == State::Unlocked
                    &&& payload == self.payload()
                },
            },
    {
        proof {
            self.buffer().lemma_in_state(State::Unlocked);
            crate::bits::lemma_assign_reads_back(self.control(), ENABLE, false, ENABLE);
        }
        let seen = flags::<CHANNEL>(isr);
        if seen.transfer_error {
            let Transfer { _mode, channel, buffer, payload, control } = self;
            let mut buffer = buffer;
            buffer.unlock();
            Wait::Failed { error: Error::Transfer, channel, buffer, payload }
        } else if seen.transfer_complete {
            fence();
            let Transfer { _mode, channel, buffer, payload, control } = self;
            let mut buffer = buffer;
            buffer.unlock();
            Wait::Done {
                channel,
                buffer,
                payload,
                teardown: Teardown {
                    acknowledge: clear::<CHANNEL>(Flag::TransferComplete),
                    control: with_enable(control, false),
                },
            }
        } else {
            Wait::Pending(self)
        }
    }
}

impl<CHANNEL: DmaChannel, T, PAYLOAD> Transfer<R, CHANNEL, T, PAYLOAD> {
    /// Starts a transfer from the peripheral into `buffer`, which is locked
    /// for the controller to write. `current` is the channel's control word
    /// as just read.
    pub fn start_read(
        channel: CHANNEL,
        buffer: Buffer<T, CHANNEL>,
        payload: PAYLOAD,
        current: u32,
        request: Request,
    ) -> (answer: Result<(Self, Setup), Rejected<CHANNEL, Buffer<T, CHANNEL>, PAYLOAD>>)
        requires
            buffer.state() == State::Unlocked,
        ensures
            answer == Self::started(
                channel,
                buffer,
                payload,
                current,
                request,
                Direction::FromPeripheral,
                State::MutLocked,
            ),
            answer matches Ok(begun) ==> {
                &&& begun.0.channel() == channel
                &&& begun.0.buffer()@ == buffer@
                &&& begun.0.buffer().state() == State::MutLocked
                &&& begun.0.payload() == payload
                &&& begun.0.control() == begun.1.control
                &&& bit(begun.1.control, ENABLE)
            },
    {
        proof {
            buffer.lemma_in_state(State::MutLocked);
        }
        if enabled(current) {
            return Err(Rejected { error: Error::InUse, channel, buffer, payload });
        }
        let ghost old_buffer = buffer;
        let mut buffer = buffer;
        let _ = buffer.lock_mut();
        proof {
            buffer.lemma_same_buffer(old_buffer.in_state(State::MutLocked));
        }
        let values = program(Direction::FromPeripheral, false, request);
        Ok((Transfer { _mode: PhantomData, channel, buffer, payload, control: values.control }, values))
    }
}

impl<CHANNEL: DmaChannel, T, PAYLOAD> Transfer<W, CHANNEL, T, PAYLOAD> {
    /// Starts a transfer from `buffer` to the peripheral; the buffer is
    /// locked for the controller to read. `current` is the channel's control
    /// word as just read.
    pub fn start_write(
        channel: CHANNEL,
        buffer: Buffer<T, CHANNEL>,
        payload: PAYLOAD,
        current: u32,
        request: Request,
    ) -> (answer: Result<(Self, Setup), Rejected<CHANNEL, Buffer<T, CHANNEL>, PAYLOAD>>)
        requires
            buffer.state() == State::Unlocked,
        ensures
            answer == Self::started(
                channel,
                buffer,
                payload,
                current,
                request,
                Direction::FromMemory,
                State::Locked,
            ),
            answer matches Ok(begun) ==> {
                &&& begun.0.channel() == channel
                &&& begun.0.buffer()@ == buffer@
                &&& begun.0.buffer().state() == State::Locked
                &&& begun.0.payload() == payload
                &&& begun.0.control() == begun.1.control
                &&& bit(begun.1.control, ENABLE)
            },
    {
        proof {
            buffer.lemma_in_state(State::Locked);
        }
        if enabled(current) {
            return Err(Rejected { error: Error::InUse, channel, buffer, payload });
        }
        let mut buffer = buffer;
        let _ = buffer.lock();
        let values = program(Direction::FromMemory, false, request);
        Ok((Transfer { _mode: PhantomData, channel, buffer, payload, control: values.control }, values))
    }
}

/// A transfer that was started and is then found complete gives back the
/// very channel, buffer and driver that it was started with, and the
/// control word that it hands out for the channel has the enable bit clear.
pub proof fn lemma_round_trip<MODE, CHANNEL: DmaChannel, T, PAYLOAD>(
    channel: CHANNEL,
    buffer: Buffer<T, CHANNEL>,
    payload: PAYLOAD,
    current: u32,
    request: Request,
    direction: Direction,
    locked: State,
    flags: Flags,
)
    requires
        buffer.state() == State::Unlocked,
        !bit(current, ENABLE),
        flags.transfer_complete,
        !flags.transfer_error,
    ensures
        Transfer::<MODE, CHANNEL, T, PAYLOAD>::started(
            channel,
            buffer,
            payload,
            current,
            request,
            direction,
            locked,
        ) matches Ok(begun) && (begun.0.waited(flags) matches Wait::Done {
            channel: channel_back,
            buffer: buffer_back,
            payload: payload_back,
            teardown,
        } && channel_back == channel && buffer_back == buffer && payload_back == payload && !bit(
            teardown.control,
            ENABLE,
        ) && teardown.acknowledge == clear_word(CHANNEL::index(), Flag::TransferComplete)),
{
    let control = setup(direction, false, request).control;
    crate::bits::lemma_assign_reads_back(control, ENABLE, false, ENABLE);
}

/// As long as the channel shows neither the transfer-complete nor the
/// transfer-error flag, asking whether a transfer is done answers "not yet"
/// every time, and a look at the transfer leaves it exactly as it was.
pub proof fn lemma_not_yet<MODE, CHANNEL: DmaChannel, T, PAYLOAD>(
    transfer: Transfer<MODE, CHANNEL, T, PAYLOAD>,
    first: Flags,
    second: Flags,
)
    requires
        !first.transfer_complete && !first.transfer_error,
        !second.transfer_complete && !second.transfer_error,
    ensures
        done_answer(first) == Ok::<bool, Error>(false),
        done_answer(second) == Ok::<bool, Error>(false),
        transfer.waited(first) == Wait::Pending(transfer),
        transfer.waited(first) matches Wait::Pending(same) && same.waited(second) == Wait::Pending(
            transfer,
        ),
{
}

/// While a transfer is in flight its channel is enabled, so a second start
/// on that channel, which finds the control word that the first one wrote,
/// is refused as in use: it hands back what it was offered, unchanged, and
/// asks for nothing to be written.
pub proof fn lemma_second_start_refused<MODE, CHANNEL: DmaChannel, T, PAYLOAD>(
    first: Request,
    first_direction: Direction,
    circular: bool,
    channel: CHANNEL,
    buffer: Buffer<T, CHANNEL>,
    payload: PAYLOAD,
    second: Request,
    direction: Direction,
    locked: State,
)
    ensures
        bit(setup(first_direction, circular, first).control, ENABLE),
        Transfer::<MODE, CHANNEL, T, PAYLOAD>::started(
            channel,
            buffer,
            payload,
            setup(first_direction, circular, first).control,
            second,
            direction,
            locked,
        ) == Err::<
            (Transfer<MODE, CHANNEL, T, PAYLOAD>, Setup),
            Rejected<CHANNEL, Buffer<T, CHANNEL>, PAYLOAD>,
        >(Rejected { error: Error::InUse, channel, buffer, payload }),
{
    setting(first_direction, circular, first).lemma_word_reads_back();
}

/// A circular DMA transfer: the controller fills the two halves of a buffer
/// in turn, without end, and the program reads the half that it has just
/// left.
pub struct CircTransfer<B, CHANNEL> {
    channel: CHANNEL,
    buffer: CircBuffer<B, CHANNEL>,
    control: u32,
}

impl<B, CHANNEL> CircTransfer<B, CHANNEL> {
    /// Whether the buffer is in the controller's hands, as it is from
    /// `start` to `stop`.
    pub open spec fn streaming(self) -> bool {
        self.buffer().state() != CircState::Free
    }

    /// The transfer that holds these.
    pub closed spec fn holding(channel: CHANNEL, buffer: CircBuffer<B, CHANNEL>, control: u32) -> Self {
        CircTransfer { channel, buffer, control }
    }

    /// The channel that the transfer runs on.
    pub closed spec fn channel(self) -> CHANNEL {
        self.channel
    }

    /// The buffer that the controller fills.
    pub closed spec fn buffer(self) -> CircBuffer<B, CHANNEL> {
        self.buffer
    }

    /// The channel's control word as this transfer last set it.
    pub closed spec fn control(self) -> u32 {
        self.control
    }

    /// A transfer is what it holds.
    pub proof fn lemma_holding(self)
        ensures
            self == Self::holding(self.channel(), self.buffer(), self.control()),
            forall|channel: CHANNEL, buffer: CircBuffer<B, CHANNEL>, control: u32|
                {
                    let held = #[trigger] Self::holding(channel, buffer, control);
                    held.channel() == channel && held.buffer() == buffer && held.control()
                        == control
                },
    {
    }

    /// What starting a circular transfer answers. `current` is the
    /// channel's control word as it is now. A channel that is enabled is in
    /// use: nothing is started and everything is handed back as it came.
    pub open spec fn started(
        channel: CHANNEL,
        buffer: CircBuffer<B, CHANNEL>,
        current: u32,
        request: Request,
    ) -> Result<(Self, Setup), Rejected<CHANNEL, CircBuffer<B, CHANNEL>, ()>> {
        if bit(current, ENABLE) {
            Err(Rejected { error: Error::InUse, channel, buffer, payload: () })
        } else {
            Ok(
                (
                    Self::holding(
                        channel,
                        buffer.in_state(CircState::MutatingFirstHalf),
                        setup(Direction::FromPeripheral, true, request).control,
                    ),
                    setup(Direction::FromPeripheral, true, request),
                ),
            )
        }
    }

    /// What the DMA is doing to the buffer.
    pub fn state(&self) -> (state: CircState)
        ensures
            state == self.buffer().state(),
    {
        self.buffer.state()
    }

    /// Pauses the stream: the word to write to the channel's control
    /// register, which disables the channel and changes nothing else. The
    /// buffer stays as it is.
    pub fn pause(&mut self) -> (word: u32)
        ensures
            word == with_bit(old(self).control(), ENABLE, false),
            !bit(word, ENABLE),
            *final(self) == Self::holding(old(self).channel(), old(self).buffer(), word),
            final(self).channel() == old(self).channel(),
            final(self).buffer() == old(self).buffer(),
            final(self).control() == word,
    {
        self.control = with_enable(self.control, false);
        self.control
    }

    /// Resumes the stream: the word to write to the channel's control
    /// register, which enables the channel and changes nothing else. The
    /// buffer stays as it is.
    pub fn resume(&mut self) -> (word: u32)
        ensures
            word == with_bit(old(self).control(), ENABLE, true),
            bit(word, ENABLE),
            *final(self) == Self::holding(old(self).channel(), old(self).buffer(), word),
            final(self).channel() == old(self).channel(),
            final(self).buffer() == old(self).buffer(),
            final(self).control() == word,
    {
        self.control = with_enable(self.control, true);
        self.control
    }

    /// Ends the stream and gives back the channel and the buffer, which is
    /// free again, with the word to write to the channel's control register
    /// to disable it.
    pub fn stop(self) -> (parts: (CHANNEL, CircBuffer<B, CHANNEL>, u32))
        ensures
            parts.0 == self.channel(),
            parts.1 == self.buffer().in_state(CircState::Free),
            parts.1@ == self.buffer()@,
            parts.1.state() == CircState::Free,
            parts.2 == with_bit(self.control(), ENABLE, false),
            !bit(parts.2, ENABLE),
    {
        let CircTransfer { channel, buffer, control } = self;
        let mut buffer = buffer;
        buffer.unlock();
        (channel, buffer, with_enable(control, false))
    }
}

impl<B, CHANNEL: DmaChannel> CircTransfer<B, CHANNEL> {
    /// Starts a circular transfer from the peripheral into `buffer`, first
    /// half first. `current` is the channel's control word as just read.
    pub fn start(
        channel: CHANNEL,
        buffer: CircBuffer<B, CHANNEL>,
        current: u32,
        request: Request,
    ) -> (answer: Result<(Self, Setup), Rejected<CHANNEL, CircBuffer<B, CHANNEL>, ()>>)
        requires
            buffer.state() == CircState::Free,
        ensures
            answer == Self::started(channel, buffer, current, request),
            answer matches Ok(begun) ==> {
                &&& begun.0.streaming()
                &&& begun.0.channel() == channel
                &&& begun.0.buffer()@ == buffer@
                &&& begun.0.buffer().state() == CircState::MutatingFirstHalf
                &&& begun.0.control() == begun.1.control
                &&& bit(begun.1.control, ENABLE)
            },
    {
        proof {
            buffer.lemma_in_state(CircState::MutatingFirstHalf);
        }
        if enabled(current) {
            return Err(Rejected { error: Error::InUse, channel, buffer, payload: () });
        }
        let mut buffer = buffer;
        let _ = buffer.lock();
        let values = program(Direction::FromPeripheral, true, request);
        Ok((CircTransfer { channel, buffer, control: values.control }, values))
    }

    /// Yields read access to the half of the buffer that the controller has
    /// just left, given the interrupt status word `isr` just read. See
    /// `CircBuffer::read`.
    pub fn read(&mut self, isr: u32) -> (answer: Result<Window<'_, B, CHANNEL>, nb::Error<Error>>)
        requires
            old(self).streaming(),
        ensures
            final(self).streaming(),
            final(self).channel() == old(self).channel(),
            final(self).control() == old(self).control(),
            final(self).buffer()@ == old(self).buffer()@,
            final(self).buffer().state() == old(self).buffer().state().after_read(
                flags_of(isr, CHANNEL::index()),
            ),
            *final(self) == Self::holding(
                old(self).channel(),
                old(self).buffer().in_state(
                    old(self).buffer().state().after_read(flags_of(isr, CHANNEL::index())),
                ),
                old(self).control(),
            ),
            match old(self).buffer().state().read_answer(flags_of(isr, CHANNEL::index())) {
                Ok(half) => answer matches Ok(window) && window.which() == half && window@ == old(
                    self,
                ).buffer()@[half.index()],
                Err(error) => answer matches Err(given) && given == error,
            },
    {
        self.buffer.read(isr)
    }
}

/// To pause a stream and resume it puts the channel's control word back as
/// it was and leaves the buffer, and with it the half that is read next, as
/// it was.
pub proof fn lemma_pause_keeps_stream<B, CHANNEL>(transfer: CircTransfer<B, CHANNEL>)
    requires
        bit(transfer.control(), ENABLE),
    ensures
        ({
            let paused = CircTransfer::holding(
                transfer.channel(),
                transfer.buffer(),
                with_bit(transfer.control(), ENABLE, false),
            );
            let resumed = CircTransfer::holding(
                paused.channel(),
                paused.buffer(),
                with_bit(paused.control(), ENABLE, true),
            );
            resumed == transfer && paused.buffer() == transfer.buffer()
        }),
{
    crate::bits::lemma_assign_last_counts(transfer.control(), ENABLE, false, true);
}

} // verus!
