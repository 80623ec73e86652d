//! Direct memory access (DMA): sharing a buffer between the processor and the
//! DMA controller.
//!
//! The controller moves data on its own while the program runs. This module
//! keeps track of who may touch a buffer at any moment, and decides from the
//! controller's status flags when ownership changes hands. The caller reads
//! the interrupt status register and hands the word in; words to be written to
//! the interrupt flag clear register or to a channel's control register are
//! handed back.

pub mod control;
pub mod transfer;

use vstd::prelude::*;
use core::marker::PhantomData;
use crate::barrier::fence;
use crate::bits::{bit, is_set};
use crate::nonblocking::{failed, would_block};

verus! {

/// DMA error
#[derive(Clone, Copy, Debug, PartialEq, Eq, Structural)]
pub enum Error {
    /// DMA channel in use
    InUse,
    /// Previous data got overwritten before it could be read because it was
    /// not accessed in a timely fashion
    Overrun,
    /// Transfer error
    Transfer,
}

/// A channel of the DMA controller, known at compile time.
///
/// The controller keeps four status bits per channel, side by side in the
/// interrupt status register; the channel's number alone fixes where they
/// are.
pub trait DmaChannel {
    /// The channel's number, counted from one as the reference manual does.
    spec fn index() -> nat;

    /// The channel's number.
    fn number() -> (n: u8)
        ensures
            n == Self::index(),
            1 <= n <= 7,
    ;
}

/// Channel 1 of DMA1
pub struct Dma1Channel1 {
    _0: (),
}

/// Channel 2 of DMA1
pub struct Dma1Channel2 {
    _0: (),
}

/// Channel 4 of DMA1
pub struct Dma1Channel4 {
    _0: (),
}

/// Channel 5 of DMA1
pub struct Dma1Channel5 {
    _0: (),
}

impl DmaChannel for Dma1Channel1 {
    open spec fn index() -> nat {
        1
    }

    fn number() -> (n: u8) {
        1
    }
}

impl DmaChannel for Dma1Channel2 {
    open spec fn index() -> nat {
        2
    }

    fn number() -> (n: u8) {
        2
    }
}

impl DmaChannel for Dma1Channel4 {
    open spec fn index() -> nat {
        4
    }

    fn number() -> (n: u8) {
        4
    }
}

impl DmaChannel for Dma1Channel5 {
    open spec fn index() -> nat {
        5
    }

    fn number() -> (n: u8) {
        5
    }
}

/// The channels of DMA1 that the drivers use, one token each.
pub struct Channels {
    /// Channel 1
    pub c1: Dma1Channel1,
    /// Channel 2
    pub c2: Dma1Channel2,
    /// Channel 4
    pub c4: Dma1Channel4,
    /// Channel 5
    pub c5: Dma1Channel5,
}

/// Splits DMA1 into its channels.
///
/// A token stands for the right to program its channel. Call this once,
/// where the program takes hold of the DMA1 peripheral.
pub fn split() -> Channels {
    Channels {
        c1: Dma1Channel1 { _0: () },
        c2: Dma1Channel2 { _0: () },
        c4: Dma1Channel4 { _0: () },
        c5: Dma1Channel5 { _0: () },
    }
}

/// The status flags that the controller keeps for one channel.
#[derive(Clone, Copy, Debug, PartialEq, Eq, Structural)]
pub struct Flags {
    /// The transfer was cut short by a bus error.
    pub transfer_error: bool,
    /// The first half of the items has been moved.
    pub half_transfer: bool,
    /// All items have been moved.
    pub transfer_complete: bool,
}

/// Which flag of a channel.
#[derive(Clone, Copy, Debug, PartialEq, Eq, Structural)]
pub enum Flag {
    /// Transfer complete
    TransferComplete,
    /// Half transfer
    HalfTransfer,
    /// Transfer error
    TransferError,
}

impl Flag {
    /// Where the flag stands among the four bits of its channel.
    pub open spec fn offset(self) -> u32 {
        match self {
            Flag::TransferComplete => 1,
            Flag::HalfTransfer => 2,
            Flag::TransferError => 3,
        }
    }
}

/// The bit of the interrupt status register, and of the interrupt flag clear
/// register, that holds `flag` of channel `channel`.
pub open spec fn position(channel: nat, flag: Flag) -> u32 {
    (4 * (channel - 1) + flag.offset()) as u32
}

/// The flags of channel `channel` in the interrupt status word `isr`.
pub open spec fn flags_of(isr: u32, channel: nat) -> Flags {
    Flags {
        transfer_error: bit(isr, position(channel, Flag::TransferError)),
        half_transfer: bit(isr, position(channel, Flag::HalfTransfer)),
        transfer_complete: bit(isr, position(channel, Flag::TransferComplete)),
    }
}

/// The word that, written to the interrupt flag clear register, clears
/// `flag` of channel `channel` and nothing else.
pub open spec fn clear_word(channel: nat, flag: Flag) -> u32 {
    1u32 << position(channel, flag)
}

/// Picks the flags of channel `C` out of the interrupt status word `isr`.
pub fn flags<C: DmaChannel>(isr: u32) -> (f: Flags)
    ensures
        f == flags_of(isr, C::index()),
{
    let base: u32 = 4 * (C::number() as u32 - 1);
    Flags {
        transfer_error: is_set(isr, base + 3),
        half_transfer: is_set(isr, base + 2),
        transfer_complete: is_set(isr, base + 1),
    }
}

/// The word to write to the interrupt flag clear register to clear `flag` of
/// channel `C`.
pub fn clear<C: DmaChannel>(flag: Flag) -> (word: u32)
    ensures
        word == clear_word(C::index(), flag),
{
    let base: u32 = 4 * (C::number() as u32 - 1);
    let offset: u32 = match flag {
        Flag::TransferComplete => 1,
        Flag::HalfTransfer => 2,
        Flag::TransferError => 3,
    };
    1u32 << (base + offset)
}

/// Clearing one flag of one channel leaves every other flag of every channel
/// as it was: in the status word that remains once `clear_word` has taken
/// effect, the cleared flag reads as unset and each other flag reads as
/// before.
pub proof fn lemma_clear_is_local(isr: u32, channel: nat, flag: Flag, other: nat, seen: Flag)
    requires
        1 <= channel <= 7,
        1 <= other <= 7,
    ensures
        bit(isr & !clear_word(channel, flag), position(other, seen)) == (if other == channel && seen
            == flag {
            false
        } else {
            bit(isr, position(other, seen))
        }),
{
    let p = position(channel, flag);
    let q = position(other, seen);
    assert(q == p <==> (other == channel && seen == flag));
    assert(bit(isr & !(1u32 << p), q) == (q != p && bit(isr, q))) by (bit_vector)
        requires
            p < 32,
            q < 32,
    ;
}

/// Who holds a `Buffer`.
#[derive(Clone, Copy, Debug, PartialEq, Eq, Structural)]
pub enum State {
    /// Nobody but the program. A new `Buffer` starts in this state.
    Unlocked,
    /// The controller reads the buffer; the program may read it too.
    Locked,
    /// The controller writes the buffer; the program may not touch it.
    MutLocked,
}

/// What can be asked of a `Buffer`'s lock.
#[derive(Clone, Copy, Debug, PartialEq, Eq, Structural)]
pub enum Operation {
    /// Lock for the controller to read
    Lock,
    /// Lock for the controller to write
    LockMut,
    /// Give the buffer back to the program
    Unlock,
}

impl State {
    /// Whether `operation` is granted in this state. A lock is granted to an
    /// unlocked buffer only; to unlock is always granted.
    pub open spec fn grants(self, operation: Operation) -> bool {
        operation == Operation::Unlock || self == State::Unlocked
    }

    /// The state that `operation` leaves behind. A lock that is not granted
    /// leaves the state as it was.
    pub open spec fn after(self, operation: Operation) -> State {
        match operation {
            Operation::Lock => if self == State::Unlocked {
                State::Locked
            } else {
                self
            },
            Operation::LockMut => if self == State::Unlocked {
                State::MutLocked
            } else {
                self
            },
            Operation::Unlock => State::Unlocked,
        }
    }

    /// The state after all of `operations`, applied in order.
    pub open spec fn after_all(self, operations: Seq<Operation>) -> State
        decreases operations.len(),
    {
        if operations.len() == 0 {
            self
        } else {
            self.after_all(operations.drop_last()).after(operations.last())
        }
    }

    /// Whether a buffer may pass from this state to `next` in one step:
    /// from unlocked to either lock, from a lock back to unlocked, or not at
    /// all. It never passes from one kind of lock to the other.
    pub open spec fn steps_to(self, next: State) -> bool {
        self == next || self == State::Unlocked || next == State::Unlocked
    }
}

/// Whatever is asked of a buffer's lock, and in whatever order, each step
/// takes the state along the path from unlocked to one of the locks and back
/// to unlocked; and a lock asked of a buffer that is not unlocked changes
/// nothing.
pub proof fn lemma_lock_unlock_path(start: State, operations: Seq<Operation>, i: int)
    requires
        0 <= i < operations.len(),
    ensures
        ({
            let before = start.after_all(operations.take(i));
            let after = start.after_all(operations.take(i + 1));
            &&& after == before.after(operations[i])
            &&& before.steps_to(after)
            &&& !before.grants(operations[i]) ==> after == before
            &&& before.grants(operations[i]) && operations[i] == Operation::Lock ==> after
                == State::Locked
            &&& before.grants(operations[i]) && operations[i] == Operation::LockMut ==> after
                == State::MutLocked
        }),
{
    let longer = operations.take(i + 1);
    assert(longer.drop_last() =~= operations.take(i));
    assert(longer.last() == operations[i]);
}

/// Buffer to be used with a certain DMA `CHANNEL`
pub struct Buffer<T, CHANNEL> {
    data: T,
    state: State,
    _marker: PhantomData<CHANNEL>,
}

/// Wraps a borrowed reference to a value in a `Buffer`
pub struct Ref<'a, T> {
    data: &'a T,
}

impl<'a, T> Ref<'a, T> {
    /// The value that the reference shows.
    pub closed spec fn view(&self) -> T {
        *self.data
    }

    /// The borrowed value.
    pub fn get(&self) -> (value: &T)
        ensures
            *value == self@,
    {
        self.data
    }
}

/// A wrapper type for a mutably borrowed value from a `Buffer`
pub struct RefMut<'a, T> {
    /// The borrowed value; what is written through it is written to the
    /// buffer.
    pub data: &'a mut T,
}

impl<'a, T> RefMut<'a, T> {
    /// The value that the reference shows now.
    pub open spec fn view(&self) -> T {
        *self.data
    }

    /// The borrowed value.
    pub fn get(&self) -> (value: &T)
        ensures
            *value == self@,
    {
        &*self.data
    }

    /// Gives up the wrapper for the reference inside it.
    pub fn into_mut(self) -> (value: &'a mut T)
        ensures
            *value == self@,
            *final(value) == *final(self.data),
    {
        self.data
    }
}

impl<T, CHANNEL> Buffer<T, CHANNEL> {
    /// The value that the buffer holds.
    pub closed spec fn view(&self) -> T {
        self.data
    }

    /// Who holds the buffer.
    pub closed spec fn spec_state(&self) -> State {
        self.state
    }

    /// The same buffer, held as `state` says.
    pub closed spec fn in_state(self, state: State) -> Self {
        Buffer { state, ..self }
    }

    /// A buffer put in a state is in that state and holds what it held.
    pub proof fn lemma_in_state(self, state: State)
        ensures
            self.in_state(state)@ == self@,
            self.in_state(state).state() == state,
            self.in_state(self.state()) == self,
    {
    }

    /// A buffer is what it holds and who holds it: two buffers that agree on
    /// both are the same buffer.
    pub proof fn lemma_same_buffer(self, other: Self)
        requires
            self@ == other@,
            self.state() == other.state(),
        ensures
            self == other,
    {
    }

    /// Creates a new buffer
    pub fn new(data: T) -> (buffer: Self)
        ensures
            buffer@ == data,
            buffer.state() == State::Unlocked,
    {
        Buffer { data, state: State::Unlocked, _marker: PhantomData }
    }

    /// Who holds the buffer.
    #[verifier::when_used_as_spec(spec_state)]
    pub fn state(&self) -> (state: State)
        ensures
            state == self.spec_state(),
    {
        self.state
    }

    /// Takes the value out of a buffer that nobody has locked.
    pub fn into_inner(self) -> (data: T)
        requires
            self.state() == State::Unlocked,
        ensures
            data == self@,
    {
        self.data
    }

    /// Immutably borrows the wrapped value.
    ///
    /// The borrow lasts until the returned `Ref` exits scope. Multiple
    /// immutable borrows can be taken out at the same time, and the
    /// controller may be reading the buffer meanwhile. The buffer must not be
    /// locked for the controller to write.
    pub fn borrow(&self) -> (r: Ref<'_, T>)
        requires
            self.state() != State::MutLocked,
        ensures
            r@ == self@,
    {
        Ref { data: &self.data }
    }

    /// Mutably borrows the wrapped value.
    ///
    /// The borrow lasts until the returned `RefMut` exits scope. The value
    /// cannot be borrowed while this borrow is active. The buffer must not be
    /// locked at all.
    pub fn borrow_mut(&mut self) -> (r: RefMut<'_, T>)
        requires
            old(self).state() == State::Unlocked,
        ensures
            r@ == old(self)@,
            final(self)@ == *final(r.data),
            final(self).state() == State::Unlocked,
    {
        RefMut { data: &mut self.data }
    }

    /// Locks the buffer for the controller to read from, and hands out the
    /// value it is to read. An unlocked buffer becomes locked; any other is
    /// left as it is and `None` is returned.
    pub fn lock(&mut self) -> (data: Option<&T>)
        ensures
            *final(self) == old(self).in_state(old(self).state().after(Operation::Lock)),
            final(self).state() == old(self).state().after(Operation::Lock),
            final(self)@ == old(self)@,
            data == (if old(self).state().grants(Operation::Lock) {
                Some(&old(self)@)
            } else {
                None
            }),
    {
        match self.state {
            State::Unlocked => {
                self.state = State::Locked;
                Some(&self.data)
            },
            _ => None,
        }
    }

    /// Locks the buffer for the controller to write to, and hands out the
    /// value for it to fill. An unlocked buffer becomes locked for writing;
    /// any other is left as it is and `None` is returned.
    pub fn lock_mut(&mut self) -> (data: Option<&mut T>)
        ensures
            final(self).state() == old(self).state().after(Operation::LockMut),
            match data {
                Some(view) => {
                    &&& old(self).state().grants(Operation::LockMut)
                    &&& *view == old(self)@
                    &&& final(self)@ == *final(view)
                },
                None => {
                    &&& !old(self).state().grants(Operation::LockMut)
                    &&& *final(self) == *old(self)
                },
            },
    {
        match self.state {
            State::Unlocked => {
                self.state = State::MutLocked;
                Some(&mut self.data)
            },
            _ => None,
        }
    }

    /// Gives the buffer back to the program. Only to be called once the
    /// controller has been seen to be done with it.
    pub fn unlock(&mut self)
        ensures
            *final(self) == old(self).in_state(State::Unlocked),
            final(self).state() == old(self).state().after(Operation::Unlock),
            final(self)@ == old(self)@,
    {
        self.state = State::Unlocked;
    }
}

/// What `Buffer::release` answers for a buffer in `state` on channel
/// `channel` when the channel's flags are `flags`: a buffer that is not
/// locked is released already and nothing is to be written; a transfer error
/// ends the wait; a complete transfer releases the buffer and the flag is to
/// be cleared; otherwise the controller is still at work.
pub open spec fn release_answer(state: State, flags: Flags, channel: nat) -> Result<
    Option<u32>,
    nb::Error<Error>,
> {
    if state == State::Unlocked {
        Ok(None)
    } else if flags.transfer_error {
        failed(Error::Transfer)
    } else if flags.transfer_complete {
        Ok(Some(clear_word(channel, Flag::TransferComplete)))
    } else {
        would_block()
    }
}

impl<T, CHANNEL: DmaChannel> Buffer<T, CHANNEL> {
    /// Asks whether the DMA has released this buffer, given the interrupt
    /// status word `isr` just read.
    ///
    /// On `Ok(Some(word))` the transfer is complete and the buffer unlocked:
    /// write `word` to the interrupt flag clear register and clear the
    /// channel's enable bit. On `Ok(None)` the buffer was not locked. In
    /// every other case the buffer stays locked.
    pub fn release(&mut self, isr: u32) -> (answer: Result<Option<u32>, nb::Error<Error>>)
        ensures
            answer == release_answer(
                old(self).state(),
                flags_of(isr, CHANNEL::index()),
                CHANNEL::index(),
            ),
            final(self).state() == (if answer.is_ok() {
                State::Unlocked
            } else {
                old(self).state()
            }),
            final(self)@ == old(self)@,
    {
        let state = self.state;
        if state == State::Unlocked {
            return Ok(None);
        }
        let seen = flags::<CHANNEL>(isr);
        if seen.transfer_error {
            Err(nb::Error::Other(Error::Transfer))
        } else if seen.transfer_complete {
            self.unlock();
            Ok(Some(clear::<CHANNEL>(Flag::TransferComplete)))
        } else {
            Err(nb::Error::WouldBlock)
        }
    }
}

/// One of the two halves of a circular buffer.
#[derive(Clone, Copy, Debug, PartialEq, Eq, Structural)]
pub enum Half {
    /// The half that is filled first
    First,
    /// The half that is filled second
    Second,
}

impl Half {
    /// The half that this one is not.
    pub open spec fn other(self) -> Half {
        match self {
            Half::First => Half::Second,
            Half::Second => Half::First,
        }
    }

    /// Where the half lies in the buffer.
    pub open spec fn index(self) -> int {
        match self {
            Half::First => 0,
            Half::Second => 1,
        }
    }

    /// The flag by which the controller says that it has filled this half.
    pub open spec fn filled(self) -> Flag {
        match self {
            Half::First => Flag::HalfTransfer,
            Half::Second => Flag::TransferComplete,
        }
    }
}

impl Flags {
    /// Whether `flag` is among the flags that are set.
    pub open spec fn has(self, flag: Flag) -> bool {
        match flag {
            Flag::TransferComplete => self.transfer_complete,
            Flag::HalfTransfer => self.half_transfer,
            Flag::TransferError => self.transfer_error,
        }
    }
}

/// What the DMA is doing to a circular buffer.
#[derive(Clone, Copy, Debug, PartialEq, Eq, Structural)]
pub enum CircState {
    /// Not in use by the DMA
    Free,
    /// The DMA is mutating the first half of the buffer
    MutatingFirstHalf,
    /// The DMA is mutating the second half of the buffer
    MutatingSecondHalf,
}

impl CircState {
    /// The state in which the DMA is mutating `half`.
    pub open spec fn mutating(half: Half) -> CircState {
        match half {
            Half::First => CircState::MutatingFirstHalf,
            Half::Second => CircState::MutatingSecondHalf,
        }
    }

    /// The half that the DMA is taken to be mutating; of a free buffer, the
    /// half that it will mutate first.
    pub open spec fn target(self) -> Half {
        match self {
            CircState::MutatingSecondHalf => Half::Second,
            _ => Half::First,
        }
    }

    /// What a read answers at once, in this state and with the channel's
    /// flags as they are before anything is read.
    ///
    /// A transfer error ends the stream whatever else is set. If the flag of
    /// the half that is not being mutated is set, the controller has come
    /// round before the program took the half being mutated: an overrun. If
    /// the flag of the half being mutated is set, the controller has left
    /// that half and it can be read. Otherwise there is nothing to read yet.
    pub open spec fn read_answer(self, flags: Flags) -> Result<Half, nb::Error<Error>> {
        let half = self.target();
        if flags.transfer_error {
            failed(Error::Transfer)
        } else if flags.has(half.other().filled()) {
            failed(Error::Overrun)
        } else if flags.has(half.filled()) {
            Ok(half)
        } else {
            would_block()
        }
    }

    /// The state that a read leaves behind: the other half is being mutated
    /// once a half has been handed out, and nothing changes otherwise.
    pub open spec fn after_read(self, flags: Flags) -> CircState {
        if self.read_answer(flags).is_ok() {
            CircState::mutating(self.target().other())
        } else {
            self
        }
    }

    /// The state after one read for each entry of `seen`, the flags that the
    /// reads found, in order.
    pub open spec fn after_reads(self, seen: Seq<Flags>) -> CircState
        decreases seen.len(),
    {
        if seen.len() == 0 {
            self
        } else {
            self.after_reads(seen.drop_last()).after_read(seen.last())
        }
    }

    /// How many of the reads that found `seen` handed out a half.
    pub open spec fn handed_out(self, seen: Seq<Flags>) -> nat
        decreases seen.len(),
    {
        if seen.len() == 0 {
            0
        } else {
            let earlier = self.handed_out(seen.drop_last());
            if self.after_reads(seen.drop_last()).read_answer(seen.last()).is_ok() {
                earlier + 1
            } else {
                earlier
            }
        }
    }
}

/// What is done with the value that was computed from a half, once the
/// channel's flags have been looked at again: if the controller has
/// meanwhile filled the other half too, it may have begun to overwrite the
/// half that was being read, and the value is withheld.
pub open spec fn confirm_answer<R>(half: Half, after: Flags, value: R) -> Result<R, Error> {
    if after.has(half.other().filled()) {
        Err(Error::Overrun)
    } else {
        Ok(value)
    }
}

/// What a whole read comes to: the answer given at once where no half is
/// handed out, and else what becomes of `value`, which was computed from the
/// half, when the flags are `after` once it has been computed.
pub open spec fn read_result<R>(state: CircState, before: Flags, after: Flags, value: R) -> Result<
    R,
    nb::Error<Error>,
> {
    match state.read_answer(before) {
        Ok(half) => match confirm_answer(half, after, value) {
            Ok(value) => Ok(value),
            Err(error) => failed(error),
        },
        Err(error) => Err(error),
    }
}

/// Through any run of reads, whatever flags they find, the halves that are
/// handed out alternate: the first is the half that was being mutated at the
/// start, and each one after that is the other half than the one before. So
/// a read that hands out a half finds the stream in the state that the
/// number of halves handed out before it decides.
pub proof fn lemma_halves_alternate(start: CircState, seen: Seq<Flags>)
    requires
        start != CircState::Free,
    ensures
        start.after_reads(seen) == CircState::mutating(
            if start.handed_out(seen) % 2 == 0 {
                start.target()
            } else {
                start.target().other()
            },
        ),
    decreases seen.len(),
{
    if seen.len() > 0 {
        lemma_halves_alternate(start, seen.drop_last());
    }
}

/// The `i`-th of a run of reads, if it hands out a half, hands out the first
/// half of the start state when an even number of halves were handed out
/// before it, and the other half when an odd number were.
pub proof fn lemma_read_hands_out(start: CircState, seen: Seq<Flags>, i: int)
    requires
        start != CircState::Free,
        0 <= i < seen.len(),
        start.after_reads(seen.take(i)).read_answer(seen[i]).is_ok(),
    ensures
        start.after_reads(seen.take(i)).read_answer(seen[i]) == Ok::<Half, nb::Error<Error>>(
            if start.handed_out(seen.take(i)) % 2 == 0 {
                start.target()
            } else {
                start.target().other()
            },
        ),
        start.handed_out(seen.take(i + 1)) == start.handed_out(seen.take(i)) + 1,
{
    lemma_halves_alternate(start, seen.take(i));
    let longer = seen.take(i + 1);
    assert(longer.drop_last() =~= seen.take(i));
    assert(longer.last() == seen[i]);
}

/// A read reports an overrun exactly when no transfer error is flagged on
/// entry and the flag of the half that is not being mutated is found set:
/// either on entry, or, a half having been handed out, when the flags are
/// looked at again after the half has been read.
pub proof fn lemma_overrun_exactly<R>(state: CircState, before: Flags, after: Flags, value: R)
    requires
        state != CircState::Free,
    ensures
        read_result(state, before, after, value) == failed::<R, Error>(Error::Overrun) <==> {
            let half = state.target();
            &&& !before.transfer_error
            &&& (before.has(half.other().filled()) || (before.has(half.filled()) && after.has(
                half.other().filled(),
            )))
        },
        before.transfer_error ==> read_result(state, before, after, value) == failed::<R, Error>(
            Error::Transfer,
        ),
        state.read_answer(before).is_err() ==> state.after_read(before) == state,
{
}

/// A circular buffer associated to a DMA `CHANNEL`
pub struct CircBuffer<B, CHANNEL> {
    _marker: PhantomData<CHANNEL>,
    buffer: [B; 2],
    state: CircState,
}

/// Read access to the half of a circular buffer that the DMA has just left.
///
/// The half may be read until the controller comes round to it again. What
/// was read counts only once `Pending::confirm` has found that it did not.
pub struct Window<'a, B, CHANNEL> {
    _marker: PhantomData<CHANNEL>,
    half: &'a B,
    which: Half,
}

/// A value computed from one half of a circular buffer, not yet known to be
/// sound.
pub struct Pending<R, CHANNEL> {
    _marker: PhantomData<CHANNEL>,
    value: R,
    which: Half,
}

impl<B, CHANNEL> CircBuffer<B, CHANNEL> {
    /// The two halves.
    pub closed spec fn view(&self) -> Seq<B> {
        self.buffer@
    }

    /// What the DMA is doing to the buffer.
    pub closed spec fn spec_state(&self) -> CircState {
        self.state
    }

    /// The same buffer, in the state `state`.
    pub closed spec fn in_state(self, state: CircState) -> Self {
        CircBuffer { state, ..self }
    }

    /// A buffer put in a state is in that state and holds what it held.
    pub proof fn lemma_in_state(self, state: CircState)
        ensures
            self.in_state(state)@ == self@,
            self.in_state(state).state() == state,
            self.in_state(self.state()) == self,
    {
    }

    /// Constructs a circular buffer from two halves
    pub fn new(buffer: [B; 2]) -> (circular: Self)
        ensures
            circular@ == buffer@,
            circular@.len() == 2,
            circular.state() == CircState::Free,
    {
        CircBuffer { _marker: PhantomData, buffer, state: CircState::Free }
    }

    /// What the DMA is doing to the buffer.
    #[verifier::when_used_as_spec(spec_state)]
    pub fn state(&self) -> (state: CircState)
        ensures
            state == self.spec_state(),
    {
        self.state
    }

    /// Hands the buffer to the DMA, which starts on the first half. A free
    /// buffer is then being mutated and its halves are returned for the
    /// controller to fill; a buffer that is in use is left as it is and
    /// `None` is returned.
    pub fn lock(&mut self) -> (halves: Option<&[B; 2]>)
        ensures
            old(self).state() == CircState::Free ==> *final(self) == old(self).in_state(
                CircState::MutatingFirstHalf,
            ),
            final(self)@ == old(self)@,
            old(self).state() == CircState::Free ==> final(self).state()
                == CircState::MutatingFirstHalf && (halves matches Some(both) && both@ == old(
                self,
            )@),
            old(self).state() != CircState::Free ==> final(self).state() == old(self).state()
                && halves.is_none(),
    {
        match self.state {
            CircState::Free => {
                self.state = CircState::MutatingFirstHalf;
                Some(&self.buffer)
            },
            _ => None,
        }
    }

    /// Takes the buffer back from the DMA. Only to be called once the
    /// channel has been disabled.
    pub fn unlock(&mut self)
        ensures
            *final(self) == old(self).in_state(CircState::Free),
            final(self)@ == old(self)@,
            final(self).state() == CircState::Free,
    {
        self.state = CircState::Free;
    }
}

impl<B, CHANNEL: DmaChannel> CircBuffer<B, CHANNEL> {
    /// Yields read access to the half of the circular buffer that's not
    /// currently being mutated by the DMA, given the interrupt status word
    /// `isr` just read.
    ///
    /// Where a half is handed out, the buffer is already marked as being
    /// mutated in the other half.
    pub fn read(&mut self, isr: u32) -> (answer: Result<Window<'_, B, CHANNEL>, nb::Error<Error>>)
        requires
            old(self).state() != CircState::Free,
        ensures
            *final(self) == old(self).in_state(
                old(self).state().after_read(flags_of(isr, CHANNEL::index())),
            ),
            final(self)@ == old(self)@,
            final(self).state() == old(self).state().after_read(flags_of(isr, CHANNEL::index())),
            match old(self).state().read_answer(flags_of(isr, CHANNEL::index())) {
                Ok(half) => answer matches Ok(window) && window.which() == half && window@ == old(
                    self,
                )@[half.index()],
                Err(error) => answer matches Err(given) && given == error,
            },
    {
        let seen = flags::<CHANNEL>(isr);
        if seen.transfer_error {
            Err(nb::Error::Other(Error::Transfer))
        } else {
            match self.state {
                CircState::MutatingSecondHalf => if seen.half_transfer {
                    Err(nb::Error::Other(Error::Overrun))
                } else if seen.transfer_complete {
                    self.state = CircState::MutatingFirstHalf;
                    Ok(Window { _marker: PhantomData, half: &self.buffer[1], which: Half::Second })
                } else {
                    Err(nb::Error::WouldBlock)
                },
                _ => if seen.transfer_complete {
                    Err(nb::Error::Other(Error::Overrun))
                } else if seen.half_transfer {
                    self.state = CircState::MutatingSecondHalf;
                    Ok(Window { _marker: PhantomData, half: &self.buffer[0], which: Half::First })
                } else {
                    Err(nb::Error::WouldBlock)
                },
            }
        }
    }
}

impl<'a, B, CHANNEL> Window<'a, B, CHANNEL> {
    /// What the half holds.
    pub closed spec fn view(&self) -> B {
        *self.half
    }

    /// Which half it is.
    pub closed spec fn spec_which(&self) -> Half {
        self.which
    }

    /// Which half it is.
    #[verifier::when_used_as_spec(spec_which)]
    pub fn which(&self) -> (half: Half)
        ensures
            half == self.spec_which(),
    {
        self.which
    }

    /// The half itself.
    pub fn half(&self) -> (half: &B)
        ensures
            *half == self@,
    {
        self.half
    }

    /// Computes a value from the half by `f`, between two fences, so that no
    /// access to the half is moved out of the time in which it may be read.
    pub fn with<R, F>(self, f: F) -> (pending: Pending<R, CHANNEL>) where F: FnOnce(&B) -> R
        requires
            call_requires(f, (&self@,)),
        ensures
            call_ensures(f, (&self@,), pending@),
            pending.which() == self.which(),
    {
        fence();
        let value = f(self.half);
        fence();
        Pending { _marker: PhantomData, value, which: self.which }
    }
}

impl<'a, B, CHANNEL: DmaChannel> Window<'a, B, CHANNEL> {
    /// The word to write to the interrupt flag clear register before the
    /// half is read: it clears the flag that announced the half.
    pub fn acknowledge(&self) -> (word: u32)
        ensures
            word == clear_word(CHANNEL::index(), self.which().filled()),
    {
        match self.which {
            Half::First => clear::<CHANNEL>(Flag::HalfTransfer),
            Half::Second => clear::<CHANNEL>(Flag::TransferComplete),
        }
    }
}

impl<R, CHANNEL> Pending<R, CHANNEL> {
    /// The value that was computed.
    pub closed spec fn view(&self) -> R {
        self.value
    }

    /// The half that it was computed from.
    pub closed spec fn spec_which(&self) -> Half {
        self.which
    }

    /// The half that the value was computed from.
    #[verifier::when_used_as_spec(spec_which)]
    pub fn which(&self) -> (half: Half)
        ensures
            half == self.spec_which(),
    {
        self.which
    }
}

impl<R, CHANNEL: DmaChannel> Pending<R, CHANNEL> {
    /// Releases the value if the controller has not caught up, given the
    /// interrupt status word `isr` read after the value was computed.
    pub fn confirm(self, isr: u32) -> (answer: Result<R, Error>)
        ensures
            answer == confirm_answer(self.which(), flags_of(isr, CHANNEL::index()), self@),
    {
        let seen = flags::<CHANNEL>(isr);
        let overtaken = match self.which {
            Half::First => seen.transfer_complete,
            Half::Second => seen.half_transfer,
        };
        if overtaken {
            Err(Error::Overrun)
        } else {
            Ok(self.value)
        }
    }
}

} // verus!
