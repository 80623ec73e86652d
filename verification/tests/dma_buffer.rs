use stm32f103xx_hal::dma::{self, Buffer, Dma1Channel2, Dma1Channel4, Dma1Channel5, Error, Flag, Flags, State};

const TC2: u32 = 1 << 5;
const TE2: u32 = 1 << 7;
const TC4: u32 = 1 << 13;
const HT4: u32 = 1 << 14;
const TE4: u32 = 1 << 15;
const TC5: u32 = 1 << 17;

#[test]
fn new_buffer_is_unlocked_and_holds_its_data() {
    let buffer: Buffer<[u8; 4], Dma1Channel4> = Buffer::new([1, 2, 3, 4]);
    assert_eq!(buffer.state(), State::Unlocked);
    assert_eq!(*buffer.borrow().get(), [1, 2, 3, 4]);
    assert_eq!(buffer.into_inner(), [1, 2, 3, 4]);
}

#[test]
fn lock_then_unlock_walks_the_path() {
    let mut buffer: Buffer<[u8; 2], Dma1Channel4> = Buffer::new([7, 9]);
    assert_eq!(buffer.lock(), Some(&[7, 9]));
    assert_eq!(buffer.state(), State::Locked);
    buffer.unlock();
    assert_eq!(buffer.state(), State::Unlocked);
    assert!(buffer.lock_mut().is_some());
    assert_eq!(buffer.state(), State::MutLocked);
    buffer.unlock();
    assert_eq!(buffer.state(), State::Unlocked);
}

#[test]
fn lock_of_a_locked_buffer_fails_and_changes_nothing() {
    let mut buffer: Buffer<u32, Dma1Channel4> = Buffer::new(5);
    assert!(buffer.lock().is_some());
    assert_eq!(buffer.lock(), None);
    assert_eq!(buffer.state(), State::Locked);
    assert!(buffer.lock_mut().is_none());
    assert_eq!(buffer.state(), State::Locked);
}

#[test]
fn lock_of_a_mut_locked_buffer_fails_and_changes_nothing() {
    let mut buffer: Buffer<u32, Dma1Channel4> = Buffer::new(5);
    assert!(buffer.lock_mut().is_some());
    assert!(buffer.lock_mut().is_none());
    assert_eq!(buffer.state(), State::MutLocked);
    assert_eq!(buffer.lock(), None);
    assert_eq!(buffer.state(), State::MutLocked);
}

#[test]
fn unlock_of_an_unlocked_buffer_leaves_it_unlocked() {
    let mut buffer: Buffer<u32, Dma1Channel4> = Buffer::new(5);
    buffer.unlock();
    assert_eq!(buffer.state(), State::Unlocked);
}

#[test]
fn locked_buffer_can_still_be_read() {
    let mut buffer: Buffer<[u8; 3], Dma1Channel4> = Buffer::new([1, 2, 3]);
    assert!(buffer.lock().is_some());
    let first = buffer.borrow();
    let second = buffer.borrow();
    assert_eq!(*first.get(), [1, 2, 3]);
    assert_eq!(*second.get(), [1, 2, 3]);
}

#[test]
fn borrow_mut_writes_through() {
    let mut buffer: Buffer<[u8; 3], Dma1Channel4> = Buffer::new([1, 2, 3]);
    {
        let writer = buffer.borrow_mut();
        assert_eq!(*writer.get(), [1, 2, 3]);
        let data = writer.into_mut();
        data[1] = 9;
    }
    {
        let writer = buffer.borrow_mut();
        writer.data[2] = 8;
    }
    assert_eq!(*buffer.borrow().get(), [1, 9, 8]);
    assert_eq!(buffer.state(), State::Unlocked);
}

#[test]
fn flags_are_read_at_the_channel_s_place() {
    assert_eq!(
        dma::flags::<Dma1Channel4>(TC4),
        Flags { transfer_error: false, half_transfer: false, transfer_complete: true }
    );
    assert_eq!(
        dma::flags::<Dma1Channel4>(HT4 | TE4),
        Flags { transfer_error: true, half_transfer: true, transfer_complete: false }
    );
    assert_eq!(
        dma::flags::<Dma1Channel4>(TC2 | TC5 | 0x0f),
        Flags { transfer_error: false, half_transfer: false, transfer_complete: false }
    );
    assert_eq!(
        dma::flags::<dma::Dma1Channel1>(0x0e),
        Flags { transfer_error: true, half_transfer: true, transfer_complete: true }
    );
    assert_eq!(
        dma::flags::<Dma1Channel5>(0xffff_ffff & !(1 << 18)),
        Flags { transfer_error: true, half_transfer: false, transfer_complete: true }
    );
}

#[test]
fn clear_words_name_one_flag_of_one_channel() {
    assert_eq!(dma::clear::<dma::Dma1Channel1>(Flag::TransferComplete), 0x2);
    assert_eq!(dma::clear::<dma::Dma1Channel1>(Flag::HalfTransfer), 0x4);
    assert_eq!(dma::clear::<dma::Dma1Channel1>(Flag::TransferError), 0x8);
    assert_eq!(dma::clear::<Dma1Channel2>(Flag::TransferComplete), TC2);
    assert_eq!(dma::clear::<Dma1Channel4>(Flag::HalfTransfer), HT4);
    assert_eq!(dma::clear::<Dma1Channel5>(Flag::TransferComplete), TC5);
}

#[test]
fn clearing_a_flag_leaves_the_others() {
    let isr = TC4 | HT4 | TC5 | TC2;
    let after = isr & !dma::clear::<Dma1Channel4>(Flag::TransferComplete);
    assert_eq!(
        dma::flags::<Dma1Channel4>(after),
        Flags { transfer_error: false, half_transfer: true, transfer_complete: false }
    );
    assert_eq!(dma::flags::<Dma1Channel5>(after), dma::flags::<Dma1Channel5>(isr));
    assert_eq!(dma::flags::<Dma1Channel2>(after), dma::flags::<Dma1Channel2>(isr));
}

#[test]
fn release_of_an_unlocked_buffer_is_immediate() {
    let mut buffer: Buffer<u8, Dma1Channel2> = Buffer::new(0);
    assert_eq!(buffer.release(0), Ok(None));
    assert_eq!(buffer.release(TE2 | TC2), Ok(None));
    assert_eq!(buffer.state(), State::Unlocked);
}

#[test]
fn release_waits_for_the_transfer() {
    let mut buffer: Buffer<u8, Dma1Channel2> = Buffer::new(0);
    assert!(buffer.lock_mut().is_some());
    assert_eq!(buffer.release(0), Err(nb::Error::WouldBlock));
    assert_eq!(buffer.release(TC4 | TC5), Err(nb::Error::WouldBlock));
    assert_eq!(buffer.state(), State::MutLocked);
    assert_eq!(buffer.release(TC2), Ok(Some(TC2)));
    assert_eq!(buffer.state(), State::Unlocked);
}

#[test]
fn release_reports_a_transfer_error_first() {
    let mut buffer: Buffer<u8, Dma1Channel5> = Buffer::new(0);
    assert!(buffer.lock().is_some());
    assert_eq!(buffer.release(TC5 | (1 << 19)), Err(nb::Error::Other(Error::Transfer)));
    assert_eq!(buffer.state(), State::Locked);
}

#[test]
fn release_on_channel_four_and_five() {
    let mut four: Buffer<u8, Dma1Channel4> = Buffer::new(0);
    let mut five: Buffer<u8, Dma1Channel5> = Buffer::new(0);
    assert!(four.lock().is_some());
    assert!(five.lock_mut().is_some());
    assert_eq!(four.release(TC5), Err(nb::Error::WouldBlock));
    assert_eq!(five.release(TC5), Ok(Some(1 << 17)));
    assert_eq!(four.release(TC4), Ok(Some(1 << 13)));
}

#[test]
fn what_is_written_while_locked_is_there_afterwards() {
    let mut buffer: Buffer<[u8; 3], Dma1Channel4> = Buffer::new([0; 3]);
    {
        let view = buffer.lock_mut().unwrap();
        assert_eq!(*view, [0; 3]);
        *view = [4, 5, 6];
    }
    assert_eq!(buffer.state(), State::MutLocked);
    assert_eq!(buffer.release(TC4), Ok(Some(TC4)));
    assert_eq!(*buffer.borrow().get(), [4, 5, 6]);
}
