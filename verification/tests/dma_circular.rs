use stm32f103xx_hal::dma::{CircBuffer, CircState, Dma1Channel1, Error, Half};

const TC1: u32 = 1 << 1;
const HT1: u32 = 1 << 2;
const TE1: u32 = 1 << 3;

fn streaming() -> CircBuffer<[u8; 2], Dma1Channel1> {
    let mut buffer = CircBuffer::new([[1, 2], [3, 4]]);
    assert!(buffer.lock().is_some());
    buffer
}

/// A whole read as a driver performs it: `before` is the status on entry
/// and `after` the status once the half has been read.
fn read(
    buffer: &mut CircBuffer<[u8; 2], Dma1Channel1>,
    before: u32,
    after: u32,
) -> nb::Result<(Half, [u8; 2], u32), Error> {
    let window = buffer.read(before)?;
    let which = window.which();
    let acknowledge = window.acknowledge();
    let pending = window.with(|half: &[u8; 2]| *half);
    assert_eq!(pending.which(), which);
    let half = pending.confirm(after).map_err(nb::Error::Other)?;
    Ok((which, half, acknowledge))
}

#[test]
fn new_circular_buffer_is_free() {
    let buffer: CircBuffer<u8, Dma1Channel1> = CircBuffer::new([0, 0]);
    assert_eq!(buffer.state(), CircState::Free);
}

#[test]
fn lock_starts_on_the_first_half() {
    let mut buffer: CircBuffer<u8, Dma1Channel1> = CircBuffer::new([5, 6]);
    assert_eq!(buffer.lock(), Some(&[5, 6]));
    assert_eq!(buffer.state(), CircState::MutatingFirstHalf);
    assert_eq!(buffer.lock(), None);
    assert_eq!(buffer.state(), CircState::MutatingFirstHalf);
    buffer.unlock();
    assert_eq!(buffer.state(), CircState::Free);
}

#[test]
fn halves_arrive_in_order() {
    let mut buffer = streaming();
    assert_eq!(read(&mut buffer, HT1, 0), Ok((Half::First, [1, 2], HT1)));
    assert_eq!(buffer.state(), CircState::MutatingSecondHalf);
    assert_eq!(read(&mut buffer, TC1, 0), Ok((Half::Second, [3, 4], TC1)));
    assert_eq!(buffer.state(), CircState::MutatingFirstHalf);
}

#[test]
fn halves_alternate_over_many_reads() {
    let mut buffer = streaming();
    let mut seen = Vec::new();
    for turn in 0..10 {
        let status = if turn % 2 == 0 { HT1 } else { TC1 };
        assert_eq!(read(&mut buffer, 0, 0), Err(nb::Error::WouldBlock));
        let (which, _, _) = read(&mut buffer, status, 0).unwrap();
        seen.push(which);
    }
    for (turn, which) in seen.iter().enumerate() {
        assert_eq!(*which, if turn % 2 == 0 { Half::First } else { Half::Second });
    }
}

#[test]
fn nothing_to_read_yet() {
    let mut buffer = streaming();
    assert_eq!(read(&mut buffer, 0, 0), Err(nb::Error::WouldBlock));
    assert_eq!(read(&mut buffer, 0xffff_fff0, 0), Err(nb::Error::WouldBlock));
    assert_eq!(buffer.state(), CircState::MutatingFirstHalf);
}

#[test]
fn overrun_on_entry_leaves_the_state() {
    let mut buffer = streaming();
    assert_eq!(read(&mut buffer, TC1, 0), Err(nb::Error::Other(Error::Overrun)));
    assert_eq!(buffer.state(), CircState::MutatingFirstHalf);
    assert_eq!(read(&mut buffer, TC1 | HT1, 0), Err(nb::Error::Other(Error::Overrun)));
    assert_eq!(buffer.state(), CircState::MutatingFirstHalf);
}

#[test]
fn overrun_on_entry_in_the_second_half() {
    let mut buffer = streaming();
    assert!(read(&mut buffer, HT1, 0).is_ok());
    assert_eq!(read(&mut buffer, HT1, 0), Err(nb::Error::Other(Error::Overrun)));
    assert_eq!(read(&mut buffer, HT1 | TC1, 0), Err(nb::Error::Other(Error::Overrun)));
    assert_eq!(buffer.state(), CircState::MutatingSecondHalf);
}

#[test]
fn overrun_while_reading_withholds_the_value() {
    let mut buffer = streaming();
    assert_eq!(read(&mut buffer, HT1, TC1), Err(nb::Error::Other(Error::Overrun)));
    assert_eq!(buffer.state(), CircState::MutatingSecondHalf);
    let mut buffer = streaming();
    assert!(read(&mut buffer, HT1, HT1).is_ok());
    assert_eq!(read(&mut buffer, TC1, HT1), Err(nb::Error::Other(Error::Overrun)));
    assert_eq!(buffer.state(), CircState::MutatingFirstHalf);
}

#[test]
fn flag_of_the_half_being_read_is_no_overrun() {
    let mut buffer = streaming();
    assert_eq!(read(&mut buffer, HT1, HT1), Ok((Half::First, [1, 2], HT1)));
    assert_eq!(read(&mut buffer, TC1, TC1), Ok((Half::Second, [3, 4], TC1)));
}

#[test]
fn transfer_error_comes_before_everything() {
    for other in [0, HT1, TC1, HT1 | TC1] {
        let mut buffer = streaming();
        assert_eq!(read(&mut buffer, TE1 | other, 0), Err(nb::Error::Other(Error::Transfer)));
        assert_eq!(buffer.state(), CircState::MutatingFirstHalf);
        assert!(read(&mut buffer, HT1, 0).is_ok());
        assert_eq!(read(&mut buffer, TE1 | other, 0), Err(nb::Error::Other(Error::Transfer)));
        assert_eq!(buffer.state(), CircState::MutatingSecondHalf);
    }
}

#[test]
fn window_shows_the_half() {
    let mut buffer = streaming();
    let window = buffer.read(HT1).ok().unwrap();
    assert_eq!(window.which(), Half::First);
    assert_eq!(*window.half(), [1, 2]);
    assert_eq!(window.acknowledge(), HT1);
    let pending = window.with(|half: &[u8; 2]| half[0] as u32 + half[1] as u32);
    assert_eq!(pending.confirm(0), Ok(3));
}
