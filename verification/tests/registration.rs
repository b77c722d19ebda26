use mio::{Events, Poll, PollOpt, Ready, Token};
use poll_channel::control::write_readiness;
use poll_channel::{
    ctl_pair, from_std_channel, from_std_sync_channel, Readiness, RegistrationError,
};
use std::sync::mpsc;
use std::sync::mpsc::TryRecvError;
use std::time::Duration;

fn readable(poll: &Poll, token: Token) -> bool {
    let mut events = Events::with_capacity(16);
    poll.poll(&mut events, Some(Duration::from_millis(50))).unwrap();
    let mut seen = false;
    for event in events.iter() {
        if event.token() == token && event.readiness().is_readable() {
            seen = true;
        }
    }
    seen
}

#[test]
fn second_register_is_refused() {
    let poll = Poll::new().unwrap();
    let (_tx, mut rx) = from_std_channel(mpsc::channel::<u8>());
    assert!(rx.register(&poll, Token(1), Ready::readable(), PollOpt::level()).is_ok());
    match rx.register(&poll, Token(1), Ready::readable(), PollOpt::level()) {
        Err(RegistrationError::AlreadyRegistered) => {},
        other => panic!("expected a refusal, got {:?}", other),
    }
    match rx.register(&poll, Token(2), Ready::readable(), PollOpt::edge()) {
        Err(RegistrationError::AlreadyRegistered) => {},
        other => panic!("expected a refusal, got {:?}", other),
    }
}

#[test]
fn second_register_is_refused_with_another_poll() {
    let poll = Poll::new().unwrap();
    let other = Poll::new().unwrap();
    let (_tx, mut rx) = from_std_channel(mpsc::channel::<u8>());
    assert!(rx.register(&poll, Token(1), Ready::readable(), PollOpt::level()).is_ok());
    assert!(matches!(
        rx.register(&other, Token(1), Ready::readable(), PollOpt::level()),
        Err(RegistrationError::AlreadyRegistered)
    ));
}

#[test]
fn reregister_and_deregister_need_a_registration() {
    let poll = Poll::new().unwrap();
    let (_tx, mut rx) = from_std_channel(mpsc::channel::<u8>());
    assert!(matches!(
        rx.reregister(&poll, Token(1), Ready::readable(), PollOpt::level()),
        Err(RegistrationError::NotRegistered)
    ));
    assert!(matches!(rx.deregister(&poll), Err(RegistrationError::NotRegistered)));
    assert!(rx.register(&poll, Token(1), Ready::readable(), PollOpt::level()).is_ok());
    assert!(rx.reregister(&poll, Token(2), Ready::readable(), PollOpt::level()).is_ok());
    assert!(rx.deregister(&poll).is_ok());
    assert!(matches!(
        rx.register(&poll, Token(1), Ready::readable(), PollOpt::level()),
        Err(RegistrationError::AlreadyRegistered)
    ));
}

#[test]
fn control_handle_alone_follows_the_same_rules() {
    let poll = Poll::new().unwrap();
    let (_tx, mut rx) = ctl_pair();
    assert!(!rx.registered());
    assert!(matches!(rx.deregister(&poll), Err(RegistrationError::NotRegistered)));
    assert!(matches!(
        rx.reregister(&poll, Token(3), Ready::readable(), PollOpt::level()),
        Err(RegistrationError::NotRegistered)
    ));
    assert!(rx.register(&poll, Token(3), Ready::readable(), PollOpt::level()).is_ok());
    assert!(rx.registered());
    assert!(matches!(
        rx.register(&poll, Token(3), Ready::readable(), PollOpt::level()),
        Err(RegistrationError::AlreadyRegistered)
    ));
    assert!(rx.registered());
}

#[test]
fn registration_errors_read_as_the_engine_words_them() {
    let already = RegistrationError::AlreadyRegistered.into_io();
    assert_eq!(already.kind(), std::io::ErrorKind::Other);
    assert_eq!(already.to_string(), "receiver already registered");
    let not = RegistrationError::NotRegistered.into_io();
    assert_eq!(not.kind(), std::io::ErrorKind::Other);
    assert_eq!(not.to_string(), "receiver not registered");
    let inner = std::io::Error::new(std::io::ErrorKind::BrokenPipe, "pipe");
    let passed = RegistrationError::Io(inner).into_io();
    assert_eq!(passed.kind(), std::io::ErrorKind::BrokenPipe);
    assert_eq!(passed.to_string(), "pipe");
}

#[test]
fn reregister_with_another_poll_is_the_engines_error() {
    let poll = Poll::new().unwrap();
    let other = Poll::new().unwrap();
    let (_tx, mut rx) = from_std_channel(mpsc::channel::<u8>());
    assert!(rx.register(&poll, Token(1), Ready::readable(), PollOpt::level()).is_ok());
    match rx.reregister(&other, Token(1), Ready::readable(), PollOpt::level()) {
        Err(RegistrationError::Io(e)) => assert_eq!(e.kind(), std::io::ErrorKind::Other),
        other => panic!("expected the engine's error, got {:?}", other),
    }
}

#[test]
fn registering_with_two_messages_pending_is_readable_at_once() {
    let poll = Poll::new().unwrap();
    let (tx, mut rx) = from_std_channel(mpsc::channel::<u8>());
    assert!(tx.send(1).is_ok());
    assert!(tx.send(2).is_ok());
    assert_eq!(rx.pending(), 2);
    assert!(rx.register(&poll, Token(7), Ready::readable(), PollOpt::level()).is_ok());
    assert!(readable(&poll, Token(7)));
}

#[test]
fn registering_with_nothing_pending_is_not_readable() {
    let poll = Poll::new().unwrap();
    let (_tx, mut rx) = from_std_channel(mpsc::channel::<u8>());
    assert_eq!(rx.pending(), 0);
    assert!(rx.register(&poll, Token(7), Ready::readable(), PollOpt::level()).is_ok());
    assert!(!readable(&poll, Token(7)));
}

#[test]
fn registering_after_a_full_drain_is_not_readable() {
    let poll = Poll::new().unwrap();
    let (tx, mut rx) = from_std_channel(mpsc::channel::<u8>());
    assert!(tx.send(1).is_ok());
    assert!(tx.send(2).is_ok());
    assert_eq!(rx.try_recv(), Ok(1));
    assert_eq!(rx.try_recv(), Ok(2));
    assert_eq!(rx.pending(), 0);
    assert!(rx.register(&poll, Token(7), Ready::readable(), PollOpt::level()).is_ok());
    assert!(!readable(&poll, Token(7)));
}

#[test]
fn first_message_after_registration_wakes_the_poll() {
    let poll = Poll::new().unwrap();
    let (tx, mut rx) = from_std_channel(mpsc::channel::<u8>());
    assert!(rx.register(&poll, Token(4), Ready::readable(), PollOpt::level()).is_ok());
    assert!(!readable(&poll, Token(4)));
    assert!(tx.send(9).is_ok());
    assert!(readable(&poll, Token(4)));
    assert!(tx.send(10).is_ok());
    assert!(readable(&poll, Token(4)));
    assert_eq!(rx.pending(), 2);
}

#[test]
fn messages_left_after_a_receive_keep_the_channel_readable() {
    let poll = Poll::new().unwrap();
    let (tx, mut rx) = from_std_channel(mpsc::channel::<u8>());
    assert!(rx.register(&poll, Token(4), Ready::readable(), PollOpt::level()).is_ok());
    assert!(tx.send(1).is_ok());
    assert!(tx.send(2).is_ok());
    assert!(tx.send(3).is_ok());
    assert_eq!(rx.try_recv(), Ok(1));
    assert!(readable(&poll, Token(4)));
    assert_eq!(rx.try_recv(), Ok(2));
    assert_eq!(rx.pending(), 1);
    assert!(readable(&poll, Token(4)));
}

#[test]
fn a_message_sent_after_a_drain_wakes_the_poll_again() {
    let poll = Poll::new().unwrap();
    let (tx, mut rx) = from_std_sync_channel(mpsc::sync_channel::<u8>(1));
    assert!(rx.register(&poll, Token(5), Ready::readable(), PollOpt::level()).is_ok());
    for round in 0..5u8 {
        assert!(tx.try_send(round).is_ok());
        assert_eq!(rx.pending(), 1);
        assert!(readable(&poll, Token(5)));
        assert_eq!(rx.try_recv(), Ok(round));
        assert_eq!(rx.pending(), 0);
        assert!(!readable(&poll, Token(5)));
    }
}

#[test]
fn a_channel_registered_before_the_last_drain_is_not_readable_after_it() {
    let poll = Poll::new().unwrap();
    let (tx, mut rx) = from_std_channel(mpsc::channel::<u8>());
    assert!(rx.register(&poll, Token(6), Ready::readable(), PollOpt::level()).is_ok());
    assert!(tx.send(1).is_ok());
    assert!(readable(&poll, Token(6)));
    assert_eq!(rx.try_recv(), Ok(1));
    assert_eq!(rx.pending(), 0);
    assert!(!readable(&poll, Token(6)));
    assert_eq!(rx.try_recv(), Err(TryRecvError::Empty));
    assert_eq!(rx.pending(), 0);
    assert!(!readable(&poll, Token(6)));
}

#[test]
fn the_bit_follows_the_count_through_sends_and_receives() {
    let poll = Poll::new().unwrap();
    let (tx, mut rx) = from_std_channel(mpsc::channel::<u8>());
    assert!(rx.register(&poll, Token(6), Ready::readable(), PollOpt::level()).is_ok());
    assert!(tx.send(1).is_ok());
    assert!(tx.send(2).is_ok());
    assert!(tx.send(3).is_ok());
    assert_eq!(rx.try_recv(), Ok(1));
    assert!(readable(&poll, Token(6)));
    assert_eq!(rx.try_recv(), Ok(2));
    assert!(readable(&poll, Token(6)));
    assert_eq!(rx.try_recv(), Ok(3));
    assert!(!readable(&poll, Token(6)));
    assert!(tx.send(4).is_ok());
    assert!(readable(&poll, Token(6)));
    assert_eq!(rx.try_recv(), Ok(4));
    assert!(!readable(&poll, Token(6)));
}

#[test]
fn an_interest_in_every_kind_is_taken() {
    let poll = Poll::new().unwrap();
    let (tx, mut rx) = from_std_channel(mpsc::channel::<u8>());
    assert!(rx.register(&poll, Token(14), Ready::all(), PollOpt::level()).is_ok());
    assert!(!readable(&poll, Token(14)));
    assert!(tx.send(1).is_ok());
    assert!(readable(&poll, Token(14)));
    assert!(rx.reregister(&poll, Token(15), Ready::all(), PollOpt::edge()).is_ok());
    assert_eq!(rx.try_recv(), Ok(1));
    assert!(rx.deregister(&poll).is_ok());
}

#[test]
fn an_engine_answer_is_handed_on() {
    assert!(matches!(RegistrationError::from_engine(Ok(())), Ok(())));
    let refused = std::io::Error::new(std::io::ErrorKind::BrokenPipe, "pipe");
    match RegistrationError::from_engine(Err(refused)) {
        Err(RegistrationError::Io(e)) => {
            assert_eq!(e.kind(), std::io::ErrorKind::BrokenPipe);
            assert_eq!(e.to_string(), "pipe");
        },
        other => panic!("expected the engine's error, got {:?}", other),
    }
}

#[test]
fn deregistered_channel_still_carries_messages() {
    let poll = Poll::new().unwrap();
    let (tx, mut rx) = from_std_channel(mpsc::channel::<u8>());
    assert!(rx.register(&poll, Token(8), Ready::readable(), PollOpt::level()).is_ok());
    assert!(rx.deregister(&poll).is_ok());
    assert!(tx.send(1).is_ok());
    assert!(!readable(&poll, Token(8)));
    assert_eq!(rx.try_recv(), Ok(1));
    assert_eq!(rx.pending(), 0);
}

#[test]
fn control_handles_count_without_a_transport() {
    let (tx, rx) = ctl_pair();
    let other = tx.clone();
    assert_eq!(rx.pending(), 0);
    assert!(tx.inc().is_ok());
    assert!(other.inc().is_ok());
    assert_eq!(rx.pending(), 2);
    assert!(rx.dec().is_ok());
    assert_eq!(rx.pending(), 1);
    assert!(rx.dec().is_ok());
    assert_eq!(rx.pending(), 0);
}

#[test]
fn control_handles_toggle_the_registered_bit() {
    let poll = Poll::new().unwrap();
    let (tx, mut rx) = ctl_pair();
    assert!(tx.inc().is_ok());
    assert!(tx.inc().is_ok());
    assert!(rx.register(&poll, Token(9), Ready::readable(), PollOpt::level()).is_ok());
    assert!(readable(&poll, Token(9)));
    assert!(rx.dec().is_ok());
    assert_eq!(rx.pending(), 1);
    assert!(readable(&poll, Token(9)));
    assert!(rx.dec().is_ok());
    assert_eq!(rx.pending(), 0);
    assert!(!readable(&poll, Token(9)));
    assert!(tx.inc().is_ok());
    assert!(readable(&poll, Token(9)));
}

#[test]
fn engine_numbers_the_kind_readable_as_the_library_assumes() {
    assert_eq!(Ready::readable().as_usize(), poll_channel::engine::READABLE);
    assert_eq!(Ready::empty().as_usize(), 0);
    assert_eq!(Ready::writable().as_usize() & poll_channel::engine::READABLE, 0);
}

#[test]
fn a_signal_is_written_as_the_engine_value_of_its_kind() {
    let (_registration, setter) = mio::Registration::new2();
    assert!(setter.readiness().is_empty());
    assert!(write_readiness(Some(&setter), Some(Readiness::Readable)).is_ok());
    assert!(setter.readiness().is_readable());
    assert_eq!(setter.readiness(), Ready::readable());
    assert!(write_readiness(Some(&setter), Some(Readiness::Empty)).is_ok());
    assert!(setter.readiness().is_empty());
    assert_eq!(setter.readiness(), Ready::empty());
}

#[test]
fn no_signal_or_no_setter_writes_nothing() {
    let (_registration, setter) = mio::Registration::new2();
    assert!(write_readiness(Some(&setter), None).is_ok());
    assert!(setter.readiness().is_empty());
    assert!(write_readiness(None, Some(Readiness::Readable)).is_ok());
    assert!(setter.readiness().is_empty());
    assert!(write_readiness(Some(&setter), Some(Readiness::Readable)).is_ok());
    assert!(write_readiness(Some(&setter), None).is_ok());
    assert!(write_readiness(None, Some(Readiness::Empty)).is_ok());
    assert!(write_readiness(None, None).is_ok());
    assert!(setter.readiness().is_readable());
}

#[test]
fn only_the_addition_from_zero_announces_itself() {
    let poll = Poll::new().unwrap();
    let (tx, mut rx) = ctl_pair();
    assert!(rx.register(&poll, Token(11), Ready::readable(), PollOpt::level()).is_ok());
    assert!(tx.announce(1).is_ok());
    assert!(tx.announce(2).is_ok());
    assert!(tx.announce(usize::MAX).is_ok());
    assert!(!readable(&poll, Token(11)));
    assert!(tx.announce(0).is_ok());
    assert!(readable(&poll, Token(11)));
    assert_eq!(rx.pending(), 0);
}

#[test]
fn only_a_load_of_one_clears_ahead_of_the_subtraction() {
    let poll = Poll::new().unwrap();
    let (tx, mut rx) = ctl_pair();
    assert!(rx.register(&poll, Token(12), Ready::readable(), PollOpt::level()).is_ok());
    assert!(tx.announce(0).is_ok());
    assert!(rx.clear_ahead(0).is_ok());
    assert!(rx.clear_ahead(2).is_ok());
    assert!(rx.clear_ahead(usize::MAX).is_ok());
    assert!(readable(&poll, Token(12)));
    assert!(rx.clear_ahead(1).is_ok());
    assert!(!readable(&poll, Token(12)));
    assert_eq!(rx.pending(), 0);
}

#[test]
fn a_cleared_bit_is_set_again_only_for_a_message_counted_since_the_load() {
    let poll = Poll::new().unwrap();
    let (_tx, mut rx) = ctl_pair();
    assert!(rx.register(&poll, Token(13), Ready::readable(), PollOpt::level()).is_ok());
    assert!(rx.settle(1, 0).is_ok());
    assert!(rx.settle(1, 1).is_ok());
    assert!(rx.settle(0, 1).is_ok());
    assert!(rx.settle(2, 2).is_ok());
    assert!(rx.settle(2, 3).is_ok());
    assert!(!readable(&poll, Token(13)));
    assert!(rx.settle(1, 2).is_ok());
    assert!(readable(&poll, Token(13)));
    assert!(rx.clear_ahead(1).is_ok());
    assert!(!readable(&poll, Token(13)));
    assert!(rx.settle(1, 1).is_ok());
    assert!(!readable(&poll, Token(13)));
    assert!(rx.clear_ahead(1).is_ok());
    assert!(rx.settle(1, 3).is_ok());
    assert!(readable(&poll, Token(13)));
    assert_eq!(rx.pending(), 0);
}

#[test]
fn without_a_registration_every_write_is_dropped_and_succeeds() {
    let (tx, rx) = ctl_pair();
    assert!(tx.announce(0).is_ok());
    assert!(rx.clear_ahead(1).is_ok());
    assert!(rx.settle(1, 1).is_ok());
    assert_eq!(rx.pending(), 0);
}
