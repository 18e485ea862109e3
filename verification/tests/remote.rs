use yakka::drone::network::seed_of_words;
use yakka::drone::trace::{needs_zero_length_packet, LOG_BUFFER_SIZE, USB_TRANSFER_BUFFER_SIZE};
use yakka::drone::powerplant::{channel_period, CHANNEL_DIVIDER, CHANNEL_FREQUENCY, CHANNEL_PERIOD_PARTS};
use yakka::log::usb::Usb;
use yakka::protocol::control::ControlBehavior;
use yakka::protocol::packet::{Packet, PacketArm, PacketControl};
use yakka::remote::{CommandLine, Scroll};

#[test]
fn command_line_editing() {
    let mut line = CommandLine::new();
    assert!(line.characters().is_empty());
    for target_char in "connect -A".chars() {
        line.push(target_char);
    }
    line.backspace();
    assert_eq!(line.characters().iter().collect::<String>(), "connect -");
    line.push('x');
    line.backspace();
    assert_eq!(line.characters().iter().collect::<String>(), "connect -");
    line.clear();
    assert!(line.characters().is_empty());
    line.backspace();
    assert!(line.characters().is_empty());
}

#[test]
fn scroll_saturates() {
    let mut scroll = Scroll::default();
    scroll.up();
    scroll.left();
    assert_eq!(scroll, Scroll { vertical: 0, horizontal: 0 });
    scroll.down();
    scroll.down();
    scroll.right();
    assert_eq!(scroll, Scroll { vertical: 2, horizontal: 1 });
    scroll.up();
    assert_eq!(scroll.vertical, 1);
    let mut bottom = Scroll { vertical: u16::MAX, horizontal: u16::MAX };
    bottom.down();
    bottom.right();
    assert_eq!(bottom, Scroll { vertical: u16::MAX, horizontal: u16::MAX });
}

#[test]
fn powerplant_channel_period() {
    assert_eq!(CHANNEL_PERIOD_PARTS, CHANNEL_FREQUENCY * CHANNEL_DIVIDER as u32);
    assert_eq!(channel_period(125_000_000), 19530);
    assert_eq!(channel_period(6400), 0);
}

#[test]
fn protocol_packets() {
    assert_eq!(ControlBehavior::default(), ControlBehavior::Managed);
    let packet = Packet::Control(PacketControl::Behavior(ControlBehavior::Accrobatic));
    assert!(matches!(packet, Packet::Control(PacketControl::Behavior(ControlBehavior::Accrobatic))));
    let bytes = [1_u8, 2, 3];
    assert!(matches!(Packet::Debug(&bytes), Packet::Debug(b) if b.len() == 3));
    assert_ne!(PacketArm::Arm, PacketArm::Disarm);
}

#[test]
fn usb_default_buffer() {
    assert_eq!(Usb::<0>::DEFAULT_BUFFER_SIZE, 0x400);
}

#[test]
fn network_seed_from_two_words() {
    assert_eq!(seed_of_words(0x1234_5678, 0x9abc_def0), 0x1234_5678_9abc_def0);
    assert_eq!(seed_of_words(0, 7), 7);
    assert_eq!(seed_of_words(u32::MAX, u32::MAX), u64::MAX);
}

#[test]
fn tracer_zero_length_packets() {
    assert_eq!(LOG_BUFFER_SIZE, 0x400);
    assert_eq!(USB_TRANSFER_BUFFER_SIZE, 0x40);
    assert!(needs_zero_length_packet(64, 64));
    assert!(!needs_zero_length_packet(63, 64));
    assert!(needs_zero_length_packet(320, 64));
    assert!(!needs_zero_length_packet(0, 64));
}
