use sandbox_bridge::guest::{BridgeError, GuestMemory};
use sandbox_bridge::protocol::{decode_frame, frame_message};

#[test]
fn new_region_is_zeroed() {
    let mem = GuestMemory::new(8);
    assert_eq!(mem.size(), 8);
    assert_eq!(mem.read_guest(0, 8), Ok(vec![0u8; 8]));
}

#[test]
fn write_then_read_round_trips() {
    let mut mem = GuestMemory::new(16);
    assert_eq!(mem.write_guest(4, &[1, 2, 3, 4, 5]), Ok(()));
    assert_eq!(mem.read_guest(4, 5), Ok(vec![1, 2, 3, 4, 5]));
    // Bytes around the written range stay zero.
    assert_eq!(mem.read_guest(0, 4), Ok(vec![0u8; 4]));
    assert_eq!(mem.read_guest(9, 7), Ok(vec![0u8; 7]));
}

#[test]
fn read_out_of_bounds_faults() {
    let mem = GuestMemory::new(4);
    assert_eq!(mem.read_guest(3, 2), Err(BridgeError::MemoryFault));
    assert_eq!(mem.read_guest(5, 0), Err(BridgeError::MemoryFault));
}

#[test]
fn write_out_of_bounds_faults_and_leaves_memory_alone() {
    let mut mem = GuestMemory::new(4);
    assert_eq!(mem.write_guest(2, &[1, 2, 3]), Err(BridgeError::MemoryFault));
    assert_eq!(mem.read_guest(0, 4), Ok(vec![0u8; 4]));
}

#[test]
fn guest_text_decodes_utf8() {
    let mut mem = GuestMemory::new(8);
    assert_eq!(mem.write_guest(1, b"vm ok"), Ok(()));
    assert_eq!(mem.read_guest_text(1, 5), Ok(String::from("vm ok")));
}

#[test]
fn guest_text_rejects_invalid_utf8() {
    let mut mem = GuestMemory::new(4);
    assert_eq!(mem.write_guest(0, &[0xff, 0xfe]), Ok(()));
    assert_eq!(mem.read_guest_text(0, 2), Err(BridgeError::InvalidText));
}

#[test]
fn guest_text_faults_outside_region() {
    let mem = GuestMemory::new(4);
    assert_eq!(mem.read_guest_text(2, 3), Err(BridgeError::MemoryFault));
}

#[test]
fn reply_delivery_returns_written_length() {
    let mut mem = GuestMemory::new(8);
    let reply = [9u8, 8, 7];
    assert_eq!(mem.deliver_reply(1, &reply), Ok(3));
    assert_eq!(mem.read_guest(1, 3), Ok(reply.to_vec()));
}

#[test]
fn reply_that_does_not_fit_faults() {
    let mut mem = GuestMemory::new(8);
    assert_eq!(mem.deliver_reply(6, &[1, 2, 3]), Err(BridgeError::MemoryFault));
    assert_eq!(mem.read_guest(0, 8), Ok(vec![0u8; 8]));
}

#[test]
fn bridge_error_messages_identify_invariants() {
    assert_eq!(
        BridgeError::InvalidText.message(),
        "guest logged text that is not valid UTF-8"
    );
    assert_eq!(
        BridgeError::MemoryFault.message(),
        "guest memory range out of bounds"
    );
}

#[test]
fn loop_iteration_stages_message_before_syscall() {
    // One steady-state loop turn: a five-byte message arrives framed, the
    // guest allocates scratch space, and the bytes must sit in guest
    // memory at that offset before the syscall-handling export runs.
    let message = [5u8, 4, 3, 2, 1];
    let frame = frame_message(&message);
    let received = decode_frame(&frame).expect("a frame built by send must be received");
    assert_eq!(received.len(), 5);

    let scratch_offset = 12;
    let mut mem = GuestMemory::new(32);
    assert_eq!(mem.write_guest(scratch_offset, &received), Ok(()));
    assert_eq!(mem.read_guest(scratch_offset, received.len()), Ok(message.to_vec()));
}
