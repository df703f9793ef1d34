use lockstep::input::KeyboardKeyCode;
use lockstep::input::MouseButtonIndex;
use lockstep::stream::DeltaPacket;
use lockstep::stream::FoldBits;
use lockstep::stream::InputStream;
use lockstep::stream::InputStreamIndex;

fn key(code: u16, down: bool) -> DeltaPacket {
    DeltaPacket::Keyboard { code: KeyboardKeyCode(code), down }
}

fn mouse(button: u16, down: bool) -> DeltaPacket {
    DeltaPacket::Mouse { button: MouseButtonIndex(button), down }
}

#[test]
fn keyboard_packet_round_trips() {
    let packet = key(65, true);
    let bits = packet.as_bits();
    assert_eq!(DeltaPacket::from_bits(bits), packet);
}

#[test]
fn mouse_packet_round_trips() {
    let packet = mouse(3, false);
    let bits = packet.as_bits();
    assert_eq!(DeltaPacket::from_bits(bits), packet);
}

#[test]
fn keyboard_encoding_is_bit_exact() {
    // One state bit, the code at bit 8, the keyboard tag at bit 28.
    assert_eq!(key(65, true).as_bits(), 0x1000_4101);
    assert_eq!(key(65, false).as_bits(), 0x1000_4100);
    assert_eq!(mouse(1, true).as_bits(), 0x2000_0101);
}

#[test]
fn no_packet_encodes_to_the_empty_slot_sentinel() {
    assert_ne!(key(0, false).as_bits(), 0);
    assert_ne!(mouse(0, false).as_bits(), 0);
}

#[test]
fn fold_halves_are_independent() {
    let mut fold = FoldBits::new(0);
    fold.write_left(key(1, true));
    fold.write_right(mouse(2, false));
    assert_eq!(fold.read_left(), Some(key(1, true)));
    assert_eq!(fold.read_right(), Some(mouse(2, false)));
    fold.write_left(key(3, false));
    // Rewriting one half leaves the other half's packet in place.
    assert_eq!(fold.read_right(), Some(mouse(2, false)));
    assert_eq!(fold.read_left(), Some(key(3, false)));
}

#[test]
fn empty_fold_halves_read_as_no_packet() {
    let fold = FoldBits::new(0);
    assert_eq!(fold.read_left(), None);
    assert_eq!(fold.read_right(), None);
}

#[test]
fn index_advances_locally_with_wraparound() {
    let mut index = InputStreamIndex::new(0, 3);
    assert_eq!(index.advance_local(4), (1, 3));
    assert_eq!(index.advance_local(4), (2, 3));
    assert_eq!(index.advance_local(4), (3, 3));
    assert_eq!(index.advance_local(4), (0, 3));
    assert_eq!(index.extract(), (0, 3));
}

#[test]
fn index_advances_sections_with_wraparound() {
    let mut index = InputStreamIndex::new(5, 0);
    index.advance_section(2);
    assert_eq!(index.extract(), (0, 1));
    index.advance_section(2);
    assert_eq!(index.extract(), (0, 0));
}

#[test]
fn index_packs_local_slot_and_section_together() {
    let index = InputStreamIndex::new(0x04, 0x02);
    assert_eq!(index.get(), 0x0402);
    assert_eq!(index.section(), 0x02);
}

#[test]
fn pushing_then_draining_is_fifo() {
    let mut stream = InputStream::new(2, 2);
    let packets = [key(65, true), mouse(1, true), key(65, false)];
    for packet in packets {
        stream.push_front(packet);
    }
    let drained = stream.drain_back();
    assert_eq!(drained, packets.to_vec());
}

#[test]
fn draining_an_empty_stream_yields_nothing() {
    let mut stream = InputStream::new(2, 2);
    assert_eq!(stream.drain_back(), vec![]);
}

#[test]
fn a_full_section_drains_completely() {
    let mut stream = InputStream::new(2, 2);
    let packets = [key(1, true), key(2, true), key(3, true), key(4, true)];
    for packet in packets {
        stream.push_front(packet);
    }
    assert_eq!(stream.drain_back(), packets.to_vec());
}

#[test]
fn overfilling_a_section_overwrites_the_oldest_slot() {
    // Capacity loss, not a crash: the local index wraps within the section.
    let mut stream = InputStream::new(2, 2);
    for packet in [key(1, true), key(2, true), key(3, true), key(4, true), key(5, true)] {
        stream.push_front(packet);
    }
    let drained = stream.drain_back();
    assert_eq!(drained, vec![key(5, true), key(2, true), key(3, true), key(4, true)]);
}

#[test]
fn pop_reads_slots_one_at_a_time() {
    let mut stream = InputStream::new(2, 2);
    stream.push_front(key(9, true));
    assert_eq!(stream.pop_back(), Some(key(9, true)));
    assert_eq!(stream.pop_back(), None);
}

#[test]
fn writer_rotation_is_refused_on_tail_collision() {
    // Two sections, one fold each: after one rotation the writer's next
    // section is the reader's, so a second rotation must be refused.
    let mut stream = InputStream::new(1, 2);
    stream.push_front(key(65, true));
    stream.push_front(key(66, true));
    assert_eq!(stream.head_section(), 0);
    stream.frame_front();
    assert_eq!(stream.head_section(), 1);
    stream.frame_front();
    assert_eq!(stream.head_section(), 1);
}

#[test]
fn reader_rotation_is_refused_on_head_collision() {
    let mut stream = InputStream::new(1, 3);
    // The writer sits in section 1 after one rotation; the reader may not
    // advance into it.
    stream.frame_front();
    assert_eq!(stream.head_section(), 1);
    stream.frame_back();
    assert_eq!(stream.tail_section(), 0);
    // Once the writer has moved on, the reader may take section 1.
    stream.frame_front();
    assert_eq!(stream.head_section(), 2);
    stream.frame_back();
    assert_eq!(stream.tail_section(), 1);
}

#[test]
fn reader_drains_its_section_then_rotates() {
    let mut stream = InputStream::new(2, 3);
    stream.push_front(key(7, true));
    stream.push_front(key(8, true));
    assert_eq!(stream.drain_back(), vec![key(7, true), key(8, true)]);
    stream.frame_front();
    stream.frame_front();
    stream.frame_back();
    assert_eq!(stream.tail_section(), 1);
    // The reader's next section holds no packets.
    assert_eq!(stream.drain_back(), vec![]);
}

#[test]
fn draining_twice_yields_nothing_new() {
    let mut stream = InputStream::new(2, 2);
    stream.push_front(key(1, true));
    stream.push_front(key(2, false));
    assert_eq!(stream.drain_back().len(), 2);
    assert_eq!(stream.drain_back(), vec![]);
}
