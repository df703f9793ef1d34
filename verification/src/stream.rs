//! Bounded, section-partitioned input delta channel.
//!
//! Each input delta (a key or button press/release transition) is packed
//! into 32 bits: a 4-bit type tag at the high end, a 16-bit code, and one
//! state bit.  A [`FoldBits`] word holds two packed packets side by side; a
//! section is a row of folds holding one frame's worth of capacity; the
//! [`InputStream`] is a ring of sections with a writer index (head) and a
//! reader index (tail).  An all-zero half of a fold is the empty-slot
//! sentinel — no packet encodes to zero, because the type tag is never zero.

use vstd::prelude::*;

verus! {

use crate::input::{KeyboardKeyCode, MouseButtonIndex};
use vstd::arithmetic::div_mod::{lemma_add_mod_noop, lemma_mod_bound, lemma_small_mod};

/// The atomic unit of input change: one press or release transition.
#[derive(Clone, Copy, Debug, PartialEq, Eq, Structural)]
pub enum DeltaPacket {
    Keyboard { code: KeyboardKeyCode, down: bool },
    Mouse { button: MouseButtonIndex, down: bool },
}

/// The 32-bit encoding of a packet: one state bit, the 16-bit code at bit 8,
/// and the type tag (1 for keyboard, 2 for mouse) at bit 28.
pub open spec fn spec_as_bits(packet: DeltaPacket) -> u32 {
    match packet {
        DeltaPacket::Keyboard { code, down } => (if down {
            1u32
        } else {
            0u32
        }) | ((code.0 as u32) << 8) | (1u32 << 28),
        DeltaPacket::Mouse { button, down } => (if down {
            1u32
        } else {
            0u32
        }) | ((button.0 as u32) << 8) | (2u32 << 28),
    }
}

/// True of the words that decode to a packet: the type tag is 1 or 2.
pub open spec fn is_packet_bits(bits: u32) -> bool {
    bits >> 28 == 1 || bits >> 28 == 2
}

/// The packet a 32-bit word decodes to.
pub open spec fn spec_from_bits(bits: u32) -> DeltaPacket {
    if bits >> 28 == 1 {
        DeltaPacket::Keyboard {
            code: KeyboardKeyCode(((bits >> 8) & 0xFFFF) as u16),
            down: bits & 0xF == 1,
        }
    } else {
        DeltaPacket::Mouse {
            button: MouseButtonIndex(((bits >> 8) & 0xFFFF) as u16),
            down: bits & 0xF == 1,
        }
    }
}

impl DeltaPacket {
    /// Packs the packet into its 32-bit encoding.
    pub fn as_bits(self) -> (r: u32)
        ensures
            r == spec_as_bits(self),
    {
        match self {
            DeltaPacket::Keyboard { code, down } => {
                let state: u32 = if down {
                    1
                } else {
                    0
                };
                state | ((code.0 as u32) << 8) | (1u32 << 28)
            },
            DeltaPacket::Mouse { button, down } => {
                let state: u32 = if down {
                    1
                } else {
                    0
                };
                state | ((button.0 as u32) << 8) | (2u32 << 28)
            },
        }
    }

    /// Unpacks a 32-bit encoding.  A word whose type tag is neither the
    /// keyboard nor the mouse tag is not a packet; such a word can only come
    /// from a codec bug, so it is excluded rather than handled.
    pub fn from_bits(bits: u32) -> (r: Self)
        requires
            is_packet_bits(bits),
        ensures
            r == spec_from_bits(bits),
    {
        proof {
            assert(bits >> 28 < 256 && (bits >> 8) & 0xFFFF < 0x10000) by (bit_vector);
        }
        let state = bits & 0xF;
        let code = ((bits >> 8) & 0xFFFF) as u16;
        let id = (bits >> 28) as u8;
        if id == 1 {
            proof {
                assert(bits >> 28 < 256 ==> ((bits >> 28) as u8 == 1 <==> bits >> 28 == 1))
                    by (bit_vector);
            }
            DeltaPacket::Keyboard { code: KeyboardKeyCode(code), down: state == 1 }
        } else {
            proof {
                assert(bits >> 28 < 256 ==> ((bits >> 28) as u8 == 1 <==> bits >> 28 == 1))
                    by (bit_vector);
            }
            DeltaPacket::Mouse { button: MouseButtonIndex(code), down: state == 1 }
        }
    }
}

/// Law: the packet codec round-trips — decoding an encoded packet gives the
/// packet back — and no packet encodes to the all-zero empty-slot sentinel;
/// every encoding carries a recognised type tag.
pub proof fn lemma_packet_roundtrip(packet: DeltaPacket)
    ensures
        spec_from_bits(spec_as_bits(packet)) == packet,
        spec_as_bits(packet) != 0,
        is_packet_bits(spec_as_bits(packet)),
{
    match packet {
        DeltaPacket::Keyboard { code, down } => {
            let c = code.0;
            let d: u32 = if down {
                1u32
            } else {
                0u32
            };
            let bits = d | ((c as u32) << 8) | (1u32 << 28);
            assert(bits >> 28 == 1 && ((bits >> 8) & 0xFFFF) == c && (bits & 0xF) == d && bits
                != 0) by (bit_vector)
                requires
                    d == 0 || d == 1,
                    bits == d | ((c as u32) << 8) | (1u32 << 28),
            ;
        },
        DeltaPacket::Mouse { button, down } => {
            let c = button.0;
            let d: u32 = if down {
                1u32
            } else {
                0u32
            };
            let bits = d | ((c as u32) << 8) | (2u32 << 28);
            assert(bits >> 28 == 2 && ((bits >> 8) & 0xFFFF) == c && (bits & 0xF) == d && bits
                != 0) by (bit_vector)
                requires
                    d == 0 || d == 1,
                    bits == d | ((c as u32) << 8) | (2u32 << 28),
            ;
        },
    }
}

/// One 64-bit storage word of the channel, holding two packed packets: one
/// in the high ("left") half, one in the low ("right") half.  A zero half
/// is an empty slot.
#[derive(Clone, Copy, Debug)]
pub struct FoldBits(u64);

impl FoldBits {
    pub closed spec fn spec_bits(&self) -> u64 {
        self.0
    }

    /// The packed packet in the high half, or zero for an empty slot.
    pub open spec fn left(&self) -> u32 {
        (self.spec_bits() >> 32) as u32
    }

    /// The packed packet in the low half, or zero for an empty slot.
    pub open spec fn right(&self) -> u32 {
        (self.spec_bits() & 0xFFFF_FFFF) as u32
    }

    pub fn new(bits: u64) -> (r: Self)
        ensures
            r.spec_bits() == bits,
    {
        FoldBits(bits)
    }

    fn read_bits(&self) -> (r: (u32, u32))
        ensures
            r.0 == self.left(),
            r.1 == self.right(),
    {
        let value = self.0;
        proof {
            assert(value >> 32 < 0x1_0000_0000 && (value & 0xFFFF_FFFF) < 0x1_0000_0000)
                by (bit_vector);
        }
        let left = (value >> 32) as u32;
        let right = (value & 0xFFFF_FFFF) as u32;
        (left, right)
    }

    /// Stores the packet's encoding in the high half; the low half keeps
    /// its contents.
    pub fn write_left(&mut self, packet: DeltaPacket)
        ensures
            final(self).left() == spec_as_bits(packet),
            final(self).right() == old(self).right(),
    {
        let bits: u32 = packet.as_bits();
        let merged = ((bits as u64) << 32) | (self.0 & 0xFFFF_FFFF);
        proof {
            let prev = self.0;
            assert((((bits as u64) << 32) | (prev & 0xFFFF_FFFF)) >> 32 == bits && ((((bits
                as u64) << 32) | (prev & 0xFFFF_FFFF)) & 0xFFFF_FFFF) == prev & 0xFFFF_FFFF)
                by (bit_vector);
        }
        self.0 = merged;
    }

    /// Stores the packet's encoding in the low half; the high half keeps
    /// its contents.
    pub fn write_right(&mut self, packet: DeltaPacket)
        ensures
            final(self).right() == spec_as_bits(packet),
            final(self).left() == old(self).left(),
    {
        let bits: u32 = packet.as_bits();
        let merged = (self.0 & 0xFFFF_FFFF_0000_0000) | (bits as u64);
        proof {
            let prev = self.0;
            assert(((prev & 0xFFFF_FFFF_0000_0000) | (bits as u64)) >> 32 == prev >> 32 && (((prev
                & 0xFFFF_FFFF_0000_0000) | (bits as u64)) & 0xFFFF_FFFF) == bits) by (bit_vector);
        }
        self.0 = merged;
    }

    /// Reads the high half: the packet stored there, or nothing for an
    /// empty slot.
    pub fn read_left(&self) -> (r: Option<DeltaPacket>)
        requires
            self.left() == 0 || is_packet_bits(self.left()),
        ensures
            self.left() == 0 ==> r is None,
            self.left() != 0 ==> r == Some(spec_from_bits(self.left())),
    {
        let (left, _) = self.read_bits();
        if left == 0 {
            return None;
        }
        Some(DeltaPacket::from_bits(left))
    }

    /// Reads the low half: the packet stored there, or nothing for an
    /// empty slot.
    pub fn read_right(&self) -> (r: Option<DeltaPacket>)
        requires
            self.right() == 0 || is_packet_bits(self.right()),
        ensures
            self.right() == 0 ==> r is None,
            self.right() != 0 ==> r == Some(spec_from_bits(self.right())),
    {
        let (_, right) = self.read_bits();
        if right == 0 {
            return None;
        }
        Some(DeltaPacket::from_bits(right))
    }
}

/// A channel position: a section-local packet slot and a section number, a
/// pair of bounded integers that always move together.
#[derive(Clone, Copy, Debug)]
pub struct InputStreamIndex {
    local: u8,
    section: u8,
}

impl InputStreamIndex {
    /// The section-local packet slot this index points at.
    pub closed spec fn spec_local(&self) -> u8 {
        self.local
    }

    /// The section this index points into.
    pub closed spec fn spec_section(&self) -> u8 {
        self.section
    }

    pub fn new(inner_index: u8, section: u8) -> (r: Self)
        ensures
            r.spec_local() == inner_index,
            r.spec_section() == section,
    {
        InputStreamIndex { local: inner_index, section }
    }

    fn encode(&mut self, index: u8, section: u8)
        ensures
            final(self).spec_local() == index,
            final(self).spec_section() == section,
    {
        self.local = index;
        self.section = section;
    }

    /// Advances to the next local slot, wrapping within the section, and
    /// returns the slot to use together with the unchanged section.
    pub fn advance_local(&mut self, capacity: u8) -> (r: (u8, u8))
        requires
            capacity > 0,
        ensures
            final(self).spec_local() == (old(self).spec_local() + 1) % (capacity as int),
            final(self).spec_section() == old(self).spec_section(),
            r.0 == final(self).spec_local(),
            r.1 == final(self).spec_section(),
    {
        let next = (((self.local as u16) + 1) % (capacity as u16)) as u8;
        let section = self.section;
        self.encode(next, section);
        (next, section)
    }

    /// Advances to slot zero of the next section, wrapping around the ring.
    pub fn advance_section(&mut self, section_count: u8)
        requires
            section_count > 0,
        ensures
            final(self).spec_local() == 0,
            final(self).spec_section() == (old(self).spec_section() + 1) % (section_count as int),
    {
        let next = (((self.section as u16) + 1) % (section_count as u16)) as u8;
        self.encode(0, next);
    }

    pub fn section(&self) -> (r: u8)
        ensures
            r == self.spec_section(),
    {
        self.section
    }

    /// Both fields packed into one 16-bit word: the local slot in the high
    /// byte, the section in the low byte.
    pub fn get(&self) -> (r: u16)
        ensures
            r == ((self.spec_local() as u16) << 8 | (self.spec_section() as u16)),
    {
        ((self.local as u16) << 8) | (self.section as u16)
    }

    /// The local slot and the section, as a pair.
    pub fn extract(&self) -> (r: (u8, u8))
        ensures
            r.0 == self.spec_local(),
            r.1 == self.spec_section(),
    {
        (self.local, self.section)
    }
}

/// A half of a fold is valid when it is the empty-slot sentinel or a packet
/// encoding.
pub open spec fn valid_half(bits: u32) -> bool {
    bits == 0 || is_packet_bits(bits)
}

/// The input delta channel: a ring of sections, each a row of folds, with a
/// writer position (head) and a reader position (tail).  The writer pushes
/// packets into its current section and rotates to the next section once
/// per frame; the reader drains its current section and rotates once per
/// consumed frame.  Neither side rotates into the section the other side
/// still occupies, so a drained section is never being overwritten.
#[derive(Clone, Debug)]
pub struct InputStream {
    stream: Vec<Vec<FoldBits>>,
    folds_per_section: u8,
    section_count: u8,
    // write position
    head: InputStreamIndex,
    // read position
    tail: InputStreamIndex,
}

impl InputStream {
    /// Folds in one section.
    pub closed spec fn spec_folds(&self) -> u8 {
        self.folds_per_section
    }

    /// Sections in the ring.
    pub closed spec fn spec_section_count(&self) -> u8 {
        self.section_count
    }

    /// Packet slots in one section: two per fold.
    pub open spec fn spec_capacity(&self) -> int {
        2 * self.spec_folds() as int
    }

    /// The writer position.
    pub closed spec fn spec_head(&self) -> InputStreamIndex {
        self.head
    }

    /// The reader position.
    pub closed spec fn spec_tail(&self) -> InputStreamIndex {
        self.tail
    }

    pub closed spec fn spec_fold(&self, section: int, fold: int) -> FoldBits {
        self.stream@[section]@[fold]
    }

    /// The packed packet in slot `slot` of `section` (zero for an empty
    /// slot): even slots sit in the left half of their fold, odd slots in
    /// the right half.
    pub open spec fn spec_slot(&self, section: int, slot: int) -> u32 {
        if slot % 2 == 0 {
            self.spec_fold(section, slot / 2).left()
        } else {
            self.spec_fold(section, slot / 2).right()
        }
    }

    /// Well-formedness: the ring has its declared shape, both positions are
    /// in range, and every stored half is a packet encoding or empty.
    pub closed spec fn wf(&self) -> bool {
        &&& 1 <= self.folds_per_section <= 127
        &&& 1 <= self.section_count
        &&& self.stream@.len() == self.section_count
        &&& forall|s: int|
            0 <= s < self.section_count ==> (#[trigger] self.stream@[s])@.len()
                == self.folds_per_section
        &&& (self.head.spec_local() as int) < self.spec_capacity()
        &&& self.head.spec_section() < self.section_count
        &&& (self.tail.spec_local() as int) < self.spec_capacity()
        &&& self.tail.spec_section() < self.section_count
        &&& forall|s: int, f: int|
            0 <= s < self.section_count && 0 <= f < self.folds_per_section ==> valid_half(
                (#[trigger] self.stream@[s]@[f]).left(),
            ) && valid_half(self.stream@[s]@[f].right())
    }

    /// Both streams have the same section and fold counts.
    pub open spec fn same_shape(&self, other: InputStream) -> bool {
        &&& other.spec_folds() == self.spec_folds()
        &&& other.spec_section_count() == self.spec_section_count()
    }

    /// Every slot of `other` holds what the same slot of `self` holds.
    pub open spec fn same_slots(&self, other: InputStream) -> bool {
        forall|s: int, l: int|
            #![trigger self.spec_slot(s, l)]
            #![trigger other.spec_slot(s, l)]
            0 <= s < self.spec_section_count() && 0 <= l < self.spec_capacity()
                ==> other.spec_slot(s, l) == self.spec_slot(s, l)
    }

    /// A fresh channel: every slot empty, writer and reader both at slot
    /// zero of section zero.
    pub fn new(folds_per_section: u8, section_count: u8) -> (r: Self)
        requires
            1 <= folds_per_section <= 127,
            1 <= section_count,
        ensures
            r.wf(),
            r.spec_folds() == folds_per_section,
            r.spec_section_count() == section_count,
            r.spec_head().spec_local() == 0,
            r.spec_head().spec_section() == 0,
            r.spec_tail().spec_local() == 0,
            r.spec_tail().spec_section() == 0,
            forall|s: int, l: int|
                0 <= s < section_count && 0 <= l < 2 * folds_per_section ==> r.spec_slot(s, l)
                    == 0,
    {
        let mut sections: Vec<Vec<FoldBits>> = Vec::new();
        let mut s: u8 = 0;
        while s < section_count
            invariant
                s <= section_count,
                sections@.len() == s,
                forall|i: int|
                    0 <= i < s ==> (#[trigger] sections@[i])@.len() == folds_per_section,
                forall|i: int, j: int|
                    0 <= i < s && 0 <= j < folds_per_section
                        ==> (#[trigger] sections@[i]@[j]).spec_bits() == 0,
            decreases section_count - s,
        {
            let mut row: Vec<FoldBits> = Vec::new();
            let mut f: u8 = 0;
            while f < folds_per_section
                invariant
                    f <= folds_per_section,
                    row@.len() == f,
                    forall|j: int| 0 <= j < f ==> (#[trigger] row@[j]).spec_bits() == 0,
                decreases folds_per_section - f,
            {
                row.push(FoldBits::new(0));
                f = f + 1;
            }
            sections.push(row);
            s = s + 1;
        }
        let r = InputStream {
            stream: sections,
            folds_per_section,
            section_count,
            head: InputStreamIndex::new(0, 0),
            tail: InputStreamIndex::new(0, 0),
        };
        proof {
            assert((0u64 >> 32) as u32 == 0 && (0u64 & 0xFFFF_FFFF) as u32 == 0) by (bit_vector);
        }
        r
    }

    /// Rotates the writer into the next section — the frame boundary on the
    /// producing side.  Refused (silently, the position unchanged) when the
    /// next section is the one the reader still occupies: the writer never
    /// overwrites a section the reader has not released.
    pub fn frame_front(&mut self)
        requires
            old(self).wf(),
        ensures
            final(self).wf(),
            old(self).same_shape(*final(self)),
            old(self).same_slots(*final(self)),
            final(self).spec_tail() == old(self).spec_tail(),
            ({
                let next = (old(self).spec_head().spec_section() + 1) % (
                old(self).spec_section_count() as int);
                if next == old(self).spec_tail().spec_section() as int {
                    final(self).spec_head() == old(self).spec_head()
                } else {
                    final(self).spec_head().spec_section() == next && final(self).spec_head().spec_local() == 0
                }
            }),
    {
        let next = ((self.head.section() as u16 + 1) % (self.section_count as u16)) as u8;
        if next == self.tail.section() {
            return;
        }
        self.head.advance_section(self.section_count);
    }

    /// Rotates the reader into the next section — the frame boundary on the
    /// consuming side.  Refused (silently, the position unchanged) when the
    /// next section is the one the writer still occupies: this is the
    /// channel's backpressure, a reader that has fallen a whole ring behind
    /// simply stops advancing.
    pub fn frame_back(&mut self)
        requires
            old(self).wf(),
        ensures
            final(self).wf(),
            old(self).same_shape(*final(self)),
            old(self).same_slots(*final(self)),
            final(self).spec_head() == old(self).spec_head(),
            ({
                let next = (old(self).spec_tail().spec_section() + 1) % (
                old(self).spec_section_count() as int);
                if next == old(self).spec_head().spec_section() as int {
                    final(self).spec_tail() == old(self).spec_tail()
                } else {
                    final(self).spec_tail().spec_section() == next && final(self).spec_tail().spec_local() == 0
                }
            }),
    {
        let next = ((self.tail.section() as u16 + 1) % (self.section_count as u16)) as u8;
        if next == self.head.section() {
            return;
        }
        self.tail.advance_section(self.section_count);
    }

    /// Enqueues one packet: advances the writer's local slot (wrapping
    /// within the current section — pushing more than a section's capacity
    /// without a frame rotation overwrites the oldest slots) and stores the
    /// packet's encoding there.  Every other slot keeps its contents.
    pub fn push_front(&mut self, packet: DeltaPacket)
        requires
            old(self).wf(),
        ensures
            final(self).wf(),
            old(self).same_shape(*final(self)),
            final(self).spec_tail() == old(self).spec_tail(),
            final(self).spec_head().spec_section() == old(self).spec_head().spec_section(),
            final(self).spec_head().spec_local() == (old(self).spec_head().spec_local() + 1) % old(self).spec_capacity(),
            final(self).spec_slot(
                old(self).spec_head().spec_section() as int,
                final(self).spec_head().spec_local() as int,
            ) == spec_as_bits(packet),
            forall|s: int, l: int|
                0 <= s < old(self).spec_section_count() && 0 <= l < old(self).spec_capacity() && !(
                s == old(self).spec_head().spec_section() as int && l == final(self).spec_head().spec_local() as int) ==> final(self).spec_slot(s, l) == old(self).spec_slot(s, l),
    {
        proof {
            lemma_packet_roundtrip(packet);
        }
        let cap = 2 * self.folds_per_section;
        let (local, section) = self.head.advance_local(cap);
        let fold_i = (local / 2) as usize;
        let side = local % 2;
        let row = &mut self.stream[section as usize];
        let fold = &mut row[fold_i];
        if side == 0 {
            fold.write_left(packet);
        } else {
            fold.write_right(packet);
        }
    }

    /// Dequeues one slot: advances the reader's local slot (wrapping within
    /// the current section) and reads it — the packet stored there, or
    /// nothing if the slot is empty.
    pub fn pop_back(&mut self) -> (r: Option<DeltaPacket>)
        requires
            old(self).wf(),
        ensures
            final(self).wf(),
            old(self).same_shape(*final(self)),
            old(self).same_slots(*final(self)),
            final(self).spec_head() == old(self).spec_head(),
            final(self).spec_tail().spec_section() == old(self).spec_tail().spec_section(),
            final(self).spec_tail().spec_local() == (old(self).spec_tail().spec_local() + 1) % old(self).spec_capacity(),
            ({
                let bits = old(self).spec_slot(
                    old(self).spec_tail().spec_section() as int,
                    (old(self).spec_tail().spec_local() + 1) % old(self).spec_capacity(),
                );
                if bits == 0 {
                    r is None
                } else {
                    r == Some(spec_from_bits(bits))
                }
            }),
    {
        let cap = 2 * self.folds_per_section;
        let (local, section) = self.tail.advance_local(cap);
        let fold_i = (local / 2) as usize;
        let side = local % 2;
        let fold = &self.stream[section as usize][fold_i];
        if side == 0 {
            fold.read_left()
        } else {
            fold.read_right()
        }
    }

    /// The section the writer currently reports.
    pub fn head_section(&self) -> (r: u8)
        ensures
            r == self.spec_head().spec_section(),
    {
        self.head.section()
    }

    /// The section the reader currently reports.
    pub fn tail_section(&self) -> (r: u8)
        ensures
            r == self.spec_tail().spec_section(),
    {
        self.tail.section()
    }

    /// The packed packets a drain starting after slot `start` reads from
    /// `section`: slot contents in push order, stopping at the first empty
    /// slot, at most `budget` of them.
    pub open spec fn spec_run(&self, section: int, start: int, budget: nat) -> Seq<u32>
        decreases budget,
    {
        if budget == 0 {
            Seq::empty()
        } else {
            let l = (start + 1) % self.spec_capacity();
            let b = self.spec_slot(section, l);
            if b == 0 {
                Seq::empty()
            } else {
                seq![b] + self.spec_run(section, l, (budget - 1) as nat)
            }
        }
    }

    pub proof fn lemma_run_len(&self, section: int, start: int, budget: nat)
        ensures
            self.spec_run(section, start, budget).len() <= budget,
        decreases budget,
    {
        if budget > 0 {
            let l = (start + 1) % self.spec_capacity();
            self.lemma_run_len(section, l, (budget - 1) as nat);
        }
    }

    /// Drains the reader's current section: reads slot after slot in push
    /// order until the first empty slot (or until a whole section's capacity
    /// has been read), and returns the packets found, in order.  The
    /// reader's local slot ends up past the drained slots; its section does
    /// not move — that is [`frame_back`](InputStream::frame_back)'s job.
    pub fn drain_back(&mut self) -> (r: Vec<DeltaPacket>)
        requires
            old(self).wf(),
        ensures
            final(self).wf(),
            old(self).same_shape(*final(self)),
            old(self).same_slots(*final(self)),
            final(self).spec_head() == old(self).spec_head(),
            final(self).spec_tail().spec_section() == old(self).spec_tail().spec_section(),
            ({
                let run = old(self).spec_run(
                    old(self).spec_tail().spec_section() as int,
                    old(self).spec_tail().spec_local() as int,
                    old(self).spec_capacity() as nat,
                );
                &&& r@.len() == run.len()
                &&& (forall|i: int| 0 <= i < run.len() ==> r@[i] == spec_from_bits(run[i]))
                &&& final(self).spec_tail().spec_local() == (old(self).spec_tail().spec_local()
                    + run.len() + (if run.len() < old(self).spec_capacity() {
                    1int
                } else {
                    0int
                })) % old(self).spec_capacity()
            }),
    {
        let cap = 2 * self.folds_per_section;
        let ghost sec = self.tail.spec_section() as int;
        let ghost start0 = self.tail.spec_local() as int;
        let ghost run = self.spec_run(sec, start0, cap as nat);
        proof {
            self.lemma_run_len(sec, start0, cap as nat);
            lemma_small_mod(start0 as nat, cap as nat);
        }
        let mut out: Vec<DeltaPacket> = Vec::new();
        let mut k: u8 = 0;
        let mut stopped = false;
        while !stopped && k < cap
            invariant
                self.wf(),
                old(self).same_shape(*self),
                old(self).same_slots(*self),
                self.spec_head() == old(self).spec_head(),
                self.spec_tail().spec_section() == old(self).spec_tail().spec_section(),
                2 <= cap,
                cap == old(self).spec_capacity(),
                cap == self.spec_capacity(),
                sec == old(self).spec_tail().spec_section() as int,
                0 <= sec < old(self).spec_section_count(),
                start0 == old(self).spec_tail().spec_local() as int,
                run == old(self).spec_run(sec, start0, cap as nat),
                run.len() <= cap,
                k <= cap,
                self.spec_tail().spec_local() == (start0 + k) % (cap as int),
                forall|i: int| 0 <= i < out@.len() ==> out@[i] == spec_from_bits(run[i]),
                !stopped ==> out@.len() == k && run.len() >= k,
                !stopped ==> old(self).spec_run(sec, (start0 + k) % (cap as int), (cap - k) as nat)
                    == run.skip(k as int),
                stopped ==> out@.len() == run.len() && k == run.len() + 1,
            decreases cap - k,
        {
            let ghost pos = (start0 + k) % (cap as int);
            let ghost l = (pos + 1) % (cap as int);
            proof {
                lemma_mod_bound(start0 + k, cap as int);
                lemma_small_mod(1nat, cap as nat);
                lemma_add_mod_noop(start0 + k, 1, cap as int);
                lemma_mod_bound(pos + 1, cap as int);
            }
            let popped = self.pop_back();
            proof {
                let b = old(self).spec_slot(sec, l);
                assert(old(self).spec_run(sec, pos, (cap - k) as nat) == (if b == 0 {
                    Seq::<u32>::empty()
                } else {
                    seq![b] + old(self).spec_run(sec, l, (cap - k - 1) as nat)
                }));
            }
            match popped {
                Some(packet) => {
                    proof {
                        let b = old(self).spec_slot(sec, l);
                        let rest = old(self).spec_run(sec, l, (cap - k - 1) as nat);
                        assert(run.skip(k as int) == seq![b] + rest);
                        assert(run.skip(k as int)[0] == b);
                        assert(run[k as int] == b);
                        assert(run.len() >= k + 1);
                        assert(rest =~= run.skip(k as int + 1)) by {
                            assert(rest.len() == run.len() - k - 1);
                            assert forall|i: int| 0 <= i < rest.len() implies rest[i] == run.skip(
                                k as int + 1,
                            )[i] by {
                                assert(rest[i] == (seq![b] + rest)[i + 1]);
                            }
                        }
                        lemma_add_mod_noop(start0 + k, 1, cap as int);
                    }
                    out.push(packet);
                },
                None => {
                    proof {
                        assert(run.skip(k as int) =~= Seq::<u32>::empty());
                        assert(run.len() == k);
                    }
                    stopped = true;
                },
            }
            k = k + 1;
        }
        out
    }
}

/// Law: if the slots of a section hold, in push order after `start`, the
/// encodings of the packets `ps` — what that many `push_front` calls store
/// into a fresh section — followed by an empty slot wherever `ps` stops
/// short of `budget`, then the run a drain reads is exactly those
/// encodings.
pub proof fn lemma_run_reads_pushed(
    stream: InputStream,
    section: int,
    start: int,
    ps: Seq<DeltaPacket>,
    budget: nat,
)
    requires
        stream.wf(),
        0 <= section < stream.spec_section_count(),
        0 <= start < stream.spec_capacity(),
        ps.len() <= budget,
        budget <= stream.spec_capacity(),
        forall|i: int|
            0 <= i < ps.len() ==> stream.spec_slot(
                section,
                (start + 1 + i) % stream.spec_capacity(),
            ) == spec_as_bits(#[trigger] ps[i]),
        ps.len() < budget ==> stream.spec_slot(
            section,
            (start + 1 + ps.len()) % stream.spec_capacity(),
        ) == 0,
    ensures
        stream.spec_run(section, start, budget) == ps.map_values(
            |p: DeltaPacket| spec_as_bits(p),
        ),
    decreases budget,
{
    let cap = stream.spec_capacity();
    let enc = ps.map_values(|p: DeltaPacket| spec_as_bits(p));
    if ps.len() == 0 {
        assert(enc =~= Seq::<u32>::empty());
    } else {
        let l = (start + 1) % cap;
        lemma_mod_bound(start + 1, cap);
        lemma_packet_roundtrip(ps[0]);
        assert(stream.spec_slot(section, (start + 1 + 0) % cap) == spec_as_bits(ps[0]));
        let rest = ps.drop_first();
        assert forall|i: int| 0 <= i < rest.len() implies stream.spec_slot(
            section,
            (l + 1 + i) % cap,
        ) == spec_as_bits(#[trigger] rest[i]) by {
            lemma_small_mod((1 + i) as nat, cap as nat);
            lemma_add_mod_noop(start + 1, 1 + i, cap);
            assert((l + 1 + i) % cap == (start + 1 + (i + 1)) % cap);
            assert(rest[i] == ps[i + 1]);
        }
        if rest.len() < (budget - 1) as nat {
            lemma_small_mod((1 + rest.len()) as nat, cap as nat);
            lemma_add_mod_noop(start + 1, 1 + rest.len() as int, cap);
            assert((l + 1 + rest.len()) % cap == (start + 1 + ps.len()) % cap);
        }
        lemma_run_reads_pushed(stream, section, l, rest, (budget - 1) as nat);
        assert(stream.spec_run(section, start, budget) == seq![spec_as_bits(ps[0])]
            + stream.spec_run(section, l, (budget - 1) as nat));
        assert(enc =~= seq![spec_as_bits(ps[0])] + rest.map_values(
            |p: DeltaPacket| spec_as_bits(p),
        ));
    }
}

/// Law: pushing any packets `ps`, at most one section's capacity of them,
/// into an otherwise empty section and then draining that section yields
/// exactly `ps`, first in, first out.  The slot hypothesis below is what
/// `ps.len()` many `push_front` calls into a fresh section establish; the
/// conclusion speaks of the run that `drain_back` decodes.
pub proof fn lemma_drain_fifo(stream: InputStream, section: int, start: int, ps: Seq<DeltaPacket>)
    requires
        stream.wf(),
        0 <= section < stream.spec_section_count(),
        0 <= start < stream.spec_capacity(),
        ps.len() <= stream.spec_capacity(),
        forall|i: int|
            0 <= i < ps.len() ==> stream.spec_slot(
                section,
                (start + 1 + i) % stream.spec_capacity(),
            ) == spec_as_bits(#[trigger] ps[i]),
        ps.len() < stream.spec_capacity() ==> stream.spec_slot(
            section,
            (start + 1 + ps.len()) % stream.spec_capacity(),
        ) == 0,
    ensures
        stream.spec_run(section, start, stream.spec_capacity() as nat).len() == ps.len(),
        forall|i: int|
            0 <= i < ps.len() ==> spec_from_bits(
                stream.spec_run(section, start, stream.spec_capacity() as nat)[i],
            ) == #[trigger] ps[i],
{
    lemma_run_reads_pushed(stream, section, start, ps, stream.spec_capacity() as nat);
    assert forall|i: int| 0 <= i < ps.len() implies spec_from_bits(
        stream.spec_run(section, start, stream.spec_capacity() as nat)[i],
    ) == #[trigger] ps[i] by {
        lemma_packet_roundtrip(ps[i]);
    }
}

} // verus!
