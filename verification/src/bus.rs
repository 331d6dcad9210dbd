//! A memory-backed model of the x86 I/O port space, and the width-polymorphic
//! read/write capability over it.

use vstd::pervasive::VecAdditionalExecFns;
use vstd::prelude::*;

verus! {

/// Number of addresses in the x86 I/O port space (the full range of a `u16`).
pub const PORT_COUNT: usize = 65536;

/// A memory-backed model of the I/O port space.
///
/// Each transfer width uses its own register class on the CPU, so the model
/// keeps one lane per width: a byte lane, a word lane and a double-word lane,
/// each with one cell per port address. A fresh bus holds zero in every cell.
pub struct PortBus {
    bytes: Vec<u8>,
    words: Vec<u16>,
    dwords: Vec<u32>,
}

impl PortBus {
    /// The lane used by 8-bit transfers, one cell per address.
    pub closed spec fn byte_lane(self) -> Seq<u8> {
        self.bytes@
    }

    /// The lane used by 16-bit transfers, one cell per address.
    pub closed spec fn word_lane(self) -> Seq<u16> {
        self.words@
    }

    /// The lane used by 32-bit transfers, one cell per address.
    pub closed spec fn dword_lane(self) -> Seq<u32> {
        self.dwords@
    }

    /// Well-formedness: every lane has one cell for each of the 65536 addresses.
    pub open spec fn wf(self) -> bool {
        &&& self.byte_lane().len() == PORT_COUNT
        &&& self.word_lane().len() == PORT_COUNT
        &&& self.dword_lane().len() == PORT_COUNT
    }

    /// Builds a bus with every cell of every lane zero.
    pub fn new() -> (bus: PortBus)
        ensures
            bus.wf(),
            forall|a: int| 0 <= a < PORT_COUNT ==> bus.byte_lane()[a] == 0u8,
            forall|a: int| 0 <= a < PORT_COUNT ==> bus.word_lane()[a] == 0u16,
            forall|a: int| 0 <= a < PORT_COUNT ==> bus.dword_lane()[a] == 0u32,
    {
        PortBus { bytes: filled(0u8), words: filled(0u16), dwords: filled(0u32) }
    }

    /// The byte-lane cell at `addr`.
    pub fn byte_at(&self, addr: u16) -> (r: u8)
        requires
            self.wf(),
        ensures
            r == self.byte_lane()[addr as int],
    {
        self.bytes[addr as usize]
    }

    /// The word-lane cell at `addr`.
    pub fn word_at(&self, addr: u16) -> (r: u16)
        requires
            self.wf(),
        ensures
            r == self.word_lane()[addr as int],
    {
        self.words[addr as usize]
    }

    /// The double-word-lane cell at `addr`.
    pub fn dword_at(&self, addr: u16) -> (r: u32)
        requires
            self.wf(),
        ensures
            r == self.dword_lane()[addr as int],
    {
        self.dwords[addr as usize]
    }
}

/// The width-polymorphic port read/write capability.
///
/// Exactly the three unsigned integer widths the hardware instruction set
/// supports implement this trait (`u8`, `u16`, `u32`); the width chosen at a
/// call site selects, at compile time, which register-class lane of the bus
/// the operation touches. A read observes one cell of that lane; a write
/// replaces one cell of that lane and leaves every other lane untouched.
pub trait PortRw: Sized {
    /// The register-class lane this width reads and writes.
    spec fn lane(bus: PortBus) -> Seq<Self>;

    /// Holds when the lanes of the other widths are the same in `pre` and
    /// `post`: nothing outside this width's register class was touched.
    spec fn untouched(pre: PortBus, post: PortBus) -> bool;

    /// On a well-formed bus this width's lane has one cell per address.
    proof fn lemma_lane_len(bus: PortBus)
        requires
            bus.wf(),
        ensures
            Self::lane(bus).len() == PORT_COUNT,
    ;

    /// A read behavior: observes this width's lane cell at `addr` and changes
    /// nothing.
    fn read(addr: u16, bus: &PortBus) -> (r: Self)
        requires
            bus.wf(),
        ensures
            r == Self::lane(*bus)[addr as int],
    ;

    /// A write behavior: replaces this width's lane cell at `addr` with
    /// `value` and touches no other cell and no other lane.
    fn write(addr: u16, value: Self, bus: &mut PortBus)
        requires
            old(bus).wf(),
        ensures
            final(bus).wf(),
            Self::lane(*final(bus)) == Self::lane(*old(bus)).update(addr as int, value),
            Self::untouched(*old(bus), *final(bus)),
    ;
}

impl PortRw for u8 {
    open spec fn lane(bus: PortBus) -> Seq<u8> {
        bus.byte_lane()
    }

    open spec fn untouched(pre: PortBus, post: PortBus) -> bool {
        post.word_lane() == pre.word_lane() && post.dword_lane() == pre.dword_lane()
    }

    proof fn lemma_lane_len(bus: PortBus) {
    }

    fn read(addr: u16, bus: &PortBus) -> (r: u8) {
        bus.bytes[addr as usize]
    }

    fn write(addr: u16, value: u8, bus: &mut PortBus) {
        bus.bytes.set(addr as usize, value);
    }
}

impl PortRw for u16 {
    open spec fn lane(bus: PortBus) -> Seq<u16> {
        bus.word_lane()
    }

    open spec fn untouched(pre: PortBus, post: PortBus) -> bool {
        post.byte_lane() == pre.byte_lane() && post.dword_lane() == pre.dword_lane()
    }

    proof fn lemma_lane_len(bus: PortBus) {
    }

    fn read(addr: u16, bus: &PortBus) -> (r: u16) {
        bus.words[addr as usize]
    }

    fn write(addr: u16, value: u16, bus: &mut PortBus) {
        bus.words.set(addr as usize, value);
    }
}

impl PortRw for u32 {
    open spec fn lane(bus: PortBus) -> Seq<u32> {
        bus.dword_lane()
    }

    open spec fn untouched(pre: PortBus, post: PortBus) -> bool {
        post.byte_lane() == pre.byte_lane() && post.word_lane() == pre.word_lane()
    }

    proof fn lemma_lane_len(bus: PortBus) {
    }

    fn read(addr: u16, bus: &PortBus) -> (r: u32) {
        bus.dwords[addr as usize]
    }

    fn write(addr: u16, value: u32, bus: &mut PortBus) {
        bus.dwords.set(addr as usize, value);
    }
}

/// Law: for every width, every address and every value, a write immediately
/// followed by a read of the same width at the same address yields the value
/// just written. The premise on `post` is exactly what `PortRw::write`
/// ensures of the bus it leaves behind; the conclusion is exactly what
/// `PortRw::read` returns from that bus.
pub proof fn lemma_write_read_round_trip<W: PortRw>(pre: PortBus, post: PortBus, addr: u16, value: W)
    requires
        pre.wf(),
        W::lane(post) == W::lane(pre).update(addr as int, value),
    ensures
        W::lane(post)[addr as int] == value,
{
    W::lemma_lane_len(pre);
}

/// Law: a write of one width affects only that width's register-class lane,
/// and within it only the written address: every other address of the lane
/// keeps its value, and the lanes of the other widths are untouched. The
/// premises are exactly what `PortRw::write` ensures of the bus it leaves
/// behind.
pub proof fn lemma_write_frame<W: PortRw>(pre: PortBus, post: PortBus, addr: u16, value: W)
    requires
        pre.wf(),
        W::lane(post) == W::lane(pre).update(addr as int, value),
        W::untouched(pre, post),
    ensures
        forall|a: int| 0 <= a < PORT_COUNT && a != addr ==> W::lane(post)[a] == W::lane(pre)[a],
{
    W::lemma_lane_len(pre);
}

/// A vector with one copy of `value` per port address.
fn filled<T: Copy>(value: T) -> (v: Vec<T>)
    ensures
        v@.len() == PORT_COUNT,
        forall|a: int| 0 <= a < PORT_COUNT ==> v@[a] == value,
{
    let mut v: Vec<T> = Vec::new();
    let mut i: usize = 0;
    while i < PORT_COUNT
        invariant
            i <= PORT_COUNT,
            v@.len() == i,
            forall|a: int| 0 <= a < i ==> v@[a] == value,
        decreases PORT_COUNT - i,
    {
        v.push(value);
        i = i + 1;
    }
    v
}

} // verus!
