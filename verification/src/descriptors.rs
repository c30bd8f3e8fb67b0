//! USB string descriptors in wire format.
//!
//! A string descriptor is `[length byte][type byte 3][UTF-16LE code
//! units]`, the length byte giving the total buffer size in bytes. The
//! module builds and decodes that format, proves the two directions
//! invert one another, and assembles the fixed six-entry table the
//! device hands to the vendor driver: the language descriptor first,
//! then manufacturer, product, serial, control-interface and
//! configuration descriptions, in that order, frozen after one
//! construction.

use vstd::prelude::*;
use vstd::arithmetic::div_mod::lemma_fundamental_div_mod;

verus! {

/// Wire type tag of a string descriptor.
pub const STRING_DESCRIPTOR_TYPE: u8 = 3;

/// The two bytes of one UTF-16 code unit, least significant first.
pub proof fn lemma_unit_split(u: u16)
    by (bit_vector)
    ensures
        (u & 0xff) < 256,
        (u >> 8) < 256,
{
}

/// Reassembling a code unit from its two bytes recovers both halves.
pub proof fn lemma_unit_recombine(lo: u8, hi: u8)
    by (bit_vector)
    ensures
        (((lo as u16) | ((hi as u16) << 8)) & 0xff) == lo as u16,
        (((lo as u16) | ((hi as u16) << 8)) >> 8) == hi as u16,
{
}

/// A code unit is determined by its two bytes.
pub proof fn lemma_unit_injective(a: u16, b: u16)
    by (bit_vector)
    requires
        a & 0xff == b & 0xff,
        a >> 8 == b >> 8,
    ensures
        a == b,
{
}

/// Code units laid out little-endian, two bytes each.
pub open spec fn utf16le_bytes(units: Seq<u16>) -> Seq<u8>
    decreases units.len(),
{
    if units.len() == 0 {
        Seq::empty()
    } else {
        utf16le_bytes(units.drop_last())
            .push((units.last() & 0xff) as u8)
            .push((units.last() >> 8) as u8)
    }
}

/// The payload is twice as long as the unit sequence.
pub proof fn lemma_utf16le_len(units: Seq<u16>)
    ensures
        utf16le_bytes(units).len() == 2 * units.len(),
    decreases units.len(),
{
    if units.len() > 0 {
        lemma_utf16le_len(units.drop_last());
    }
}

/// The whole wire buffer of a descriptor: its own total length, the
/// string type tag, then the UTF-16LE payload.
pub open spec fn descriptor_bytes(units: Seq<u16>) -> Seq<u8> {
    seq![(2 + 2 * units.len()) as u8, STRING_DESCRIPTOR_TYPE] + utf16le_bytes(units)
}

/// A buffer is in the string-descriptor wire format: at least the two
/// header bytes, the length byte equal to the total size in bytes (so
/// the size fits one byte), the string type tag, and a whole number of
/// two-byte code units.
pub open spec fn valid_descriptor(b: Seq<u8>) -> bool {
    &&& b.len() >= 2
    &&& b.len() <= 255
    &&& b[0] as int == b.len()
    &&& b[1] == STRING_DESCRIPTOR_TYPE
    &&& b.len() % 2 == 0
}

/// Equal payloads come from equal unit sequences.
pub proof fn lemma_utf16le_injective(a: Seq<u16>, b: Seq<u16>)
    requires
        utf16le_bytes(a) == utf16le_bytes(b),
        a.len() == b.len(),
    ensures
        a == b,
    decreases a.len(),
{
    lemma_utf16le_len(a);
    lemma_utf16le_len(b);
    if a.len() > 0 {
        let pa = utf16le_bytes(a);
        let pb = utf16le_bytes(b);
        let ta = utf16le_bytes(a.drop_last());
        let tb = utf16le_bytes(b.drop_last());
        lemma_utf16le_len(a.drop_last());
        lemma_utf16le_len(b.drop_last());
        assert(pa == ta.push((a.last() & 0xff) as u8).push((a.last() >> 8) as u8));
        assert(pb == tb.push((b.last() & 0xff) as u8).push((b.last() >> 8) as u8));
        lemma_unit_split(a.last());
        lemma_unit_split(b.last());
        assert(pa[pa.len() - 2] == (a.last() & 0xff) as u8);
        assert(pb[pb.len() - 2] == (b.last() & 0xff) as u8);
        assert(pa[pa.len() - 1] == (a.last() >> 8) as u8);
        assert(pb[pb.len() - 1] == (b.last() >> 8) as u8);
        assert(a.last() & 0xff == b.last() & 0xff);
        assert(a.last() >> 8 == b.last() >> 8);
        lemma_unit_injective(a.last(), b.last());
        assert(ta =~= tb) by {
            assert forall|i: int| 0 <= i < ta.len() implies ta[i] == tb[i] by {
                assert(ta[i] == pa[i]);
                assert(tb[i] == pb[i]);
            }
        }
        lemma_utf16le_injective(a.drop_last(), b.drop_last());
        assert(a =~= b) by {
            assert forall|i: int| 0 <= i < a.len() implies a[i] == b[i] by {
                if i < a.len() - 1 {
                    assert(a[i] == a.drop_last()[i]);
                    assert(b[i] == b.drop_last()[i]);
                } else {
                    assert(a[i] == a.last());
                    assert(b[i] == b.last());
                }
            }
        }
    } else {
        assert(a =~= b);
    }
}

/// Round trip: encoding is valid wire format, and any unit sequence
/// whose encoding matches a descriptor's bytes is that descriptor's
/// payload — reconstructing the payload from the buffer yields exactly
/// the text that was encoded.
pub proof fn lemma_descriptor_round_trip(units: Seq<u16>, reconstructed: Seq<u16>)
    requires
        2 + 2 * units.len() <= 255,
        descriptor_bytes(reconstructed) == descriptor_bytes(units),
    ensures
        valid_descriptor(descriptor_bytes(units)),
        reconstructed == units,
{
    lemma_utf16le_len(units);
    lemma_utf16le_len(reconstructed);
    let b = descriptor_bytes(units);
    assert(b[0] == (2 + 2 * units.len()) as u8);
    assert(b.len() == 2 + 2 * units.len());
    lemma_fundamental_div_mod(b.len() as int, 2);
    assert(utf16le_bytes(reconstructed) =~= utf16le_bytes(units)) by {
        assert(forall|i: int|
            0 <= i < utf16le_bytes(units).len()
                ==> utf16le_bytes(reconstructed)[i] == descriptor_bytes(reconstructed)[i + 2]
                    && utf16le_bytes(units)[i] == descriptor_bytes(units)[i + 2]);
    }
    lemma_utf16le_injective(reconstructed, units);
}

/// Build one string descriptor from its code units.
pub fn build_string_descriptor(units: &Vec<u16>) -> (buf: Vec<u8>)
    requires
        2 + 2 * units@.len() <= 255,
    ensures
        buf@ == descriptor_bytes(units@),
        valid_descriptor(buf@),
{
    let n = units.len();
    let total: u8 = (2 + 2 * n) as u8;
    let mut buf: Vec<u8> = Vec::new();
    buf.push(total);
    buf.push(STRING_DESCRIPTOR_TYPE);
    let mut i: usize = 0;
    proof {
        assert(utf16le_bytes(units@.take(0)) =~= Seq::<u8>::empty());
    }
    while i < n
        invariant
            i <= n,
            n == units@.len(),
            2 + 2 * n <= 255,
            buf@.len() == 2 + 2 * i,
            buf@ == seq![(2 + 2 * n) as u8, STRING_DESCRIPTOR_TYPE]
                + utf16le_bytes(units@.take(i as int)),
        decreases n - i,
    {
        let u = units[i];
        proof {
            lemma_unit_split(u);
            lemma_utf16le_len(units@.take(i as int));
            assert(units@.take(i + 1).drop_last() =~= units@.take(i as int));
            assert(units@.take(i + 1).last() == u);
        }
        let lo16: u16 = u & 0xff;
        buf.push(lo16 as u8);
        let hi16: u16 = u >> 8;
        buf.push(hi16 as u8);
        i = i + 1;
        proof {
            assert(buf@ =~= seq![(2 + 2 * n) as u8, STRING_DESCRIPTOR_TYPE]
                + utf16le_bytes(units@.take(i as int)));
        }
    }
    proof {
        assert(units@.take(n as int) =~= units@);
        lemma_utf16le_len(units@);
        assert(buf@ =~= descriptor_bytes(units@));
        lemma_descriptor_round_trip(units@, units@);
    }
    buf
}

/// Truncating a push to the two bytes of one more unit keeps the
/// payload shape: used stepwise while decoding.
proof fn lemma_utf16le_push(units: Seq<u16>, u: u16)
    ensures
        utf16le_bytes(units.push(u)) == utf16le_bytes(units)
            .push((u & 0xff) as u8)
            .push((u >> 8) as u8),
{
    assert(units.push(u).drop_last() =~= units);
    assert(units.push(u).last() == u);
}

/// Decode a buffer by its own declared length byte. Returns the code
/// units exactly when the buffer is in the wire format, and the
/// returned units re-encode to the very same bytes.
pub fn decode_string_descriptor(buf: &Vec<u8>) -> (r: Option<Vec<u16>>)
    ensures
        match r {
            Option::Some(units) => {
                &&& valid_descriptor(buf@)
                &&& buf@ == descriptor_bytes(units@)
                &&& 2 * units@.len() + 2 == buf@.len()
            },
            Option::None => !valid_descriptor(buf@),
        },
{
    let n = buf.len();
    if n < 2 || n > 255 {
        return Option::None;
    }
    if (buf[0] as usize) != n {
        return Option::None;
    }
    if buf[1] != STRING_DESCRIPTOR_TYPE {
        return Option::None;
    }
    if n % 2 != 0 {
        return Option::None;
    }
    let mut units: Vec<u16> = Vec::new();
    let mut i: usize = 2;
    proof {
        assert(utf16le_bytes(units@) =~= buf@.subrange(2, 2));
    }
    while i < n
        invariant
            2 <= i <= n,
            i % 2 == 0,
            n == buf@.len(),
            n % 2 == 0,
            n <= 255,
            2 * units@.len() + 2 == i,
            utf16le_bytes(units@) == buf@.subrange(2, i as int),
        decreases n - i,
    {
        let lo = buf[i];
        let hi = buf[i + 1];
        let u: u16 = (lo as u16) | ((hi as u16) << 8);
        proof {
            lemma_unit_recombine(lo, hi);
            lemma_utf16le_push(units@, u);
            assert(buf@.subrange(2, i + 2) =~= buf@.subrange(2, i as int)
                .push(buf@[i as int])
                .push(buf@[i + 1]));
        }
        units.push(u);
        i = i + 2;
    }
    proof {
        assert(buf@.subrange(2, n as int) =~= buf@.skip(2));
        assert(buf@ =~= seq![buf@[0], buf@[1]] + buf@.skip(2));
        assert(descriptor_bytes(units@) =~= buf@);
    }
    Option::Some(units)
}

/// The one language identifier the device reports: English (US).
pub open spec fn language_ids() -> Seq<u16> {
    seq![0x0409u16]
}

/// "Texas Instruments" as UTF-16 code units.
pub open spec fn manufacturer_text() -> Seq<u16> {
    seq![84u16, 101, 120, 97, 115, 32, 73, 110, 115, 116, 114, 117, 109, 101, 110, 116, 115]
}

/// "Virtual COM Port" as UTF-16 code units.
pub open spec fn product_text() -> Seq<u16> {
    seq![86u16, 105, 114, 116, 117, 97, 108, 32, 67, 79, 77, 32, 80, 111, 114, 116]
}

/// "12345678" as UTF-16 code units.
pub open spec fn serial_text() -> Seq<u16> {
    seq![49u16, 50, 51, 52, 53, 54, 55, 56]
}

/// "ACM Control Interface" as UTF-16 code units.
pub open spec fn control_interface_text() -> Seq<u16> {
    seq![65u16, 67, 77, 32, 67, 111, 110, 116, 114, 111, 108, 32, 73, 110, 116, 101, 114,
        102, 97, 99, 101]
}

/// "Self Powered Configuration" as UTF-16 code units.
pub open spec fn config_text() -> Seq<u16> {
    seq![83u16, 101, 108, 102, 32, 80, 111, 119, 101, 114, 101, 100, 32, 67, 111, 110, 102,
        105, 103, 117, 114, 97, 116, 105, 111, 110]
}

/// The language descriptor: always buffer 0 of the table.
pub fn language_descriptor() -> (buf: Vec<u8>)
    ensures
        buf@ == descriptor_bytes(language_ids()),
        valid_descriptor(buf@),
{
    let mut units: Vec<u16> = Vec::new();
    units.push(0x0409);
    proof {
        assert(units@ =~= language_ids());
    }
    build_string_descriptor(&units)
}

/// The manufacturer string descriptor.
pub fn manufacturer_descriptor() -> (buf: Vec<u8>)
    ensures
        buf@ == descriptor_bytes(manufacturer_text()),
        valid_descriptor(buf@),
{
    let mut units: Vec<u16> = Vec::new();
    units.push(84);
    units.push(101);
    units.push(120);
    units.push(97);
    units.push(115);
    units.push(32);
    units.push(73);
    units.push(110);
    units.push(115);
    units.push(116);
    units.push(114);
    units.push(117);
    units.push(109);
    units.push(101);
    units.push(110);
    units.push(116);
    units.push(115);
    proof {
        assert(units@ =~= manufacturer_text());
    }
    build_string_descriptor(&units)
}

/// The product string descriptor.
pub fn product_descriptor() -> (buf: Vec<u8>)
    ensures
        buf@ == descriptor_bytes(product_text()),
        valid_descriptor(buf@),
{
    let mut units: Vec<u16> = Vec::new();
    units.push(86);
    units.push(105);
    units.push(114);
    units.push(116);
    units.push(117);
    units.push(97);
    units.push(108);
    units.push(32);
    units.push(67);
    units.push(79);
    units.push(77);
    units.push(32);
    units.push(80);
    units.push(111);
    units.push(114);
    units.push(116);
    proof {
        assert(units@ =~= product_text());
    }
    build_string_descriptor(&units)
}

/// The serial-number string descriptor.
pub fn serial_descriptor() -> (buf: Vec<u8>)
    ensures
        buf@ == descriptor_bytes(serial_text()),
        valid_descriptor(buf@),
{
    let mut units: Vec<u16> = Vec::new();
    units.push(49);
    units.push(50);
    units.push(51);
    units.push(52);
    units.push(53);
    units.push(54);
    units.push(55);
    units.push(56);
    proof {
        assert(units@ =~= serial_text());
    }
    build_string_descriptor(&units)
}

/// The control-interface description descriptor.
pub fn control_interface_descriptor() -> (buf: Vec<u8>)
    ensures
        buf@ == descriptor_bytes(control_interface_text()),
        valid_descriptor(buf@),
{
    let mut units: Vec<u16> = Vec::new();
    units.push(65);
    units.push(67);
    units.push(77);
    units.push(32);
    units.push(67);
    units.push(111);
    units.push(110);
    units.push(116);
    units.push(114);
    units.push(111);
    units.push(108);
    units.push(32);
    units.push(73);
    units.push(110);
    units.push(116);
    units.push(101);
    units.push(114);
    units.push(102);
    units.push(97);
    units.push(99);
    units.push(101);
    proof {
        assert(units@ =~= control_interface_text());
    }
    build_string_descriptor(&units)
}

/// The configuration description descriptor.
pub fn config_descriptor() -> (buf: Vec<u8>)
    ensures
        buf@ == descriptor_bytes(config_text()),
        valid_descriptor(buf@),
{
    let mut units: Vec<u16> = Vec::new();
    units.push(83);
    units.push(101);
    units.push(108);
    units.push(102);
    units.push(32);
    units.push(80);
    units.push(111);
    units.push(119);
    units.push(101);
    units.push(114);
    units.push(101);
    units.push(100);
    units.push(32);
    units.push(67);
    units.push(111);
    units.push(110);
    units.push(102);
    units.push(105);
    units.push(103);
    units.push(117);
    units.push(114);
    units.push(97);
    units.push(116);
    units.push(105);
    units.push(111);
    units.push(110);
    proof {
        assert(units@ =~= config_text());
    }
    build_string_descriptor(&units)
}

/// The ordered six-entry string-descriptor table the device reports.
pub struct StringDescriptorTable {
    pub bufs: Vec<Vec<u8>>,
}

impl StringDescriptorTable {
    /// Buffer 0 is the language descriptor; indices 1 to 5 carry the
    /// fixed content in the fixed order the device instance counts on.
    pub open spec fn wf(self) -> bool {
        &&& self.bufs@.len() == 6
        &&& self.bufs@[0]@ == descriptor_bytes(language_ids())
        &&& self.bufs@[1]@ == descriptor_bytes(manufacturer_text())
        &&& self.bufs@[2]@ == descriptor_bytes(product_text())
        &&& self.bufs@[3]@ == descriptor_bytes(serial_text())
        &&& self.bufs@[4]@ == descriptor_bytes(control_interface_text())
        &&& self.bufs@[5]@ == descriptor_bytes(config_text())
    }

    /// Number of descriptors in the table.
    pub fn descriptor_count(&self) -> (n: usize)
        ensures
            n == self.bufs@.len(),
    {
        self.bufs.len()
    }

    /// The descriptor at one index, by address, never copied.
    pub fn buffer(&self, i: usize) -> (b: &Vec<u8>)
        requires
            i < self.bufs@.len(),
        ensures
            b@ == self.bufs@[i as int]@,
    {
        &self.bufs[i]
    }
}

/// Assemble the table in its fixed order.
pub fn build_descriptor_table() -> (t: StringDescriptorTable)
    ensures
        t.wf(),
{
    let mut bufs: Vec<Vec<u8>> = Vec::new();
    bufs.push(language_descriptor());
    bufs.push(manufacturer_descriptor());
    bufs.push(product_descriptor());
    bufs.push(serial_descriptor());
    bufs.push(control_interface_descriptor());
    bufs.push(config_descriptor());
    StringDescriptorTable { bufs }
}

/// Process-wide home of the one descriptor table, with an explicit
/// init-once-then-freeze lifecycle in place of a mutable static.
pub struct DescriptorStore {
    pub table: Option<StringDescriptorTable>,
}

impl DescriptorStore {
    /// Whatever the store holds is the canonical table.
    pub open spec fn wf(self) -> bool {
        match self.table {
            Option::Some(t) => t.wf(),
            Option::None => true,
        }
    }

    /// An empty store: nothing constructed yet.
    pub fn new() -> (s: DescriptorStore)
        ensures
            s.wf(),
            s.table matches Option::None,
    {
        DescriptorStore { table: Option::None }
    }
}

/// Hand out the string-descriptor table, constructing it on the first
/// call only: a later call finds the store unchanged and returns the
/// same frozen table.
pub fn get_string_descriptors(store: &mut DescriptorStore) -> (t: &StringDescriptorTable)
    requires
        old(store).wf(),
    ensures
        t.wf(),
        final(store).wf(),
        final(store).table matches Option::Some(held) && held == *t,
        old(store).table matches Option::Some(_) ==> final(store).table == old(store).table,
{
    if store.table.is_none() {
        store.table = Option::Some(build_descriptor_table());
    }
    store.table.as_ref().unwrap()
}

} // verus!
