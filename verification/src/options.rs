//! One vendor/DHCP option, its wire form, and writing options into the
//! options region.
//!
//! On the wire an option is `[code][length][value ...]`. Two codes stand
//! alone, with neither length nor value: `Pad` (0), which is filler, and
//! `End` (255), which closes the options region.
//!
//! Writing is best effort: an option that does not fit in what is left of
//! the region is left out, and nothing is ever written outside the region.

use crate::codes::DHCPOptionCode;
use crate::error::RejectReason;
use vstd::prelude::*;

verus! {

/// Code of the filler byte.
pub const PAD: u8 = 0;

/// Code of the marker that closes the options region.
pub const END: u8 = 255;

/// Size in bytes of the options region of a DHCP packet.
pub const OPTIONS_LEN: usize = 312;

/// Longest value that a one-byte length can announce.
pub const MAX_VALUE_LEN: usize = 255;

/// An option: its code, the length it announces, and its value.
///
/// `len` is what stands in the length byte. For an option built by
/// [`VendorData::new`] it is the length of `data`; for an entry that the
/// scanner found cut short by the end of the region it is the announced
/// length, while `data` is empty.
#[derive(Clone, Debug, PartialEq, Eq)]
pub struct VendorData {
    pub code: u8,
    pub len: u8,
    pub data: Vec<u8>,
}

/// The mathematical value of a [`VendorData`].
pub struct VendorDataView {
    pub code: u8,
    pub len: u8,
    pub data: Seq<u8>,
}

impl View for VendorData {
    type V = VendorDataView;

    open spec fn view(&self) -> VendorDataView {
        VendorDataView { code: self.code, len: self.len, data: self.data@ }
    }
}

/// `buf` with `bytes` written over it from position `at` on.
pub open spec fn splice(buf: Seq<u8>, at: int, bytes: Seq<u8>) -> Seq<u8>
    recommends
        0 <= at,
        at + bytes.len() <= buf.len(),
{
    buf.subrange(0, at) + bytes + buf.subrange(at + bytes.len(), buf.len() as int)
}

impl VendorDataView {
    /// The value has exactly the announced length.
    pub open spec fn well_formed(self) -> bool {
        self.data.len() == self.len
    }

    /// The bytes that represent this option on the wire: nothing for `Pad`,
    /// the bare code for `End`, else code, length and value.
    pub open spec fn wire(self) -> Seq<u8> {
        if self.code == PAD {
            Seq::empty()
        } else if self.code == END {
            seq![END]
        } else {
            seq![self.code, self.len] + self.data
        }
    }

    /// The capacity test made before anything is written: code, length and
    /// value must fit between `offset` and the end of the region. It is made
    /// for every code, so an `End` is written only where two more bytes
    /// would fit.
    pub open spec fn fits(self, offset: int) -> bool {
        offset + 2 + self.len <= OPTIONS_LEN
    }

    /// The next free offset after writing this option at `offset`.
    pub open spec fn next_offset(self, offset: int) -> int {
        if self.fits(offset) {
            offset + self.wire().len()
        } else {
            offset
        }
    }

    /// The region after writing this option at `offset`.
    pub open spec fn written(self, buf: Seq<u8>, offset: int) -> Seq<u8> {
        if self.fits(offset) {
            splice(buf, offset, self.wire())
        } else {
            buf
        }
    }
}

/// The region and the next free offset after writing `opts` one after the
/// other, the first at `offset`.
pub open spec fn serialized(opts: Seq<VendorDataView>, buf: Seq<u8>, offset: int) -> (Seq<u8>, int)
    decreases opts.len(),
{
    if opts.len() == 0 {
        (buf, offset)
    } else {
        let before = serialized(opts.drop_last(), buf, offset);
        (opts.last().written(before.0, before.1), opts.last().next_offset(before.1))
    }
}

/// Whether a list of options holds an `End` marker.
pub open spec fn has_end(opts: Seq<VendorDataView>) -> bool {
    exists|i: int| 0 <= i < opts.len() && (#[trigger] opts[i]).code == END
}

/// The list as it is written: closed by an `End` marker, which is added
/// behind the last option unless the list holds one already.
pub open spec fn closed(opts: Seq<VendorDataView>) -> Seq<VendorDataView> {
    if has_end(opts) {
        opts
    } else {
        opts.push(VendorDataView { code: END, len: 0, data: Seq::empty() })
    }
}

/// An option that does not fit behind those already written is left out:
/// the region and the offset stay as they were before it.
pub proof fn lemma_overflowing_option_skipped(
    opts: Seq<VendorDataView>,
    last: VendorDataView,
    buf: Seq<u8>,
    offset: int,
)
    requires
        !last.fits(serialized(opts, buf, offset).1),
    ensures
        serialized(opts.push(last), buf, offset) == serialized(opts, buf, offset),
{
    assert(opts.push(last).drop_last() =~= opts);
}

/// Writing never changes the size of the region, and the offset never
/// moves back nor past the end of the region.
pub proof fn lemma_serialized_bounds(opts: Seq<VendorDataView>, buf: Seq<u8>, offset: int)
    requires
        buf.len() == OPTIONS_LEN,
        0 <= offset <= OPTIONS_LEN,
        forall|i: int| 0 <= i < opts.len() ==> (#[trigger] opts[i]).well_formed(),
    ensures
        serialized(opts, buf, offset).0.len() == OPTIONS_LEN,
        offset <= serialized(opts, buf, offset).1 <= OPTIONS_LEN,
    decreases opts.len(),
{
    if opts.len() > 0 {
        let before = opts.drop_last();
        assert forall|i: int| 0 <= i < before.len() implies (#[trigger] before[i]).well_formed() by {
            assert(before[i] == opts[i]);
        }
        lemma_serialized_bounds(before, buf, offset);
    }
}

/// The views of a list of options, in order.
pub open spec fn views(opts: Seq<VendorData>) -> Seq<VendorDataView> {
    opts.map_values(|o: VendorData| o@)
}

impl VendorData {
    /// The well-formedness of the value, on the executable type.
    pub open spec fn well_formed(&self) -> bool {
        self@.well_formed()
    }

    /// Builds the option `code` with value `data`.
    ///
    /// Fails with `ValueTooLong` exactly when `data` is longer than 255
    /// bytes; the value is never truncated.
    pub fn new(code: DHCPOptionCode, data: &Vec<u8>) -> (r: Result<VendorData, RejectReason>)
        ensures
            data@.len() > MAX_VALUE_LEN ==> r == Err::<VendorData, RejectReason>(
                RejectReason::ValueTooLong,
            ),
            data@.len() <= MAX_VALUE_LEN ==> r is Ok && r->Ok_0@ == (VendorDataView {
                code: code.code(),
                len: data@.len() as u8,
                data: data@,
            }),
    {
        VendorData::from_raw(code.to_u8(), data)
    }

    /// Builds an option from a raw code byte, known or not.
    ///
    /// Fails with `ValueTooLong` exactly when `data` is longer than 255
    /// bytes.
    pub fn from_raw(code: u8, data: &Vec<u8>) -> (r: Result<VendorData, RejectReason>)
        ensures
            data@.len() > MAX_VALUE_LEN ==> r == Err::<VendorData, RejectReason>(
                RejectReason::ValueTooLong,
            ),
            data@.len() <= MAX_VALUE_LEN ==> r is Ok && r->Ok_0@ == (VendorDataView {
                code,
                len: data@.len() as u8,
                data: data@,
            }),
    {
        let len: usize = data.len();
        if len > MAX_VALUE_LEN {
            Err(RejectReason::ValueTooLong)
        } else {
            Ok(VendorData { code, len: len as u8, data: data.clone() })
        }
    }

    /// The `End` marker.
    pub fn end() -> (e: VendorData)
        ensures
            e@ == (VendorDataView { code: END, len: 0, data: Seq::empty() }),
    {
        VendorData { code: END, len: 0, data: Vec::new() }
    }

    /// Writes this option into `buf` at `offset` and returns the next free
    /// offset.
    ///
    /// Where code, length and value would not fit in what is left of the
    /// region, nothing is written and `offset` comes back unchanged. `Pad`
    /// writes nothing; `End` writes its code alone.
    pub fn write(&self, buf: &mut [u8; 312], offset: usize) -> (next: usize)
        requires
            self.well_formed(),
        ensures
            next == self@.next_offset(offset as int),
            final(buf)@ == self@.written(old(buf)@, offset as int),
            !self@.fits(offset as int) ==> next == offset && final(buf)@ == old(buf)@,
    {
        let len: usize = self.len as usize;
        if offset > OPTIONS_LEN - 2 - len {
            return offset;
        }
        if self.code == PAD {
            assert(buf@ =~= splice(buf@, offset as int, Seq::empty()));
            return offset;
        }
        buf[offset] = self.code;
        if self.code == END {
            assert(buf@ =~= splice(old(buf)@, offset as int, seq![END]));
            return offset + 1;
        }
        buf[offset + 1] = self.len;
        let start: usize = offset + 2;
        let mut index: usize = 0;
        while index < len
            invariant
                0 <= index <= len,
                len == self.data@.len(),
                start == offset + 2,
                start + len <= OPTIONS_LEN,
                buf@.len() == OPTIONS_LEN,
                forall|i: int| 0 <= i < offset ==> buf@[i] == old(buf)@[i],
                buf@[offset as int] == self.code,
                buf@[offset + 1] == self.len,
                forall|i: int| 0 <= i < index ==> buf@[start + i] == self.data@[i],
                forall|i: int| start + index <= i < OPTIONS_LEN ==> buf@[i] == old(buf)@[i],
            decreases len - index,
        {
            buf[start + index] = self.data[index];
            index += 1;
        }
        assert(buf@ =~= splice(old(buf)@, offset as int, self@.wire()));
        start + len
    }
}

/// Writes `options` into `buf` one after the other, the first at offset 0,
/// closes the list with an `End` marker unless it holds one already, and
/// returns the next free offset. An option that does not fit is left out;
/// those after it are still tried.
pub fn write_options(options: &Vec<VendorData>, buf: &mut [u8; 312]) -> (next: usize)
    requires
        forall|i: int| 0 <= i < options@.len() ==> (#[trigger] options@[i]).well_formed(),
    ensures
        (final(buf)@, next as int) == serialized(closed(views(options@)), old(buf)@, 0),
        next <= OPTIONS_LEN,
{
    let mut offset: usize = 0;
    let mut ended: bool = false;
    let mut i: usize = 0;
    while i < options.len()
        invariant
            0 <= i <= options@.len(),
            forall|j: int| 0 <= j < options@.len() ==> (#[trigger] options@[j]).well_formed(),
            (buf@, offset as int) == serialized(views(options@).take(i as int), old(buf)@, 0),
            offset <= OPTIONS_LEN,
            ended == has_end(views(options@).take(i as int)),
        decreases options@.len() - i,
    {
        let ghost done = views(options@).take(i as int);
        let ghost next_done = views(options@).take(i + 1);
        assert(next_done.drop_last() =~= done);
        assert(next_done.last() == options@[i as int]@);
        proof {
            if has_end(done) {
                let k = choose|k: int| 0 <= k < done.len() && (#[trigger] done[k]).code == END;
                assert(next_done[k].code == END);
            }
            if has_end(next_done) && options@[i as int]@.code != END {
                let k = choose|k: int|
                    0 <= k < next_done.len() && (#[trigger] next_done[k]).code == END;
                assert(done[k].code == END);
            }
        }
        if options[i].code == END {
            ended = true;
        }
        offset = options[i].write(buf, offset);
        i += 1;
    }
    assert(views(options@).take(i as int) =~= views(options@));
    if !ended {
        let end = VendorData::end();
        assert(closed(views(options@)).drop_last() =~= views(options@));
        offset = end.write(buf, offset);
    }
    offset
}

} // verus!
