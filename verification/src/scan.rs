//! Reading the options region.
//!
//! The region is scanned from left to right. A `Pad` byte is skipped, an
//! `End` byte stops the scan, and any other byte opens an entry: a length
//! byte follows, then that many value bytes. An entry whose value runs past
//! the end of the region is kept with an empty value and ends the scan.
//! Reaching the end of the region ends the scan as well.
//!
//! [`scan_options`] gives the entries in order. [`parse_options`] gives the
//! map from code to entry that the server works with: entries with a code
//! that is not a known option code are left out, and of two entries with one
//! code the later stays. Neither reports what it passed over;
//! [`find_anomalies`] lists that, for a caller that keeps a log.

use crate::codes::DHCPOptionCode;
use crate::options::{
    serialized, splice, views, VendorData, VendorDataView, END, OPTIONS_LEN, PAD,
};
use crate::wire::zeros;
use std::collections::HashMap;
use vstd::prelude::*;

verus! {

/// The entry that opens at the start of `buf`.
///
/// The announced length is the second byte, or 0 where the region ends
/// right after the code. The value is the bytes that follow, or empty if
/// fewer than announced are left.
pub open spec fn first_entry(buf: Seq<u8>) -> VendorDataView
    recommends
        buf.len() > 0,
{
    let len: u8 = if buf.len() > 1 {
        buf[1]
    } else {
        0
    };
    VendorDataView {
        code: buf[0],
        len,
        data: if 2 + len <= buf.len() {
            buf.subrange(2, 2 + len)
        } else {
            Seq::empty()
        },
    }
}

/// How many bytes the entry at the start of `buf` takes: code, length and
/// value, or all of `buf` where the entry is cut short.
pub open spec fn first_entry_size(buf: Seq<u8>) -> int
    recommends
        buf.len() > 0,
{
    if 2 + first_entry(buf).len <= buf.len() {
        2 + first_entry(buf).len
    } else {
        buf.len() as int
    }
}

/// The entries of an options region, in the order in which they stand.
pub open spec fn scan(buf: Seq<u8>) -> Seq<VendorDataView>
    decreases buf.len(),
{
    if buf.len() == 0 || buf[0] == END {
        Seq::empty()
    } else if buf[0] == PAD {
        scan(buf.skip(1))
    } else {
        seq![first_entry(buf)] + scan(buf.skip(first_entry_size(buf)))
    }
}

/// Whether a byte is one of the known option codes.
pub open spec fn known_code(c: u8) -> bool {
    DHCPOptionCode::from_code(c) is Some
}

/// The map from code to entry that a list of entries gives: entries with
/// an unknown code are dropped, and a later entry replaces an earlier one
/// with the same code.
pub open spec fn option_map(entries: Seq<VendorDataView>) -> Map<u8, VendorDataView>
    decreases entries.len(),
{
    if entries.len() == 0 {
        Map::empty()
    } else {
        let before = option_map(entries.drop_last());
        let e = entries.last();
        if known_code(e.code) {
            before.insert(e.code, e)
        } else {
            before
        }
    }
}

/// The options that a region holds, by code.
pub open spec fn parsed_options(buf: Seq<u8>) -> Map<u8, VendorDataView> {
    option_map(scan(buf))
}

/// The mathematical value of a map of options.
pub open spec fn options_view(m: Map<u8, VendorData>) -> Map<u8, VendorDataView> {
    m.map_values(|o: VendorData| o@)
}

/// Something in an options region that the parser passes over in silence.
#[derive(Clone, Copy, Debug, PartialEq, Eq, Structural)]
pub enum Anomaly {
    /// An entry whose value was cut short by the end of the region: it
    /// announces `len` bytes and holds none.
    TruncatedValue { code: u8, len: u8 },
    /// An entry whose code is not a known option code: it is in no map.
    UnknownCode { code: u8 },
}

/// What is wrong with one entry, if anything.
pub open spec fn entry_anomalies(e: VendorDataView) -> Seq<Anomaly> {
    let cut: Seq<Anomaly> = if e.well_formed() {
        Seq::empty()
    } else {
        seq![Anomaly::TruncatedValue { code: e.code, len: e.len }]
    };
    let unknown: Seq<Anomaly> = if known_code(e.code) {
        Seq::empty()
    } else {
        seq![Anomaly::UnknownCode { code: e.code }]
    };
    cut + unknown
}

/// What is wrong with a list of entries, in the order of the entries.
pub open spec fn anomalies(entries: Seq<VendorDataView>) -> Seq<Anomaly>
    decreases entries.len(),
{
    if entries.len() == 0 {
        Seq::empty()
    } else {
        anomalies(entries.drop_last()) + entry_anomalies(entries.last())
    }
}

/// An entry as it comes out of a scan of well-formed bytes: it has the
/// announced length and is neither `Pad` nor `End`.
pub open spec fn regular(e: VendorDataView) -> bool {
    e.code != PAD && e.code != END && e.well_formed()
}

/// The wire bytes of a list of options, one after the other.
pub open spec fn wires(entries: Seq<VendorDataView>) -> Seq<u8>
    decreases entries.len(),
{
    if entries.len() == 0 {
        Seq::empty()
    } else {
        entries[0].wire() + wires(entries.skip(1))
    }
}

/// A `Pad` byte in front of a region changes nothing.
pub proof fn lemma_scan_pad(rest: Seq<u8>)
    ensures
        scan(seq![PAD] + rest) == scan(rest),
{
    let buf = seq![PAD] + rest;
    assert(buf.skip(1) =~= rest);
}

/// The scan stops at `End`: whatever follows it is not read.
pub proof fn lemma_scan_end(rest: Seq<u8>)
    ensures
        scan(seq![END] + rest) == Seq::<VendorDataView>::empty(),
{
    let buf = seq![END] + rest;
    assert(buf[0] == END);
}

/// A region of `Pad` bytes alone holds no entry.
pub proof fn lemma_scan_padding(buf: Seq<u8>)
    requires
        forall|i: int| 0 <= i < buf.len() ==> buf[i] == PAD,
    ensures
        scan(buf) == Seq::<VendorDataView>::empty(),
    decreases buf.len(),
{
    if buf.len() > 0 {
        lemma_scan_padding(buf.skip(1));
    }
}

/// Scanning the wire form of an option gives the option back, and the scan
/// goes on behind it.
pub proof fn lemma_scan_entry(e: VendorDataView, rest: Seq<u8>)
    requires
        regular(e),
    ensures
        scan(e.wire() + rest) == seq![e] + scan(rest),
{
    let buf = e.wire() + rest;
    assert(buf[0] == e.code);
    assert(buf[1] == e.len);
    assert(buf.subrange(2, 2 + e.len) =~= e.data);
    assert(first_entry(buf) == e);
    assert(buf.skip(first_entry_size(buf)) =~= rest);
}

/// Scanning the wire form of a list of options gives the list back, and
/// the scan goes on behind it.
pub proof fn lemma_scan_wires(entries: Seq<VendorDataView>, rest: Seq<u8>)
    requires
        forall|i: int| 0 <= i < entries.len() ==> regular(#[trigger] entries[i]),
    ensures
        scan(wires(entries) + rest) == entries + scan(rest),
    decreases entries.len(),
{
    if entries.len() == 0 {
        assert(wires(entries) + rest =~= rest);
        assert(entries + scan(rest) =~= scan(rest));
    } else {
        let tail = entries.skip(1);
        assert forall|i: int| 0 <= i < tail.len() implies regular(#[trigger] tail[i]) by {
            assert(tail[i] == entries[i + 1]);
        }
        lemma_scan_wires(tail, rest);
        lemma_scan_entry(entries[0], wires(tail) + rest);
        assert(wires(entries) + rest =~= entries[0].wire() + (wires(tail) + rest));
        assert(entries + scan(rest) =~= seq![entries[0]] + (tail + scan(rest)));
    }
}

/// A region that ends in the middle of a value: the entries before it are
/// read as they stand, and the last entry keeps its code and announced
/// length, with an empty value.
pub proof fn lemma_scan_truncated_value(
    entries: Seq<VendorDataView>,
    code: u8,
    len: u8,
    part: Seq<u8>,
)
    requires
        forall|i: int| 0 <= i < entries.len() ==> regular(#[trigger] entries[i]),
        code != PAD,
        code != END,
        part.len() < len,
    ensures
        scan(wires(entries) + (seq![code, len] + part)) == entries.push(
            VendorDataView { code, len, data: Seq::empty() },
        ),
        parsed_options(wires(entries) + (seq![code, len] + part)) == option_map(
            entries.push(VendorDataView { code, len, data: Seq::empty() }),
        ),
{
    let tail = seq![code, len] + part;
    lemma_scan_wires(entries, tail);
    assert(tail[0] == code);
    assert(tail[1] == len);
    assert(tail.skip(first_entry_size(tail)) =~= Seq::<u8>::empty());
    assert(scan(Seq::<u8>::empty()) =~= Seq::<VendorDataView>::empty());
    assert(scan(tail) =~= seq![VendorDataView { code, len, data: Seq::empty() }]);
    assert(entries + scan(tail) =~= entries.push(
        VendorDataView { code, len, data: Seq::empty() },
    ));
}

/// A region that ends right after a code, before its length byte: the last
/// entry has that code, length 0 and an empty value.
pub proof fn lemma_scan_truncated_length(entries: Seq<VendorDataView>, code: u8)
    requires
        forall|i: int| 0 <= i < entries.len() ==> regular(#[trigger] entries[i]),
        code != PAD,
        code != END,
    ensures
        scan(wires(entries) + seq![code]) == entries.push(
            VendorDataView { code, len: 0, data: Seq::empty() },
        ),
{
    let tail = seq![code];
    lemma_scan_wires(entries, tail);
    assert(tail[0] == code);
    assert(tail.skip(first_entry_size(tail)) =~= Seq::<u8>::empty());
    assert(scan(Seq::<u8>::empty()) =~= Seq::<VendorDataView>::empty());
    assert(scan(tail) =~= seq![VendorDataView { code, len: 0, data: Seq::empty() }]);
    assert(entries + scan(tail) =~= entries.push(
        VendorDataView { code, len: 0, data: Seq::empty() },
    ));
}

/// What the map of a list of entries holds: a code is in it exactly when
/// it is a known code and some entry has it, and it then stands for the
/// last entry with that code. So an entry with an unknown code is dropped
/// and takes nothing else with it.
pub proof fn lemma_option_map_holds(entries: Seq<VendorDataView>, code: u8)
    ensures
        option_map(entries).contains_key(code) <==> known_code(code) && exists|i: int|
            0 <= i < entries.len() && (#[trigger] entries[i]).code == code,
        option_map(entries).contains_key(code) ==> exists|i: int|
            0 <= i < entries.len() && option_map(entries)[code] == #[trigger] entries[i]
                && entries[i].code == code && forall|j: int|
                i < j < entries.len() ==> (#[trigger] entries[j]).code != code,
    decreases entries.len(),
{
    if entries.len() > 0 {
        let before = entries.drop_last();
        let last = entries.len() - 1;
        lemma_option_map_holds(before, code);
        assert forall|i: int| 0 <= i < before.len() implies before[i] == entries[i] by {}
        if entries[last].code == code && known_code(code) {
            assert(option_map(entries)[code] == entries[last]);
        } else if option_map(before).contains_key(code) {
            let i = choose|i: int|
                0 <= i < before.len() && option_map(before)[code] == #[trigger] before[i]
                    && before[i].code == code && forall|j: int|
                    i < j < before.len() ==> (#[trigger] before[j]).code != code;
            assert(option_map(entries)[code] == entries[i]);
            assert forall|j: int| i < j < entries.len() implies (#[trigger] entries[j]).code
                != code by {
                if j < before.len() {
                    assert(before[j] == entries[j]);
                }
            }
        } else {
            if exists|i: int| 0 <= i < entries.len() && (#[trigger] entries[i]).code == code {
                let i = choose|i: int|
                    0 <= i < entries.len() && (#[trigger] entries[i]).code == code;
                if i < before.len() {
                    assert(before[i] == entries[i]);
                }
            }
        }
    }
}

/// An entry with an unknown code between two entries with known codes:
/// the two are in the map as they stand on the wire, and nothing else is.
pub proof fn lemma_unknown_code_dropped(
    a: VendorDataView,
    unknown: VendorDataView,
    b: VendorDataView,
    rest: Seq<u8>,
)
    requires
        regular(a),
        regular(unknown),
        regular(b),
        known_code(a.code),
        !known_code(unknown.code),
        known_code(b.code),
    ensures
        parsed_options(a.wire() + unknown.wire() + b.wire() + (seq![END] + rest))
            == Map::<u8, VendorDataView>::empty().insert(a.code, a).insert(b.code, b),
{
    let entries = seq![a, unknown, b];
    let tail = seq![END] + rest;
    reveal_with_fuel(wires, 4);
    assert(wires(entries) =~= a.wire() + unknown.wire() + b.wire()) by {
        assert(entries.skip(1) =~= seq![unknown, b]);
        assert(entries.skip(1).skip(1) =~= seq![b]);
        assert(entries.skip(1).skip(1).skip(1) =~= Seq::<VendorDataView>::empty());
    }
    lemma_scan_wires(entries, tail);
    lemma_scan_end(rest);
    assert(scan(wires(entries) + tail) =~= entries);
    reveal_with_fuel(option_map, 4);
    assert(entries.drop_last() =~= seq![a, unknown]);
    assert(entries.drop_last().drop_last() =~= seq![a]);
    assert(entries.drop_last().drop_last().drop_last() =~= Seq::<VendorDataView>::empty());
}

/// The wire bytes of a list with one more option are those of the list,
/// then those of the option.
pub proof fn lemma_wires_push(entries: Seq<VendorDataView>, e: VendorDataView)
    ensures
        wires(entries.push(e)) == wires(entries) + e.wire(),
    decreases entries.len(),
{
    let all = entries.push(e);
    if entries.len() == 0 {
        assert(all.skip(1) =~= Seq::<VendorDataView>::empty());
        assert(wires(all.skip(1)) =~= Seq::<u8>::empty());
        assert(wires(all) =~= e.wire());
        assert(wires(entries) + e.wire() =~= e.wire());
    } else {
        let tail = entries.skip(1);
        lemma_wires_push(tail, e);
        assert(all.skip(1) =~= tail.push(e));
        assert(all[0] == entries[0]);
        assert(wires(all) =~= entries[0].wire() + (wires(tail) + e.wire()));
        assert(wires(entries) + e.wire() =~= entries[0].wire() + (wires(tail) + e.wire()));
    }
}

/// Writing options that all fit puts their wire bytes one after the other
/// from `offset` on, and changes nothing else.
pub proof fn lemma_serialized_wires(entries: Seq<VendorDataView>, buf: Seq<u8>, offset: int)
    requires
        forall|i: int| 0 <= i < entries.len() ==> regular(#[trigger] entries[i]),
        buf.len() == OPTIONS_LEN,
        0 <= offset,
        offset + wires(entries).len() <= OPTIONS_LEN,
    ensures
        serialized(entries, buf, offset) == (
            splice(buf, offset, wires(entries)),
            offset + wires(entries).len(),
        ),
    decreases entries.len(),
{
    if entries.len() == 0 {
        assert(splice(buf, offset, wires(entries)) =~= buf);
    } else {
        let before = entries.drop_last();
        let e = entries.last();
        assert(entries =~= before.push(e));
        lemma_wires_push(before, e);
        assert forall|i: int| 0 <= i < before.len() implies regular(#[trigger] before[i]) by {
            assert(before[i] == entries[i]);
        }
        lemma_serialized_wires(before, buf, offset);
        let mid = splice(buf, offset, wires(before));
        let at = offset + wires(before).len();
        assert(e.fits(at));
        assert(splice(mid, at, e.wire()) =~= splice(buf, offset, wires(entries)));
    }
}

/// Options written into a zeroed region and closed with `End` are read
/// back as they were written, in the same order.
pub proof fn lemma_scan_serialized(entries: Seq<VendorDataView>)
    requires
        forall|i: int| 0 <= i < entries.len() ==> regular(#[trigger] entries[i]),
        wires(entries).len() + 2 <= OPTIONS_LEN,
    ensures
        serialized(
            entries.push(VendorDataView { code: END, len: 0, data: Seq::empty() }),
            zeros(OPTIONS_LEN as nat),
            0,
        ).0.len() == OPTIONS_LEN,
        scan(
            serialized(
                entries.push(VendorDataView { code: END, len: 0, data: Seq::empty() }),
                zeros(OPTIONS_LEN as nat),
                0,
            ).0,
        ) == entries,
{
    let end = VendorDataView { code: END, len: 0, data: Seq::empty() };
    let blank = zeros(OPTIONS_LEN as nat);
    let all = entries.push(end);
    let w = wires(entries);
    lemma_serialized_wires(entries, blank, 0);
    assert(all.drop_last() =~= entries);
    let mid = splice(blank, 0, w);
    assert(end.fits(w.len() as int));
    let region = splice(mid, w.len() as int, seq![END]);
    assert(serialized(all, blank, 0).0 == region);
    let rest = blank.subrange(w.len() as int + 1, OPTIONS_LEN as int);
    assert(region =~= w + (seq![END] + rest));
    lemma_scan_wires(entries, seq![END] + rest);
    lemma_scan_end(rest);
    assert(entries + Seq::<VendorDataView>::empty() =~= entries);
}

/// Parsing the same region twice gives the same options: two maps that
/// are each a result of parsing `buf` hold the same codes, and under each
/// code the same option.
pub proof fn lemma_parse_twice(
    buf: Seq<u8>,
    first: Map<u8, VendorData>,
    second: Map<u8, VendorData>,
)
    requires
        options_view(first) == parsed_options(buf),
        options_view(second) == parsed_options(buf),
    ensures
        first.dom() == second.dom(),
        forall|code: u8| first.contains_key(code) ==> first[code]@ == second[code]@,
{
    assert forall|code: u8| first.contains_key(code) == second.contains_key(code) by {
        assert(options_view(first).contains_key(code) == first.contains_key(code));
        assert(options_view(second).contains_key(code) == second.contains_key(code));
    }
    assert(first.dom() =~= second.dom());
    assert forall|code: u8| first.contains_key(code) implies first[code]@ == second[code]@ by {
        assert(options_view(first)[code] == first[code]@);
        assert(options_view(second)[code] == second[code]@);
    }
}

/// Reads the entry that opens at `pos` and says where the next one starts.
fn read_entry(buf: &[u8], pos: usize) -> (r: (VendorData, usize))
    requires
        pos < buf@.len(),
    ensures
        r.0@ == first_entry(buf@.skip(pos as int)),
        r.1 == pos + first_entry_size(buf@.skip(pos as int)),
        pos < r.1 <= buf@.len(),
{
    let total: usize = buf.len();
    let ghost rest = buf@.skip(pos as int);
    let code: u8 = buf[pos];
    let len: u8 = if total - pos > 1 {
        buf[pos + 1]
    } else {
        0
    };
    let n: usize = len as usize;
    assert(rest[0] == buf@[pos as int]);
    assert(rest.len() > 1 ==> rest[1] == buf@[pos + 1]);
    if total - pos >= 2 + n {
        let start: usize = pos + 2;
        let mut data: Vec<u8> = Vec::new();
        let mut i: usize = 0;
        while i < n
            invariant
                0 <= i <= n,
                start == pos + 2,
                start + n <= buf@.len(),
                total == buf@.len(),
                data@.len() == i,
                forall|j: int| 0 <= j < i ==> data@[j] == buf@[start + j],
            decreases n - i,
        {
            data.push(buf[start + i]);
            i += 1;
        }
        assert(data@ =~= rest.subrange(2, 2 + n));
        (VendorData { code, len, data }, start + n)
    } else {
        (VendorData { code, len, data: Vec::new() }, total)
    }
}

/// Scans an options region and returns its entries in order.
///
/// Never fails: `Pad` bytes are skipped, the scan stops at `End` or at the
/// end of the region, and an entry cut short by the end of the region is
/// returned with its announced length and an empty value.
pub fn scan_options(buf: &[u8]) -> (entries: Vec<VendorData>)
    ensures
        views(entries@) == scan(buf@),
{
    let total: usize = buf.len();
    let mut entries: Vec<VendorData> = Vec::new();
    let mut pos: usize = 0;
    assert(buf@.skip(0) =~= buf@);
    while pos < total && buf[pos] != END
        invariant
            0 <= pos <= total,
            total == buf@.len(),
            scan(buf@) == views(entries@) + scan(buf@.skip(pos as int)),
        decreases total - pos,
    {
        let ghost rest = buf@.skip(pos as int);
        assert(rest[0] == buf@[pos as int]);
        if buf[pos] == PAD {
            assert(rest.skip(1) =~= buf@.skip(pos + 1));
            pos += 1;
        } else {
            let (entry, next) = read_entry(buf, pos);
            assert(rest.skip(first_entry_size(rest)) =~= buf@.skip(next as int));
            let ghost before = views(entries@);
            entries.push(entry);
            assert(views(entries@) =~= before + seq![first_entry(rest)]);
            assert(scan(buf@) =~= views(entries@) + scan(buf@.skip(next as int)));
            pos = next;
        }
    }
    assert(scan(buf@.skip(pos as int)) =~= Seq::empty()) by {
        if pos < total {
            assert(buf@.skip(pos as int)[0] == buf@[pos as int]);
        }
    }
    assert(scan(buf@) =~= views(entries@));
    entries
}

/// Parses an options region into the map from option code to option.
///
/// Never fails. An entry whose code is not a known option code is dropped;
/// of two entries with the same code the later one stays; an entry cut
/// short by the end of the region is kept with an empty value.
pub fn parse_options(buf: &[u8]) -> (options: HashMap<u8, VendorData>)
    ensures
        options_view(options@) == parsed_options(buf@),
{
    broadcast use vstd::std_specs::hash::group_hash_axioms;

    let total: usize = buf.len();
    let mut options: HashMap<u8, VendorData> = HashMap::new();
    let ghost mut done: Seq<VendorDataView> = Seq::empty();
    let mut pos: usize = 0;
    assert(buf@.skip(0) =~= buf@);
    assert(options_view(options@) =~= option_map(done));
    while pos < total && buf[pos] != END
        invariant
            0 <= pos <= total,
            total == buf@.len(),
            scan(buf@) == done + scan(buf@.skip(pos as int)),
            options_view(options@) == option_map(done),
        decreases total - pos,
    {
        let ghost rest = buf@.skip(pos as int);
        assert(rest[0] == buf@[pos as int]);
        if buf[pos] == PAD {
            assert(rest.skip(1) =~= buf@.skip(pos + 1));
            pos += 1;
        } else {
            let (entry, next) = read_entry(buf, pos);
            assert(rest.skip(first_entry_size(rest)) =~= buf@.skip(next as int));
            let ghost before = options@;
            let ghost e = entry@;
            proof {
                assert(done.push(e).drop_last() =~= done);
                assert(scan(buf@) =~= done.push(e) + scan(buf@.skip(next as int)));
                done = done.push(e);
            }
            match DHCPOptionCode::from_u8(entry.code) {
                Some(_) => {
                    let code: u8 = entry.code;
                    options.insert(code, entry);
                    assert(options_view(options@) =~= options_view(before).insert(code, e));
                },
                None => {},
            }
            pos = next;
        }
    }
    assert(scan(buf@.skip(pos as int)) =~= Seq::empty()) by {
        if pos < total {
            assert(buf@.skip(pos as int)[0] == buf@[pos as int]);
        }
    }
    assert(scan(buf@) =~= done);
    options
}

/// Lists what a parse of `entries` passes over: the entries whose value
/// was cut short, and those whose code is not a known option code.
pub fn find_anomalies(entries: &Vec<VendorData>) -> (found: Vec<Anomaly>)
    ensures
        found@ == anomalies(views(entries@)),
{
    let mut found: Vec<Anomaly> = Vec::new();
    let mut i: usize = 0;
    while i < entries.len()
        invariant
            0 <= i <= entries@.len(),
            found@ == anomalies(views(entries@).take(i as int)),
        decreases entries@.len() - i,
    {
        let entry = &entries[i];
        let ghost before = found@;
        assert(views(entries@).take(i + 1).drop_last() =~= views(entries@).take(i as int));
        assert(views(entries@).take(i + 1).last() == entry@);
        if entry.data.len() != entry.len as usize {
            found.push(Anomaly::TruncatedValue { code: entry.code, len: entry.len });
        }
        if DHCPOptionCode::from_u8(entry.code).is_none() {
            found.push(Anomaly::UnknownCode { code: entry.code });
        }
        assert(found@ =~= before + entry_anomalies(entry@));
        i += 1;
    }
    assert(views(entries@).take(i as int) =~= views(entries@));
    found
}

} // verus!
