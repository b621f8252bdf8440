//! ACK frame (RFC 9000, section 19.3): the packets a peer has received, as
//! ranges of packet numbers in descending order. Type 0x03 also carries
//! ECN counts.
//!
//! After the largest acknowledged packet number and the ACK delay come the
//! number of ranges beyond the first, the length of the first range, then
//! a gap and a length for every further range. A range of length `l` whose
//! largest packet number is `x` covers `x - l ..= x`; after a gap `g` the
//! next range's largest packet number is `smallest - g - 2`.
use crate::codec::{is_rest_after, DecoderError, Encodable};
use crate::frame::{lemma_skip_prefix, Tag};
use crate::varint::{
    lemma_varint_depends_on_prefix, lemma_varint_round_trip, spec_decode_varint,
    spec_encode_varint, VarInt, MAX_VARINT_VALUE,
};
use core::ops::RangeInclusive;
use vstd::prelude::*;

verus! {

pub const ACK_TAG: u8 = 0x02u8;

pub const ACK_W_ECN_TAG: u8 = 0x03u8;

/// Reading one ACK range from `s`, where `largest` is the largest packet
/// number of the range and `count` the number of ranges still to read: the
/// range as `(smallest, largest)`, the largest packet number of the next
/// range, and the number of bytes read. The gap after a range is read only
/// when another range follows. A range or gap that would go below packet
/// number 0 is refused.
pub open spec fn spec_ack_step(largest: u64, count: u64, s: Seq<u8>) -> Option<
    ((u64, u64), u64, nat),
> {
    if count == 0 {
        None
    } else {
        match spec_decode_varint(s) {
            None => None,
            Some((ack_range, n)) => if ack_range > largest {
                None
            } else {
                let start = (largest - ack_range) as u64;
                if count - 1 != 0 {
                    match spec_decode_varint(s.skip(n as int)) {
                        None => None,
                        Some((gap, m)) => if largest < ack_range + gap + 2 {
                            None
                        } else {
                            Some(
                                (
                                    (start, largest),
                                    (largest - ack_range - gap - 2) as u64,
                                    n + m,
                                ),
                            )
                        },
                    }
                } else {
                    Some(((start, largest), largest, n))
                }
            },
        }
    }
}

/// Reading `count` ACK ranges from `s`, the first with largest packet
/// number `largest`: the ranges and the number of bytes they take.
pub open spec fn spec_ack_ranges_from(largest: u64, count: u64, s: Seq<u8>) -> Option<
    (Seq<(u64, u64)>, nat),
>
    decreases count,
{
    if count == 0 {
        Some((Seq::empty(), 0))
    } else {
        match spec_ack_step(largest, count, s) {
            None => None,
            Some((range, next_largest, k)) => match spec_ack_ranges_from(
                next_largest,
                (count - 1) as u64,
                s.skip(k as int),
            ) {
                None => None,
                Some((ranges, k2)) => Some((seq![range] + ranges, k + k2)),
            },
        }
    }
}

/// The ACK ranges of a frame whose largest acknowledged packet number is
/// `largest`, at the front of `s`: the number of ranges beyond the first,
/// then the ranges. The ranges and the number of bytes they take.
pub open spec fn spec_decode_ack_ranges(largest: u64, s: Seq<u8>) -> Option<
    (Seq<(u64, u64)>, nat),
> {
    match spec_decode_varint(s) {
        None => None,
        Some((count, n)) => if count + 1 > MAX_VARINT_VALUE {
            None
        } else {
            match spec_ack_ranges_from(largest, (count + 1) as u64, s.skip(n as int)) {
                None => None,
                Some((ranges, k)) => Some((ranges, n + k)),
            }
        },
    }
}

/// A step reads at least one byte, and no more than there are.
proof fn lemma_ack_step_len(largest: u64, count: u64, s: Seq<u8>)
    requires
        spec_ack_step(largest, count, s) is Some,
    ensures
        1 <= spec_ack_step(largest, count, s).unwrap().2 <= s.len(),
{
    crate::varint::lemma_decoded_value_bound(s);
    let n = spec_decode_varint(s).unwrap().1;
    if count - 1 != 0 {
        crate::varint::lemma_decoded_value_bound(s.skip(n as int));
    }
}

/// A step looks only at the bytes it reads.
proof fn lemma_ack_step_depends_on_prefix(largest: u64, count: u64, s: Seq<u8>, t: Seq<u8>)
    requires
        spec_ack_step(largest, count, s) matches Some((_, _, k)) && k <= t.len() && t.take(
            k as int,
        ) == s.take(k as int),
    ensures
        spec_ack_step(largest, count, t) == spec_ack_step(largest, count, s),
{
    let k = spec_ack_step(largest, count, s).unwrap().2;
    let n = spec_decode_varint(s).unwrap().1;
    lemma_ack_step_len(largest, count, s);
    crate::varint::lemma_decoded_value_bound(s);
    assert(t.take(n as int) =~= t.take(k as int).take(n as int));
    assert(s.take(n as int) =~= s.take(k as int).take(n as int));
    lemma_varint_depends_on_prefix(s, t);
    if count - 1 != 0 {
        let m = (k - n) as nat;
        assert(t.skip(n as int).take(m as int) =~= t.take(k as int).skip(n as int));
        assert(s.skip(n as int).take(m as int) =~= s.take(k as int).skip(n as int));
        lemma_varint_depends_on_prefix(s.skip(n as int), t.skip(n as int));
    }
}

/// Reading ACK ranges looks only at the bytes it reads.
pub proof fn lemma_ack_ranges_depend_on_prefix(largest: u64, count: u64, s: Seq<u8>, t: Seq<u8>)
    requires
        spec_ack_ranges_from(largest, count, s) matches Some((_, k)) && k <= t.len() && t.take(
            k as int,
        ) == s.take(k as int),
    ensures
        spec_ack_ranges_from(largest, count, t) == spec_ack_ranges_from(largest, count, s),
    decreases count,
{
    if count > 0 {
        let (range, next_largest, k1) = spec_ack_step(largest, count, s).unwrap();
        let k = spec_ack_ranges_from(largest, count, s).unwrap().1;
        lemma_ack_step_len(largest, count, s);
        lemma_ack_ranges_len(next_largest, (count - 1) as u64, s.skip(k1 as int));
        assert(t.take(k1 as int) =~= t.take(k as int).take(k1 as int));
        assert(s.take(k1 as int) =~= s.take(k as int).take(k1 as int));
        lemma_ack_step_depends_on_prefix(largest, count, s, t);
        let k2 = (k - k1) as nat;
        assert(t.skip(k1 as int).take(k2 as int) =~= t.take(k as int).skip(k1 as int));
        assert(s.skip(k1 as int).take(k2 as int) =~= s.take(k as int).skip(k1 as int));
        lemma_ack_ranges_depend_on_prefix(
            next_largest,
            (count - 1) as u64,
            s.skip(k1 as int),
            t.skip(k1 as int),
        );
    }
}

/// Walks the ACK ranges of a decoded frame, largest packet numbers first.
#[derive(Clone, Copy)]
pub struct AckRangesIter<'a> {
    largest_acknowledged: VarInt,
    ack_range_count: VarInt,
    range_buffer: &'a [u8],
}

impl<'a> View for AckRangesIter<'a> {
    /// The largest packet number of the next range, the number of ranges
    /// left, and the bytes that hold them.
    type V = (u64, u64, Seq<u8>);

    closed spec fn view(&self) -> (u64, u64, Seq<u8>) {
        (self.largest_acknowledged@, self.ack_range_count@, self.range_buffer@)
    }
}

impl<'a> AckRangesIter<'a> {
    /// The ranges left to walk.
    pub open spec fn spec_remaining(&self) -> Option<(Seq<(u64, u64)>, nat)> {
        spec_ack_ranges_from(self@.0, self@.1, self@.2)
    }

    /// The next range, as `smallest..=largest`. When it cannot be read, the
    /// count of ranges left has gone down by one unless it was zero, and
    /// nothing else has changed.
    pub fn next(&mut self) -> (r: Option<RangeInclusive<VarInt>>)
        ensures
            match spec_ack_step(old(self)@.0, old(self)@.1, old(self)@.2) {
                Some((range, next_largest, k)) => {
                    &&& r matches Some(x) && x@.start@ == range.0 && x@.end@ == range.1
                        && !x@.exhausted
                    &&& final(self)@ == (next_largest, (old(self)@.1 - 1) as u64, old(self)@.2.skip(
                        k as int,
                    ))
                },
                None => {
                    &&& r is None
                    &&& final(self)@.0 == old(self)@.0
                    &&& final(self)@.2 == old(self)@.2
                    &&& final(self)@.1 == if old(self)@.1 == 0 {
                        0
                    } else {
                        (old(self)@.1 - 1) as u64
                    }
                },
            },
    {
        self.ack_range_count = match self.ack_range_count.checked_sub(VarInt::from_u8(1)) {
            Some(c) => c,
            None => return None,
        };
        let largest_acknowledged = self.largest_acknowledged;
        let (ack_range, buffer) = match VarInt::decode(self.range_buffer) {
            Ok(r) => r,
            Err(_) => return None,
        };
        let start = match largest_acknowledged.checked_sub(ack_range) {
            Some(s) => s,
            None => return None,
        };
        let end = largest_acknowledged;
        // If we're not on the last range, try to decode the next gap
        let ghost n = (self.range_buffer@.len() - buffer@.len()) as nat;
        if self.ack_range_count.as_u64() != 0 {
            let (gap, buffer2) = match VarInt::decode(buffer) {
                Ok(r) => r,
                Err(_) => return None,
            };
            let next_largest = match start.checked_sub(gap) {
                Some(x) => x,
                None => return None,
            };
            let next_largest = match next_largest.checked_sub(VarInt::from_u8(2)) {
                Some(x) => x,
                None => return None,
            };
            proof {
                assert(self.range_buffer@.skip(n as int).skip(buffer@.len() - buffer2@.len())
                    =~= self.range_buffer@.skip(self.range_buffer@.len() - buffer2@.len()));
            }
            self.largest_acknowledged = next_largest;
            self.range_buffer = buffer2;
        } else {
            self.range_buffer = buffer;
        }
        Some(RangeInclusive::new(start, end))
    }

    /// The number of ranges left.
    pub fn len(&self) -> (r: u64)
        ensures
            r == self@.1,
    {
        self.ack_range_count.as_u64()
    }
}

/// The ACK ranges of a decoded frame, kept as the bytes that encode them
/// and read again on demand.
#[derive(Clone, Copy)]
pub struct AckRangesDecoder<'a> {
    largest_acknowledged: VarInt,
    ack_range_count: VarInt,
    range_buffer: &'a [u8],
}

impl<'a> View for AckRangesDecoder<'a> {
    /// The largest acknowledged packet number, the number of ranges, and
    /// the bytes that hold them.
    type V = (u64, u64, Seq<u8>);

    closed spec fn view(&self) -> (u64, u64, Seq<u8>) {
        (self.largest_acknowledged@, self.ack_range_count@, self.range_buffer@)
    }
}

impl<'a> AckRangesDecoder<'a> {
    /// The bytes hold exactly the announced number of ranges, at least one.
    #[verifier::type_invariant]
    spec fn inv(self) -> bool {
        &&& self.ack_range_count@ >= 1
        &&& spec_ack_ranges_from(
            self.largest_acknowledged@,
            self.ack_range_count@,
            self.range_buffer@,
        ) matches Some((_, k)) && k == self.range_buffer@.len()
    }

    /// The ranges, largest packet numbers first, as `(smallest, largest)`.
    pub open spec fn spec_ranges(&self) -> Seq<(u64, u64)> {
        match spec_ack_ranges_from(self@.0, self@.1, self@.2) {
            Some((ranges, _)) => ranges,
            None => Seq::empty(),
        }
    }

    /// A walk over the ranges, from the first.
    pub fn iter(&self) -> (it: AckRangesIter<'a>)
        ensures
            it@ == self@,
    {
        AckRangesIter {
            largest_acknowledged: self.largest_acknowledged,
            ack_range_count: self.ack_range_count,
            range_buffer: self.range_buffer,
        }
    }

    /// Decodes the ACK ranges of a frame whose largest acknowledged packet
    /// number is `largest_acknowledged`: the number of ranges beyond the
    /// first, then the ranges, all of which must be readable.
    pub fn decode(largest_acknowledged: VarInt, buffer: &'a [u8]) -> (res: Result<
        (AckRangesDecoder<'a>, &'a [u8]),
        DecoderError,
    >)
        ensures
            spec_decode_ack_ranges(largest_acknowledged@, buffer@) is None <==> res is Err,
            res matches Ok((d, rest)) ==> spec_decode_ack_ranges(
                largest_acknowledged@,
                buffer@,
            ) matches Some((ranges, n)) && d.spec_ranges() == ranges && d@.0
                == largest_acknowledged@ && is_rest_after(buffer@, n, rest@),
    {
        let (ack_range_count, buffer1) = VarInt::decode(buffer)?;
        let ghost n = (buffer@.len() - buffer1@.len()) as nat;
        // add one to the total, which includes the first ack range
        let ack_range_count = match ack_range_count.checked_add(VarInt::from_u8(1)) {
            Some(c) => c,
            None => return Err(DecoderError::InvariantViolation("invalid ACK ranges")),
        };
        let mut iter = AckRangesIter {
            ack_range_count,
            range_buffer: buffer1,
            largest_acknowledged,
        };
        let ghost l0 = largest_acknowledged@;
        let ghost c0 = ack_range_count@;
        let ghost s0 = buffer1@;
        let ghost mut done: Seq<(u64, u64)> = Seq::empty();
        let ghost mut consumed: nat = 0;
        assert(spec_decode_ack_ranges(l0, buffer@) == match spec_ack_ranges_from(l0, c0, s0) {
            None => None,
            Some((rs, k)) => Some((rs, n + k)),
        });
        // make sure we can decode all of the range/gap pairs
        let mut i: u64 = 0;
        while i < ack_range_count.as_u64()
            invariant
                i <= c0,
                ack_range_count@ == c0,
                l0 == largest_acknowledged@,
                iter@.1 == c0 - i,
                consumed <= s0.len(),
                iter@.2 == s0.skip(consumed as int),
                iter@.2.len() <= s0.len(),
                spec_decode_ack_ranges(l0, buffer@) == match spec_ack_ranges_from(l0, c0, s0) {
                    None => None,
                    Some((rs, k)) => Some((rs, n + k)),
                },
                spec_ack_ranges_from(l0, c0, s0) == match spec_ack_ranges_from(
                    iter@.0,
                    iter@.1,
                    iter@.2,
                ) {
                    None => None,
                    Some((rs, k)) => Some((done + rs, consumed + k)),
                },
            decreases c0 - i,
        {
            let ghost old_iter = iter@;
            match iter.next() {
                Some(_) => {},
                None => {
                    proof {
                        assert(spec_ack_ranges_from(old_iter.0, old_iter.1, old_iter.2) is None);
                    }
                    return Err(DecoderError::InvariantViolation("invalid ACK ranges"));
                },
            }
            proof {
                let (range, _, k) = spec_ack_step(old_iter.0, old_iter.1, old_iter.2).unwrap();
                lemma_ack_step_len(old_iter.0, old_iter.1, old_iter.2);
                assert(old_iter.2.skip(k as int) =~= s0.skip((consumed + k) as int));
                let rest = spec_ack_ranges_from(iter@.0, iter@.1, iter@.2);
                if let Some((rs, k2)) = rest {
                    assert(done + (seq![range] + rs) =~= done.push(range) + rs);
                }
                done = done.push(range);
                consumed = consumed + k;
            }
            i = i + 1;
        }
        let peek_len = iter.range_buffer.len();
        let buffer_len = buffer1.len();
        let (range_buffer, remaining) = buffer1.split_at(buffer_len - peek_len);
        proof {
            assert(done + Seq::empty() =~= done);
            assert(range_buffer@ =~= s0.take(consumed as int));
            assert(range_buffer@.take(consumed as int) =~= s0.take(consumed as int));
            lemma_ack_ranges_depend_on_prefix(l0, c0, s0, range_buffer@);
            assert(remaining@ =~= buffer@.skip((n + consumed) as int));
            assert(buffer@.skip(n as int) == s0);
        }
        let ack_ranges = AckRangesDecoder { largest_acknowledged, ack_range_count, range_buffer };
        Ok((ack_ranges, remaining))
    }
}

/// Reading `count` ranges gives `count` ranges.
pub proof fn lemma_ack_ranges_len(largest: u64, count: u64, s: Seq<u8>)
    requires
        spec_ack_ranges_from(largest, count, s) is Some,
    ensures
        spec_ack_ranges_from(largest, count, s).unwrap().0.len() == count,
        spec_ack_ranges_from(largest, count, s).unwrap().1 <= s.len(),
        count >= 1 ==> spec_ack_ranges_from(largest, count, s).unwrap().0[0].1 == largest,
    decreases count,
{
    if count > 0 {
        let (range, next_largest, k) = spec_ack_step(largest, count, s).unwrap();
        lemma_ack_step_len(largest, count, s);
        lemma_ack_ranges_len(next_largest, (count - 1) as u64, s.skip(k as int));
    }
}


/// The lower bound of an inclusive range: `RangeInclusive::start` from the
/// standard library, which returns the range's lower bound.
#[verifier::external_body]
fn range_start(r: &RangeInclusive<VarInt>) -> (v: VarInt)
    ensures
        v == r@.start,
{
    *r.start()
}

/// The upper bound of an inclusive range: `RangeInclusive::end` from the
/// standard library, which returns the range's upper bound.
#[verifier::external_body]
fn range_end(r: &RangeInclusive<VarInt>) -> (v: VarInt)
    ensures
        v == r@.end,
{
    *r.end()
}

/// The time `Duration::from_micros` returns for a number of microseconds.
pub uninterp spec fn spec_duration_from_micros(micros: u64) -> core::time::Duration;

/// `Duration::from_micros` from the standard library: the duration of
/// `micros` microseconds.
#[verifier::external_body]
pub(crate) fn duration_from_micros(micros: u64) -> (d: core::time::Duration)
    ensures
        d == spec_duration_from_micros(micros),
{
    core::time::Duration::from_micros(micros)
}

/// `ranges` hold the bounds of `model`, one range for each pair.
pub open spec fn spec_ranges_hold(ranges: Seq<RangeInclusive<VarInt>>, model: Seq<(u64, u64)>) -> bool {
    &&& ranges.len() == model.len()
    &&& forall|i: int|
        0 <= i < ranges.len() ==> (#[trigger] ranges[i])@.start@ == model[i].0 && ranges[i]@.end@
            == model[i].1 && !ranges[i]@.exhausted
}

/// A set of acknowledged packet numbers, as ranges in descending order.
pub trait AckRanges {
    /// The ranges, largest packet numbers first, as `(smallest, largest)`.
    spec fn spec_ack_ranges(&self) -> Seq<(u64, u64)>;

    /// The ranges, largest packet numbers first.
    fn ack_ranges(&self) -> (r: Vec<RangeInclusive<VarInt>>)
        ensures
            spec_ranges_hold(r@, self.spec_ack_ranges()),
    ;

    /// The largest packet number of the first range.
    fn largest_acknowledged(&self) -> (r: VarInt)
        requires
            self.spec_ack_ranges().len() > 0,
        ensures
            r@ == self.spec_ack_ranges()[0].1,
    {
        let ranges = self.ack_ranges();
        range_end(&ranges[0])
    }
}

impl<'a> AckRanges for AckRangesDecoder<'a> {
    open spec fn spec_ack_ranges(&self) -> Seq<(u64, u64)> {
        self.spec_ranges()
    }

    fn ack_ranges(&self) -> (r: Vec<RangeInclusive<VarInt>>) {
        proof {
            use_type_invariant(self);
        }
        let ghost all = self.spec_ranges();
        let mut iter = self.iter();
        let mut ranges: Vec<RangeInclusive<VarInt>> = Vec::new();
        let count = iter.len();
        let mut i: u64 = 0;
        while i < count
            invariant
                i <= count,
                count == self@.1,
                iter@.1 == count - i,
                spec_ack_ranges_from(self@.0, self@.1, self@.2) matches Some((rs, _)) && rs == all,
                spec_ack_ranges_from(iter@.0, iter@.1, iter@.2) matches Some((rs, _)) && all
                    == ranges@.map_values(|r: RangeInclusive<VarInt>| (r@.start@, r@.end@)) + rs,
                forall|j: int| 0 <= j < ranges@.len() ==> !(#[trigger] ranges@[j])@.exhausted,
            decreases count - i,
        {
            let ghost old_iter = iter@;
            let ghost old_ranges = ranges@;
            let range = iter.next().unwrap();
            ranges.push(range);
            proof {
                let (rs, _) = spec_ack_ranges_from(old_iter.0, old_iter.1, old_iter.2).unwrap();
                let (rs2, _) = spec_ack_ranges_from(iter@.0, iter@.1, iter@.2).unwrap();
                assert(rs == seq![rs[0]] + rs2);
                assert(ranges@.map_values(|r: RangeInclusive<VarInt>| (r@.start@, r@.end@))
                    =~= old_ranges.map_values(|r: RangeInclusive<VarInt>| (r@.start@, r@.end@)).push(
                    rs[0],
                ));
                assert(all =~= ranges@.map_values(
                    |r: RangeInclusive<VarInt>| (r@.start@, r@.end@),
                ) + rs2);
            }
            i = i + 1;
        }
        proof {
            assert(all =~= ranges@.map_values(|r: RangeInclusive<VarInt>| (r@.start@, r@.end@)));
            assert forall|j: int| 0 <= j < ranges@.len() implies (#[trigger] ranges@[j])@.start@
                == all[j].0 && ranges@[j]@.end@ == all[j].1 by {
                assert(all[j] == ranges@.map_values(
                    |r: RangeInclusive<VarInt>| (r@.start@, r@.end@),
                )[j]);
            }
        }
        ranges
    }

    fn largest_acknowledged(&self) -> (r: VarInt) {
        proof {
            use_type_invariant(self);
            lemma_ack_ranges_len(self@.0, self@.1, self@.2);
        }
        self.largest_acknowledged
    }
}

/// Two sets of ACK ranges are equal when they hold the same ranges, however
/// their bytes encode them.
impl<'a> PartialEq for AckRangesDecoder<'a> {
    fn eq(&self, other: &Self) -> (r: bool) {
        let a = self.ack_ranges();
        let b = other.ack_ranges();
        if a.len() != b.len() {
            return false;
        }
        let mut i: usize = 0;
        while i < a.len()
            invariant
                i <= a@.len(),
                a@.len() == b@.len(),
                spec_ranges_hold(a@, self.spec_ranges()),
                spec_ranges_hold(b@, other.spec_ranges()),
                forall|j: int| 0 <= j < i ==> self.spec_ranges()[j] == other.spec_ranges()[j],
            decreases a@.len() - i,
        {
            if range_start(&a[i]).as_u64() != range_start(&b[i]).as_u64() || range_end(
                &a[i],
            ).as_u64() != range_end(&b[i]).as_u64() {
                assert(self.spec_ranges()[i as int] != other.spec_ranges()[i as int]);
                return false;
            }
            i = i + 1;
        }
        assert(self.spec_ranges() =~= other.spec_ranges());
        true
    }
}

impl<'a> vstd::std_specs::cmp::PartialEqSpecImpl for AckRangesDecoder<'a> {
    open spec fn obeys_eq_spec() -> bool {
        true
    }

    open spec fn eq_spec(&self, other: &Self) -> bool {
        self.spec_ranges() == other.spec_ranges()
    }
}

/// The number of packets received with each ECN codepoint (RFC 9000,
/// section 19.3.2).
#[derive(Copy, Clone, Debug, PartialEq, Eq, Structural)]
pub struct ECNCounts {
    /// A variable-length integer representing the total number of packets
    /// received with the ECT(0) codepoint.
    pub ect_0_count: VarInt,
    /// A variable-length integer representing the total number of packets
    /// received with the ECT(1) codepoint.
    pub ect_1_count: VarInt,
    /// A variable-length integer representing the total number of packets
    /// received with the CE codepoint.
    pub ce_count: VarInt,
}

impl View for ECNCounts {
    type V = (u64, u64, u64);

    open spec fn view(&self) -> (u64, u64, u64) {
        (self.ect_0_count@, self.ect_1_count@, self.ce_count@)
    }
}

/// The three ECN counts at the front of `s`.
pub open spec fn spec_decode_ecn_counts(s: Seq<u8>) -> Option<((u64, u64, u64), nat)> {
    match crate::frame::max_stream_data::spec_decode_two_varints(s) {
        None => None,
        Some(((a, b), n)) => match spec_decode_varint(s.skip(n as int)) {
            None => None,
            Some((c, m)) => Some(((a, b, c), n + m)),
        },
    }
}

/// The encoding of three ECN counts.
pub open spec fn spec_encode_ecn_counts(e: (u64, u64, u64)) -> Seq<u8> {
    spec_encode_varint(e.0) + spec_encode_varint(e.1) + spec_encode_varint(e.2)
}

impl ECNCounts {
    /// Decodes the three counts from the front of `buffer`.
    pub fn decode(buffer: &[u8]) -> (res: Result<(ECNCounts, &[u8]), DecoderError>)
        ensures
            spec_decode_ecn_counts(buffer@) is None <==> res is Err,
            res matches Ok((e, rest)) ==> spec_decode_ecn_counts(buffer@) matches Some((v, n)) && v
                == e@ && is_rest_after(buffer@, n, rest@),
    {
        let (ect_0_count, b1) = VarInt::decode(buffer)?;
        let (ect_1_count, b2) = VarInt::decode(b1)?;
        proof {
            assert(buffer@.skip(buffer@.len() - b1@.len()).skip(b1@.len() - b2@.len())
                =~= buffer@.skip(buffer@.len() - b2@.len()));
        }
        let (ce_count, b3) = VarInt::decode(b2)?;
        proof {
            assert(buffer@.skip(buffer@.len() - b2@.len()).skip(b2@.len() - b3@.len())
                =~= buffer@.skip(buffer@.len() - b3@.len()));
        }
        Ok((ECNCounts { ect_0_count, ect_1_count, ce_count }, b3))
    }
}

impl Encodable for ECNCounts {
    open spec fn spec_encoding(&self) -> Seq<u8> {
        spec_encode_ecn_counts(self@)
    }

    open spec fn encodable(&self) -> bool {
        true
    }

    fn encoding_size(&self) -> (n: usize) {
        proof {
            crate::varint::lemma_encoding_len(self.ect_0_count@);
            crate::varint::lemma_encoding_len(self.ect_1_count@);
            crate::varint::lemma_encoding_len(self.ce_count@);
        }
        self.ect_0_count.encoding_size() + self.ect_1_count.encoding_size()
            + self.ce_count.encoding_size()
    }

    fn encode(&self, out: &mut Vec<u8>) {
        self.ect_0_count.encode(out);
        self.ect_1_count.encode(out);
        self.ce_count.encode(out);
        assert(out@ =~= old(out)@ + self.spec_encoding());
    }
}

/// Decoding three encoded ECN counts, followed by anything, gives them back.
pub proof fn lemma_ecn_counts_round_trip(e: (u64, u64, u64), rest: Seq<u8>)
    requires
        e.0 <= MAX_VARINT_VALUE,
        e.1 <= MAX_VARINT_VALUE,
        e.2 <= MAX_VARINT_VALUE,
    ensures
        spec_decode_ecn_counts(spec_encode_ecn_counts(e) + rest) == Some(
            (e, spec_encode_ecn_counts(e).len()),
        ),
{
    let a = spec_encode_varint(e.0);
    let b = spec_encode_varint(e.1);
    let c = spec_encode_varint(e.2);
    assert(spec_encode_ecn_counts(e) + rest =~= a + b + (c + rest));
    crate::frame::max_stream_data::lemma_two_varints_round_trip(e.0, e.1, c + rest);
    lemma_skip_prefix(a + b, c + rest);
    lemma_varint_round_trip(e.2, rest);
}

/// Ranges an ACK frame can carry: at least one, each with its smallest
/// packet number no larger than its largest, every packet number fitting a
/// variable-length integer, and at least one unacknowledged packet between
/// one range and the next, which lies below it.
pub open spec fn spec_ack_ranges_wf(rs: Seq<(u64, u64)>) -> bool {
    &&& rs.len() >= 1
    &&& rs.len() <= MAX_VARINT_VALUE
    &&& forall|i: int| 0 <= i < rs.len() ==> (#[trigger] rs[i]).0 <= rs[i].1 <= MAX_VARINT_VALUE
    &&& forall|i: int| 1 <= i < rs.len() ==> (#[trigger] rs[i]).1 + 2 <= rs[i - 1].0
}

/// The gap and length of each range in `rs`, where the range before the
/// first of them has smallest packet number `prev_smallest`.
pub open spec fn spec_encode_ack_gaps(prev_smallest: u64, rs: Seq<(u64, u64)>) -> Seq<u8>
    decreases rs.len(),
{
    if rs.len() == 0 {
        Seq::empty()
    } else {
        spec_encode_varint((prev_smallest - rs[0].1 - 2) as u64) + spec_encode_varint(
            (rs[0].1 - rs[0].0) as u64,
        ) + spec_encode_ack_gaps(rs[0].0, rs.drop_first())
    }
}

/// The ranges as an ACK frame writes them after their count: the length of
/// the first range, then the gap and length of each further range.
pub open spec fn spec_encode_ack_ranges(rs: Seq<(u64, u64)>) -> Seq<u8> {
    spec_encode_varint((rs[0].1 - rs[0].0) as u64) + spec_encode_ack_gaps(rs[0].0, rs.drop_first())
}

/// Reading back the encoded ranges, followed by anything, gives the ranges.
pub proof fn lemma_ack_ranges_round_trip(rs: Seq<(u64, u64)>, rest: Seq<u8>)
    requires
        spec_ack_ranges_wf(rs),
    ensures
        spec_ack_ranges_from(rs[0].1, rs.len() as u64, spec_encode_ack_ranges(rs) + rest) == Some(
            (rs, spec_encode_ack_ranges(rs).len()),
        ),
    decreases rs.len(),
{
    let len0 = (rs[0].1 - rs[0].0) as u64;
    let e0 = spec_encode_varint(len0);
    let tail = rs.drop_first();
    let s = spec_encode_ack_ranges(rs) + rest;
    if rs.len() == 1 {
        assert(spec_encode_ack_gaps(rs[0].0, tail) =~= Seq::<u8>::empty());
        assert(s =~= e0 + rest);
        lemma_varint_round_trip(len0, rest);
        assert(spec_ack_ranges_from(rs[0].1, 0, s.skip(e0.len() as int)) == Some(
            (Seq::<(u64, u64)>::empty(), 0nat),
        ));
        assert(spec_ack_step(rs[0].1, 1, s) == Some(((rs[0].0, rs[0].1), rs[0].1, e0.len())));
        assert(seq![(rs[0].0, rs[0].1)] + Seq::<(u64, u64)>::empty() =~= rs);
    } else {
        assert(rs[1].1 + 2 <= rs[0].0);
        let gap = (rs[0].0 - rs[1].1 - 2) as u64;
        let eg = spec_encode_varint(gap);
        assert(tail[0] == rs[1]);
        assert(spec_ack_ranges_wf(tail)) by {
            assert forall|i: int| 0 <= i < tail.len() implies (#[trigger] tail[i]).0 <= tail[i].1
                <= MAX_VARINT_VALUE by {
                assert(tail[i] == rs[i + 1]);
            }
            assert forall|i: int| 1 <= i < tail.len() implies (#[trigger] tail[i]).1 + 2
                <= tail[i - 1].0 by {
                assert(tail[i] == rs[i + 1]);
                assert(tail[i - 1] == rs[i]);
            }
        }
        let body = spec_encode_ack_ranges(tail);
        assert(spec_encode_ack_gaps(rs[0].0, tail) =~= eg + body);
        assert(s =~= e0 + (eg + (body + rest)));
        lemma_varint_round_trip(len0, eg + (body + rest));
        lemma_skip_prefix(e0, eg + (body + rest));
        lemma_varint_round_trip(gap, body + rest);
        lemma_skip_prefix(eg, body + rest);
        assert(s.skip(e0.len() as int).skip(eg.len() as int) == body + rest);
        assert(s.skip((e0.len() + eg.len()) as int) =~= body + rest);
        lemma_ack_ranges_round_trip(tail, rest);
        assert(spec_ack_step(rs[0].1, rs.len() as u64, s) == Some(
            ((rs[0].0, rs[0].1), rs[1].1, e0.len() + eg.len()),
        ));
        assert((rs.len() - 1) as u64 == tail.len() as u64);
        assert(seq![(rs[0].0, rs[0].1)] + tail =~= rs);
    }
}


/// The ranges read from valid bytes are ranges an ACK frame can carry, the
/// first ending at `largest`.
pub proof fn lemma_ack_ranges_from_wf(largest: u64, count: u64, s: Seq<u8>)
    requires
        largest <= MAX_VARINT_VALUE,
        1 <= count <= MAX_VARINT_VALUE,
        spec_ack_ranges_from(largest, count, s) is Some,
    ensures
        spec_ack_ranges_wf(spec_ack_ranges_from(largest, count, s).unwrap().0),
        spec_ack_ranges_from(largest, count, s).unwrap().0[0].1 == largest,
    decreases count,
{
    lemma_ack_ranges_len(largest, count, s);
    let (rs, _) = spec_ack_ranges_from(largest, count, s).unwrap();
    let (range, next_largest, k) = spec_ack_step(largest, count, s).unwrap();
    if count > 1 {
        lemma_ack_ranges_from_wf(next_largest, (count - 1) as u64, s.skip(k as int));
        let (rs2, _) = spec_ack_ranges_from(next_largest, (count - 1) as u64, s.skip(k as int)).unwrap();
        assert(rs == seq![range] + rs2);
        assert forall|i: int| 0 <= i < rs.len() implies (#[trigger] rs[i]).0 <= rs[i].1
            <= MAX_VARINT_VALUE by {
            if i > 0 {
                assert(rs[i] == rs2[i - 1]);
            }
        }
        assert forall|i: int| 1 <= i < rs.len() implies (#[trigger] rs[i]).1 + 2
            <= rs[i - 1].0 by {
            assert(rs[i] == rs2[i - 1]);
            if i > 1 {
                assert(rs[i - 1] == rs2[i - 2]);
            }
        }
    }
}

#[derive(Clone, PartialEq, Eq)]
pub struct Ack<AckRanges> {
    /// A variable-length integer representing the time delta in microseconds
    /// between when this ACK was sent and when the largest acknowledged
    /// packet, as indicated in the Largest Acknowledged field, was
    /// received by this peer
    pub ack_delay: VarInt,
    /// Contains additional ranges of packets which are alternately not
    /// acknowledged (Gap) and acknowledged (ACK Range)
    pub ack_ranges: AckRanges,
    /// ECN Counts
    pub ecn_counts: Option<ECNCounts>,
}

/// ACK delay, ranges as `(smallest, largest)`, ECN counts.
pub type AckModel = (u64, Seq<(u64, u64)>, Option<(u64, u64, u64)>);

impl<A: AckRanges> View for Ack<A> {
    type V = AckModel;

    open spec fn view(&self) -> AckModel {
        (
            self.ack_delay@,
            self.ack_ranges.spec_ack_ranges(),
            match self.ecn_counts {
                Some(e) => Some(e@),
                None => None,
            },
        )
    }
}

/// The type of an ACK frame: 0x03 when it carries ECN counts.
pub open spec fn spec_ack_tag(has_ecn: bool) -> u8 {
    if has_ecn {
        ACK_W_ECN_TAG
    } else {
        ACK_TAG
    }
}

/// The fields of an ACK frame of type `tag` at the front of `s`: largest
/// acknowledged, ACK delay, the ranges, and the ECN counts when the type is
/// 0x03.
pub open spec fn spec_decode_ack(tag: u8, s: Seq<u8>) -> Option<(AckModel, nat)> {
    match spec_decode_varint(s) {
        None => None,
        Some((largest, n1)) => match spec_decode_varint(s.skip(n1 as int)) {
            None => None,
            Some((delay, n2)) => match spec_decode_ack_ranges(
                largest,
                s.skip((n1 + n2) as int),
            ) {
                None => None,
                Some((rs, n3)) => if tag == ACK_W_ECN_TAG {
                    match spec_decode_ecn_counts(s.skip((n1 + n2 + n3) as int)) {
                        None => None,
                        Some((e, n4)) => Some(((delay, rs, Some(e)), n1 + n2 + n3 + n4)),
                    }
                } else {
                    Some(((delay, rs, None), n1 + n2 + n3))
                },
            },
        },
    }
}

/// What follows the type in the encoding of an ACK frame.
pub open spec fn spec_encode_ack(
    delay: u64,
    rs: Seq<(u64, u64)>,
    ecn: Option<(u64, u64, u64)>,
) -> Seq<u8> {
    spec_encode_varint(rs[0].1) + spec_encode_varint(delay) + spec_encode_varint(
        (rs.len() - 1) as u64,
    ) + spec_encode_ack_ranges(rs) + match ecn {
        Some(e) => spec_encode_ecn_counts(e),
        None => Seq::empty(),
    }
}

impl<A> Ack<A> {
    pub fn tag(&self) -> (t: u8)
        ensures
            t == spec_ack_tag(self.ecn_counts is Some),
    {
        if self.ecn_counts.is_some() {
            ACK_W_ECN_TAG
        } else {
            ACK_TAG
        }
    }
}

impl<A: AckRanges> Ack<A> {
    /// The ACK delay as a duration of that many microseconds.
    pub fn ack_delay(&self) -> (d: core::time::Duration)
        ensures
            d == spec_duration_from_micros(self.ack_delay@),
    {
        duration_from_micros(self.ack_delay.as_u64())
    }

    /// The acknowledged ranges, largest packet numbers first.
    pub fn ack_ranges(&self) -> (r: Vec<RangeInclusive<VarInt>>)
        ensures
            spec_ranges_hold(r@, self.ack_ranges.spec_ack_ranges()),
    {
        self.ack_ranges.ack_ranges()
    }

    /// The largest acknowledged packet number.
    pub fn largest_acknowledged(&self) -> (r: VarInt)
        requires
            self.ack_ranges.spec_ack_ranges().len() > 0,
        ensures
            r@ == self.ack_ranges.spec_ack_ranges()[0].1,
    {
        self.ack_ranges.largest_acknowledged()
    }
}

impl<'a> Ack<AckRangesDecoder<'a>> {
    /// Decodes the frame's fields, which follow its type `tag`. A frame that
    /// decodes can be encoded again.
    pub fn decode(tag: Tag, buffer: &'a [u8]) -> (res: Result<(Ack<AckRangesDecoder<'a>>, &'a [u8]), DecoderError>)
        ensures
            spec_decode_ack(tag, buffer@) is None <==> res is Err,
            res matches Ok((f, rest)) ==> spec_decode_ack(tag, buffer@) matches Some((v, n)) && v
                == f@ && is_rest_after(buffer@, n, rest@) && f.encodable(),
    {
        let (largest_acknowledged, b1) = VarInt::decode(buffer)?;
        let (ack_delay, b2) = VarInt::decode(b1)?;
        proof {
            assert(buffer@.skip(buffer@.len() - b1@.len()).skip(b1@.len() - b2@.len())
                =~= buffer@.skip(buffer@.len() - b2@.len()));
        }
        let (ack_ranges, b3) = AckRangesDecoder::decode(largest_acknowledged, b2)?;
        proof {
            assert(buffer@.skip(buffer@.len() - b2@.len()).skip(b2@.len() - b3@.len())
                =~= buffer@.skip(buffer@.len() - b3@.len()));
            let s2 = buffer@.skip(buffer@.len() - b2@.len());
            let (count, n) = spec_decode_varint(s2).unwrap();
            crate::varint::lemma_decoded_value_bound(buffer@);
            lemma_ack_ranges_from_wf(largest_acknowledged@, (count + 1) as u64, s2.skip(n as int));
        }
        let (ecn_counts, b4) = if tag == ACK_W_ECN_TAG {
            let (ecn_counts, b4) = ECNCounts::decode(b3)?;
            proof {
                assert(buffer@.skip(buffer@.len() - b3@.len()).skip(b3@.len() - b4@.len())
                    =~= buffer@.skip(buffer@.len() - b4@.len()));
            }
            (Some(ecn_counts), b4)
        } else {
            (None, b3)
        };
        let frame = Ack { ack_delay, ack_ranges, ecn_counts };
        Ok((frame, b4))
    }
}

impl<A: AckRanges> Encodable for Ack<A> {
    open spec fn spec_encoding(&self) -> Seq<u8> {
        seq![spec_ack_tag(self.ecn_counts is Some)] + spec_encode_ack(self@.0, self@.1, self@.2)
    }

    /// The ranges are ranges an ACK frame can carry.
    open spec fn encodable(&self) -> bool {
        spec_ack_ranges_wf(self.ack_ranges.spec_ack_ranges())
    }

    fn encoding_size(&self) -> (n: usize) {
        let mut scratch: Vec<u8> = Vec::new();
        self.encode(&mut scratch);
        scratch.len()
    }

    fn encode(&self, out: &mut Vec<u8>) {
        let ghost rs = self.ack_ranges.spec_ack_ranges();
        let ranges = self.ack_ranges.ack_ranges();
        let first_start = range_start(&ranges[0]);
        let largest_acknowledged = range_end(&ranges[0]);
        let first_ack_range = largest_acknowledged.checked_sub(first_start).unwrap();
        let ack_range_count = VarInt::try_from_usize(ranges.len() - 1).unwrap();
        out.push(self.tag());
        largest_acknowledged.encode(out);
        self.ack_delay.encode(out);
        ack_range_count.encode(out);
        first_ack_range.encode(out);
        let ghost target = out@ + spec_encode_ack_gaps(rs[0].0, rs.drop_first());
        assert(rs.drop_first() =~= rs.skip(1));
        let mut smallest = first_start;
        let mut i: usize = 1;
        while i < ranges.len()
            invariant
                1 <= i <= ranges@.len(),
                spec_ranges_hold(ranges@, rs),
                spec_ack_ranges_wf(rs),
                smallest@ == rs[i - 1].0,
                out@ + spec_encode_ack_gaps(smallest@, rs.skip(i as int)) == target,
            decreases ranges@.len() - i,
        {
            let start = range_start(&ranges[i]);
            let end = range_end(&ranges[i]);
            assert(rs[i as int].1 + 2 <= rs[i - 1].0);
            let gap = smallest.checked_sub(end).unwrap().checked_sub(VarInt::from_u8(2)).unwrap();
            let ack_range = end.checked_sub(start).unwrap();
            let ghost before = out@;
            gap.encode(out);
            ack_range.encode(out);
            proof {
                let t = rs.skip(i as int);
                assert(t[0] == rs[i as int]);
                assert(t.drop_first() =~= rs.skip(i + 1));
                assert(out@ + spec_encode_ack_gaps(start@, rs.skip(i + 1)) =~= before
                    + spec_encode_ack_gaps(smallest@, t));
            }
            smallest = start;
            i = i + 1;
        }
        assert(rs.skip(i as int) =~= Seq::<(u64, u64)>::empty());
        if let Some(ecn_counts) = &self.ecn_counts {
            ecn_counts.encode(out);
        }
        assert(out@ =~= old(out)@ + self.spec_encoding());
    }
}

/// Decoding what follows the type in the encoding of an ACK frame, with
/// that type, gives the ACK delay, the ranges and the ECN counts back and
/// consumes exactly the encoding.
pub proof fn lemma_ack_round_trip(
    delay: u64,
    rs: Seq<(u64, u64)>,
    ecn: Option<(u64, u64, u64)>,
    rest: Seq<u8>,
)
    requires
        delay <= MAX_VARINT_VALUE,
        spec_ack_ranges_wf(rs),
        ecn matches Some(e) ==> e.0 <= MAX_VARINT_VALUE && e.1 <= MAX_VARINT_VALUE && e.2
            <= MAX_VARINT_VALUE,
    ensures
        spec_decode_ack(spec_ack_tag(ecn is Some), spec_encode_ack(delay, rs, ecn) + rest) == Some(
            ((delay, rs, ecn), spec_encode_ack(delay, rs, ecn).len()),
        ),
{
    let el = spec_encode_varint(rs[0].1);
    let ed = spec_encode_varint(delay);
    let ec = spec_encode_varint((rs.len() - 1) as u64);
    let er = spec_encode_ack_ranges(rs);
    let ee: Seq<u8> = match ecn {
        Some(e) => spec_encode_ecn_counts(e),
        None => Seq::empty(),
    };
    let s = spec_encode_ack(delay, rs, ecn) + rest;
    assert(s =~= el + (ed + (ec + (er + (ee + rest)))));
    lemma_varint_round_trip(rs[0].1, ed + (ec + (er + (ee + rest))));
    lemma_skip_prefix(el, ed + (ec + (er + (ee + rest))));
    lemma_varint_round_trip(delay, ec + (er + (ee + rest)));
    lemma_skip_prefix(ed, ec + (er + (ee + rest)));
    assert(s.skip((el.len() + ed.len()) as int) =~= ec + (er + (ee + rest)));
    lemma_varint_round_trip((rs.len() - 1) as u64, er + (ee + rest));
    lemma_skip_prefix(ec, er + (ee + rest));
    lemma_ack_ranges_round_trip(rs, ee + rest);
    assert((rs.len() - 1) + 1 == rs.len());
    assert((ec + (er + (ee + rest))).skip(ec.len() as int) == er + (ee + rest));
    assert(spec_decode_ack_ranges(rs[0].1, ec + (er + (ee + rest))) == Some(
        (rs, ec.len() + er.len()),
    ));
    assert(s.skip((el.len() + ed.len() + ec.len() + er.len()) as int) =~= ee + rest);
    if let Some(e) = ecn {
        lemma_ecn_counts_round_trip(e, rest);
    }
}

} // verus!
