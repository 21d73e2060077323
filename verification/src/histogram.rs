//! A mergeable latency recorder with a compact, reversible byte encoding.
//!
//! The buckets and the byte format belong to the `hdrhistogram` crate. This
//! module states what the recorder holds as a multiset of samples and passes
//! every failure of the codec on as a [`CodecError`].

use vstd::prelude::*;
use vstd::multiset::Multiset;
use hdrhistogram::serialization::Serializer;

verus! {

/// The unit in which the samples of a named metric were taken.
#[derive(Debug, Clone, Copy, PartialEq, Eq, Structural)]
pub enum TimeUnit {
    Seconds,
    Milliseconds,
    Microseconds,
    Nanoseconds,
}

/// A latency histogram over unsigned 64-bit samples, kept to three
/// significant digits. The recorder inside is the `hdrhistogram` crate's and
/// is not read here: [`recorded`] names what it holds.
#[verifier::external_body]
#[derive(Debug, PartialEq)]
pub struct Histogram(pub hdrhistogram::Histogram<u64>);

/// How a recorder is laid out, and how far it has been filled.
pub struct Layout {
    /// The lowest value that is told from zero.
    pub lowest: u64,
    /// The highest value that the recorder is set to track.
    pub highest: u64,
    /// The number of significant decimal digits that are kept.
    pub digits: u8,
    /// The highest value counted since the recorder was made or reset, as
    /// the recorder reports it; zero where there is none.
    pub peak: u64,
}

/// What a [`Histogram`] stands for: the samples it counts, and its layout.
pub struct HistogramView {
    pub samples: Multiset<u64>,
    pub layout: Layout,
}

impl View for Histogram {
    type V = HistogramView;

    open spec fn view(&self) -> HistogramView {
        HistogramView { samples: recorded(*self), layout: layout(*self) }
    }
}

/// The layout of a recorder.
pub uninterp spec fn layout(h: Histogram) -> Layout;

/// The bytes that encoding gives for a recorder with these samples and this
/// layout.
pub uninterp spec fn v2_encoded(samples: Multiset<u64>, layout: Layout) -> Seq<u8>;

/// The samples that a recorder counts. A sample is counted under the lowest
/// value that the recorder cannot tell from it, so a sample recorded as `v`
/// occurs here as some `w <= v`.
pub uninterp spec fn recorded(h: Histogram) -> Multiset<u64>;

/// The highest value that a recorder takes in as it is: `None` where the
/// recorder grows to take in whatever value comes, else `Some(top)`, where it
/// takes in the values up to `top` and no other.
pub uninterp spec fn ceiling(h: Histogram) -> Option<u64>;

/// Why a buffer could not be encoded or decoded.
#[derive(Debug, Clone, Copy, PartialEq, Eq, Structural)]
pub enum CodecError {
    /// A count is too large for the format.
    CountNotSerializable,
    /// A size does not fit the machine's word.
    UsizeTypeTooSmall,
    /// The buffer ended early, or could not be read or written.
    Io,
    /// The first four bytes name no known format.
    InvalidCookie,
    /// The buffer uses a feature of the format that is not supported.
    UnsupportedFeature,
    /// A count does not fit a 64-bit counter.
    UnsuitableCounterType,
    /// The lowest value, highest value or precision in the buffer is invalid.
    InvalidParameters,
    /// The buffer holds more counts than its value range has room for.
    EncodedArrayTooLong,
    /// The buffer is in the compressed form of the format, which is not taken.
    Compressed,
    /// A number in the payload is the lowest 64-bit integer, which stands for
    /// no count and for no run of zeros.
    NumberOutOfRange,
}

/// What decoding a buffer gives: the samples and the layout of the decoded
/// recorder, or the reason for which the buffer is refused.
pub uninterp spec fn v2_decoded(bytes: Seq<u8>) -> Result<HistogramView, CodecError>;

/// Why a sample or another recorder could not be taken in.
#[derive(Debug, Clone, Copy, PartialEq, Eq, Structural)]
pub enum RecordError {
    /// The value lies outside the range of a recorder that does not grow.
    ValueOutOfRange,
    /// The recorder would have to grow beyond what the machine can index.
    ResizeFailed,
}

/// A number of samples as a 64-bit counter reports it.
pub open spec fn saturated(n: nat) -> nat {
    if n <= u64::MAX { n } else { u64::MAX as nat }
}

/// The samples `m` after one more is counted under `w`: a count that has
/// reached `u64::MAX` stays there.
pub open spec fn counted(m: Multiset<u64>, w: u64) -> Multiset<u64> {
    if m.count(w) < u64::MAX { m.insert(w) } else { m }
}

/// Whether a recorder with the given ceiling takes in `value`.
pub open spec fn within(ceiling: Option<u64>, value: u64) -> bool {
    match ceiling {
        None => true,
        Some(top) => value <= top,
    }
}

/// The same recorder apart from how far it has been filled.
pub open spec fn same_shape(a: Layout, b: Layout) -> bool {
    a.lowest == b.lowest && a.highest == b.highest && a.digits == b.digits
}

/// Whether two recorders tell the same values apart.
pub open spec fn same_resolution(a: Layout, b: Layout) -> bool {
    a.lowest == b.lowest && a.digits == b.digits
}

/// The view of a recorder that was just made with the given precision.
pub open spec fn fresh(digits: u8) -> HistogramView {
    HistogramView {
        samples: Multiset::<u64>::empty(),
        layout: Layout { lowest: 1, highest: 2, digits, peak: 0 },
    }
}

/// Whether `after` holds, for each value, the samples of `before` and of
/// `other` together, up to the most that a counter holds.
pub open spec fn sums(before: Multiset<u64>, other: Multiset<u64>, after: Multiset<u64>) -> bool {
    forall|v: u64| after.count(v) == saturated(#[trigger] before.count(v) + other.count(v))
}

/// Whether `bytes` are the encoding of a histogram with the view `view`:
/// they are the bytes that the format gives for its samples and layout, they
/// pass the screening, and they decode to the same samples in a recorder of
/// the same shape.
pub open spec fn encodes(bytes: Seq<u8>, view: HistogramView) -> bool {
    &&& bytes == v2_encoded(view.samples, view.layout)
    &&& screening(bytes) is None
    &&& v2_decoded(bytes) is Ok
    &&& v2_decoded(bytes)->Ok_0.samples == view.samples
    &&& same_shape(v2_decoded(bytes)->Ok_0.layout, view.layout)
}

/// Whether `r` is what decoding `bytes` gives: a buffer that the screening
/// refuses is refused with that reason; any other gives the histogram it
/// encodes, which has a ceiling, or the reason for which it is refused.
pub open spec fn decodes(bytes: Seq<u8>, r: Result<Histogram, CodecError>) -> bool {
    match screening(bytes) {
        Some(reason) => r == Err::<Histogram, CodecError>(reason),
        None => match r {
            Ok(h) => v2_decoded(bytes) is Ok && v2_decoded(bytes)->Ok_0 == h@ && ceiling(h) is Some,
            Err(e) => v2_decoded(bytes) is Err && v2_decoded(bytes)->Err_0 == e,
        },
    }
}

/// Whether the buffer starts with the format's cookie, whose last byte
/// tells the plain form from the compressed one.
pub open spec fn has_cookie(bytes: Seq<u8>, form: u8) -> bool {
    bytes.len() >= 4 && bytes[0] == 0x1c && bytes[1] == 0x84 && bytes[2] == 0x93 && bytes[3] == form
}

/// The length of the payload, as the header of a plain buffer declares it.
pub open spec fn declared_len(bytes: Seq<u8>) -> int {
    bytes[4] * 0x100_0000 + bytes[5] * 0x1_0000 + bytes[6] * 0x100 + bytes[7]
}

/// Whether the buffer is in the plain form and holds all of the payload
/// that its header declares. The payload follows the header of 40 bytes.
pub open spec fn has_payload(bytes: Seq<u8>) -> bool {
    has_cookie(bytes, 0x13) && bytes.len() >= 40 && bytes.len() - 40 >= declared_len(bytes)
}

/// How many bytes in a row, from `at` on and before `end`, have their high
/// bit set, counting no more than `limit`.
pub open spec fn high_run(bytes: Seq<u8>, at: int, end: int, limit: nat) -> nat
    decreases limit,
{
    if limit == 0 || at >= end || bytes[at] < 0x80 {
        0
    } else {
        1 + high_run(bytes, at + 1, end, (limit - 1) as nat)
    }
}

/// The length of the number that starts at `at`: up to eight bytes with the
/// high bit set, and one byte more.
pub open spec fn number_len(bytes: Seq<u8>, at: int, end: int) -> nat {
    high_run(bytes, at, end, 8) + 1
}

/// Whether the nine bytes from `at` on are all `0xFF`: the number that
/// stands for the lowest 64-bit integer.
pub open spec fn is_lowest(bytes: Seq<u8>, at: int) -> bool {
    forall|k: int| 0 <= k < 9 ==> #[trigger] bytes[at + k] == 0xFF
}

/// Whether one of the numbers that lie one after the other between `at` and
/// `end` is the lowest 64-bit integer. A number that is cut short by `end`
/// ends the row.
pub open spec fn overflows(bytes: Seq<u8>, at: int, end: int) -> bool
    decreases end - at,
{
    if at < 0 || at >= end || end > bytes.len() {
        false
    } else if end - at >= 9 && is_lowest(bytes, at) {
        true
    } else if at + number_len(bytes, at, end) > end {
        false
    } else {
        overflows(bytes, at + number_len(bytes, at, end), end)
    }
}

/// Why a buffer is refused before it is decoded, if it is: the compressed
/// form is not taken, and neither is a plain buffer whose payload holds the
/// lowest 64-bit integer, wherever in the payload it stands.
pub open spec fn screening(bytes: Seq<u8>) -> Option<CodecError> {
    if has_cookie(bytes, 0x14) {
        Some(CodecError::Compressed)
    } else if has_payload(bytes) && overflows(bytes, 40, 40 + declared_len(bytes)) {
        Some(CodecError::NumberOutOfRange)
    } else {
        None
    }
}

/// Whether every count fits the format, which holds counts up to `i64::MAX`.
pub open spec fn serializable(m: Multiset<u64>) -> bool {
    forall|v: u64| m.count(v) <= i64::MAX
}

/// Whether `after` is `before` with one sample of `value` taken in: the
/// sample is counted under some value not above `value`.
pub open spec fn took_sample(before: Multiset<u64>, value: u64, after: Multiset<u64>) -> bool {
    exists|w: u64| w <= value && after == #[trigger] counted(before, w)
}

/// `hdrhistogram::Histogram::<u64>::new`: with a precision of at most 5 the
/// constructor succeeds, and the recorder it gives holds no sample, resizes
/// itself, tells 1 from zero and is set to track up to 2.
#[verifier::external_body]
fn new_recorder(digits: u8) -> (h: Histogram)
    requires
        digits <= 5,
    ensures
        h@ == fresh(digits),
        ceiling(h) is None,
{
    Histogram(hdrhistogram::Histogram::<u64>::new(digits).unwrap())
}

/// `Clone::clone` of `hdrhistogram::Histogram`: the copy holds the same
/// samples in the same layout and has the same ceiling.
#[verifier::external_body]
fn recorder_clone(h: &Histogram) -> (copy: Histogram)
    ensures
        copy@ == h@,
        ceiling(copy) == ceiling(*h),
{
    Histogram(h.0.clone())
}

/// `hdrhistogram::Histogram::len`: the number of samples counted, which stops
/// at `u64::MAX`.
#[verifier::external_body]
fn recorder_len(h: &Histogram) -> (n: u64)
    ensures
        n as nat == saturated(recorded(*h).len()),
{
    h.0.len()
}

/// `hdrhistogram::Histogram::record`: it fails exactly where the value lies
/// beyond what the recorder covers and the recorder does not resize itself,
/// and then the recorder is as before. On success one sample is added,
/// counted under a value not above the one given, unless that value's count
/// already stands at `u64::MAX`. The resolution and the ceiling stay, and so
/// does the highest value tracked by a recorder that does not resize itself.
#[verifier::external_body]
fn recorder_record(h: &mut Histogram, value: u64) -> (r: Result<(), RecordError>)
    ensures
        r is Ok <==> within(ceiling(*old(h)), value),
        r is Ok ==> took_sample(recorded(*old(h)), value, recorded(*final(h))),
        r is Err ==> final(h)@ == old(h)@ && r->Err_0 == RecordError::ValueOutOfRange,
        ceiling(*final(h)) == ceiling(*old(h)),
        same_resolution(layout(*final(h)), layout(*old(h))),
        ceiling(*old(h)) is Some ==> same_shape(layout(*final(h)), layout(*old(h))),
{
    match h.0.record(value) {
        Ok(()) => Ok(()),
        Err(hdrhistogram::RecordError::ValueOutOfRangeResizeDisabled) => Err(RecordError::ValueOutOfRange),
        Err(hdrhistogram::RecordError::ResizeFailedUsizeTypeTooSmall) => Err(RecordError::ResizeFailed),
    }
}

/// `hdrhistogram::Histogram::add`: it succeeds where the other recorder is
/// empty or this one resizes itself, and fails only over a value of the
/// other that lies beyond what this one covers; on failure the recorder is
/// as before. On success it keeps every sample it had; where the two have
/// the same resolution, each value's count is the sum of both counts, up to
/// `u64::MAX`; and where the two together hold fewer than `u64::MAX`
/// samples, it holds exactly as many as both did. The resolution and the
/// ceiling stay, and so does the highest value tracked by a recorder that
/// does not resize itself.
#[verifier::external_body]
fn recorder_add(h: &mut Histogram, other: &Histogram) -> (r: Result<(), RecordError>)
    ensures
        ceiling(*old(h)) is None || recorded(*other).len() == 0 ==> r is Ok,
        r is Err ==> final(h)@ == old(h)@ && r->Err_0 == RecordError::ValueOutOfRange,
        ceiling(*final(h)) == ceiling(*old(h)),
        same_resolution(layout(*final(h)), layout(*old(h))),
        ceiling(*old(h)) is Some ==> same_shape(layout(*final(h)), layout(*old(h))),
        r is Ok ==> recorded(*old(h)).subset_of(recorded(*final(h))),
        r is Ok && same_resolution(layout(*old(h)), layout(*other)) ==> sums(
            recorded(*old(h)),
            recorded(*other),
            recorded(*final(h)),
        ),
        r is Ok && recorded(*old(h)).len() + recorded(*other).len() < u64::MAX ==> recorded(*final(h)).len()
            == recorded(*old(h)).len() + recorded(*other).len(),
{
    match h.0.add(&other.0) {
        Ok(()) => Ok(()),
        Err(hdrhistogram::AdditionError::OtherAddendValueExceedsRange) => Err(RecordError::ValueOutOfRange),
        Err(hdrhistogram::AdditionError::ResizeFailedUsizeTypeTooSmall) => Err(RecordError::ResizeFailed),
    }
}

/// `hdrhistogram::serialization::V2Serializer::serialize` into a fresh
/// buffer: it succeeds where no count is above `i64::MAX` and fails only
/// over a count or a size. The bytes written are those that [`v2_encoded`]
/// names for the recorder's samples and layout. They are in the plain form,
/// hold no number below `-i64::MAX`, and decode to the same samples in a
/// recorder of the same shape.
#[verifier::external_body]
fn recorder_encode(h: &Histogram) -> (r: Result<Vec<u8>, CodecError>)
    ensures
        serializable(recorded(*h)) ==> r is Ok,
        r is Ok ==> r->Ok_0@ == v2_encoded(recorded(*h), layout(*h)) && encodes(r->Ok_0@, h@),
        r is Err ==> r->Err_0 == CodecError::CountNotSerializable || r->Err_0 == CodecError::UsizeTypeTooSmall,
{
    let mut buf = Vec::new();
    match hdrhistogram::serialization::V2Serializer::new().serialize(&h.0, &mut buf) {
        Ok(_) => Ok(buf),
        Err(hdrhistogram::serialization::V2SerializeError::CountNotSerializable) => Err(CodecError::CountNotSerializable),
        Err(hdrhistogram::serialization::V2SerializeError::UsizeTypeTooSmall) => Err(CodecError::UsizeTypeTooSmall),
        Err(hdrhistogram::serialization::V2SerializeError::IoError(_)) => Err(CodecError::Io),
    }
}

/// `hdrhistogram::serialization::Deserializer::deserialize` from a slice
/// that passes the screening: the outcome is the one that [`v2_decoded`]
/// names for these bytes, and a recorder that comes out of it does not
/// resize itself. The screening keeps away the compressed form and the one
/// number whose negation the decoder cannot take.
#[verifier::external_body]
fn recorder_decode(bytes: &[u8]) -> (r: Result<Histogram, CodecError>)
    requires
        screening(bytes@) is None,
    ensures
        r is Ok ==> v2_decoded(bytes@) is Ok && v2_decoded(bytes@)->Ok_0 == r->Ok_0@,
        r is Ok ==> ceiling(r->Ok_0) is Some,
        r is Err ==> v2_decoded(bytes@) is Err && v2_decoded(bytes@)->Err_0 == r->Err_0,
{
    let mut reader = bytes;
    match hdrhistogram::serialization::Deserializer::new().deserialize(&mut reader) {
        Ok(h) => Ok(Histogram(h)),
        Err(hdrhistogram::serialization::DeserializeError::IoError(_)) => Err(CodecError::Io),
        Err(hdrhistogram::serialization::DeserializeError::InvalidCookie) => Err(CodecError::InvalidCookie),
        Err(hdrhistogram::serialization::DeserializeError::UnsupportedFeature) => Err(CodecError::UnsupportedFeature),
        Err(hdrhistogram::serialization::DeserializeError::UnsuitableCounterType) => Err(CodecError::UnsuitableCounterType),
        Err(hdrhistogram::serialization::DeserializeError::InvalidParameters) => Err(CodecError::InvalidParameters),
        Err(hdrhistogram::serialization::DeserializeError::UsizeTypeTooSmall) => Err(CodecError::UsizeTypeTooSmall),
        Err(hdrhistogram::serialization::DeserializeError::EncodedArrayTooLong) => Err(CodecError::EncodedArrayTooLong),
    }
}

/// Where the number that starts at `at` ends, or `None` where `end` cuts it
/// short.
fn number_end(bytes: &[u8], at: usize, end: usize) -> (next: Option<usize>)
    requires
        at < end <= bytes@.len(),
    ensures
        match next {
            Some(n) => n == at + number_len(bytes@, at as int, end as int) && at < n <= end,
            None => at + number_len(bytes@, at as int, end as int) > end,
        },
{
    let mut k: usize = 0;
    while k < 8 && k < end - at && bytes[at + k] >= 0x80
        invariant
            at < end <= bytes@.len(),
            k <= 8,
            k <= end - at,
            high_run(bytes@, at as int, end as int, 8) == k + high_run(
                bytes@,
                at + k,
                end as int,
                (8 - k) as nat,
            ),
        decreases 8 - k,
    {
        k += 1;
    }
    if k < end - at {
        Some(at + k + 1)
    } else {
        None
    }
}

/// Whether the nine bytes from `at` on are all `0xFF`.
fn lowest_at(bytes: &[u8], at: usize) -> (found: bool)
    requires
        at + 9 <= bytes.len(),
    ensures
        found == is_lowest(bytes@, at as int),
{
    let mut k: usize = 0;
    while k < 9
        invariant
            at + 9 <= bytes.len(),
            k <= 9,
            forall|j: int| 0 <= j < k ==> #[trigger] bytes@[at + j] == 0xFF,
        decreases 9 - k,
    {
        if bytes[at + k] != 0xFF {
            return false;
        }
        k += 1;
    }
    true
}

/// Whether a number between `start` and `end` is the lowest 64-bit integer.
fn holds_lowest(bytes: &[u8], start: usize, end: usize) -> (found: bool)
    requires
        start <= end <= bytes@.len(),
    ensures
        found == overflows(bytes@, start as int, end as int),
{
    let mut at: usize = start;
    while at < end
        invariant
            start <= at <= end <= bytes@.len(),
            overflows(bytes@, start as int, end as int) == overflows(bytes@, at as int, end as int),
        decreases end - at,
    {
        if end - at >= 9 && lowest_at(bytes, at) {
            return true;
        }
        match number_end(bytes, at, end) {
            None => {
                return false;
            },
            Some(next) => {
                at = next;
            },
        }
    }
    false
}

/// The reason for which a buffer is refused before it is decoded, if it is.
pub fn screen(bytes: &[u8]) -> (reason: Option<CodecError>)
    ensures
        reason == screening(bytes@),
{
    if bytes.len() < 4 || bytes[0] != 0x1c || bytes[1] != 0x84 || bytes[2] != 0x93 {
        return None;
    }
    if bytes[3] == 0x14 {
        return Some(CodecError::Compressed);
    }
    if bytes[3] != 0x13 || bytes.len() < 40 {
        return None;
    }
    let declared: u64 = (bytes[4] as u64) * 0x100_0000 + (bytes[5] as u64) * 0x1_0000 + (bytes[6] as u64) * 0x100 + (
    bytes[7] as u64);
    let room: usize = bytes.len() - 40;
    if (room as u64) < declared {
        return None;
    }
    let end: usize = 40 + declared as usize;
    if holds_lowest(bytes, 40, end) {
        Some(CodecError::NumberOutOfRange)
    } else {
        None
    }
}

impl Histogram {
    /// An empty histogram, kept to three significant digits, which takes in
    /// every value.
    pub fn new() -> (h: Histogram)
        ensures
            h@ == fresh(3),
            ceiling(h) is None,
    {
        new_recorder(3)
    }

    /// The number of samples recorded, at most `u64::MAX`.
    pub fn len(&self) -> (n: u64)
        ensures
            n as nat == saturated(self@.samples.len()),
    {
        recorder_len(self)
    }

    /// Adds one sample. A value above the histogram's ceiling is refused and
    /// leaves it unchanged; every other value is taken in.
    pub fn record(&mut self, value: u64) -> (r: Result<(), RecordError>)
        ensures
            r is Ok <==> within(ceiling(*old(self)), value),
            r is Ok ==> took_sample(old(self)@.samples, value, final(self)@.samples),
            r is Err ==> final(self)@ == old(self)@ && r->Err_0 == RecordError::ValueOutOfRange,
            ceiling(*final(self)) == ceiling(*old(self)),
            same_resolution(final(self)@.layout, old(self)@.layout),
            ceiling(*old(self)) is Some ==> same_shape(final(self)@.layout, old(self)@.layout),
    {
        recorder_record(self, value)
    }

    /// Adds the samples of `other`. A histogram without a ceiling takes in
    /// any other, and an empty one is taken in by any. Where both tell the
    /// same values apart, each value's count becomes the sum of both. On
    /// failure `self` is unchanged.
    pub fn merge(&mut self, other: &Histogram) -> (r: Result<(), RecordError>)
        ensures
            ceiling(*old(self)) is None || other@.samples.len() == 0 ==> r is Ok,
            r is Err ==> final(self)@ == old(self)@ && r->Err_0 == RecordError::ValueOutOfRange,
            ceiling(*final(self)) == ceiling(*old(self)),
            same_resolution(final(self)@.layout, old(self)@.layout),
            ceiling(*old(self)) is Some ==> same_shape(final(self)@.layout, old(self)@.layout),
            r is Ok ==> old(self)@.samples.subset_of(final(self)@.samples),
            r is Ok && same_resolution(old(self)@.layout, other@.layout) ==> sums(
                old(self)@.samples,
                other@.samples,
                final(self)@.samples,
            ),
            r is Ok && old(self)@.samples.len() + other@.samples.len() < u64::MAX ==> final(self)@.samples.len()
                == old(self)@.samples.len() + other@.samples.len(),
    {
        recorder_add(self, other)
    }

    /// The histogram in the recorder's compact binary format, plain form.
    /// The bytes depend on the samples and the layout alone, and decoding
    /// them gives the same samples back in a recorder of the same shape.
    pub fn encode(&self) -> (r: Result<Vec<u8>, CodecError>)
        ensures
            serializable(self@.samples) ==> r is Ok,
            r is Err ==> r->Err_0 == CodecError::CountNotSerializable || r->Err_0 == CodecError::UsizeTypeTooSmall,
            r is Ok ==> encodes(r->Ok_0@, self@),
    {
        recorder_encode(self)
    }

    /// The histogram that `bytes` encode; malformed or truncated input is
    /// refused with the reason, and so is the compressed form.
    pub fn decode(bytes: &[u8]) -> (r: Result<Histogram, CodecError>)
        ensures
            decodes(bytes@, r),
    {
        match screen(bytes) {
            Some(reason) => Err(reason),
            None => recorder_decode(bytes),
        }
    }
}

impl Clone for Histogram {
    fn clone(&self) -> (copy: Histogram)
        ensures
            copy@ == self@,
            ceiling(copy) == ceiling(*self),
    {
        recorder_clone(self)
    }
}

impl Default for Histogram {
    fn default() -> (h: Histogram)
        ensures
            h@ == fresh(3),
            ceiling(h) is None,
    {
        Histogram::new()
    }
}

/// Decoding is the inverse of encoding: what is decoded from an encoding of
/// `histogram` is a histogram, never a refusal, and it holds the samples of
/// `histogram` in a recorder of the same shape, so it reports the same
/// number of them.
pub proof fn law_round_trip(histogram: Histogram, bytes: Seq<u8>, r: Result<Histogram, CodecError>)
    requires
        encodes(bytes, histogram@),
        decodes(bytes, r),
    ensures
        r is Ok,
        r->Ok_0@.samples == histogram@.samples,
        same_shape(r->Ok_0@.layout, histogram@.layout),
        saturated(r->Ok_0@.samples.len()) == saturated(histogram@.samples.len()),
{
}

/// The encoding depends on the samples and the layout alone: histograms
/// with the same view have the same bytes, however often they are encoded.
pub proof fn law_encoding_is_a_function(a: Histogram, b: Histogram, bytes_a: Seq<u8>, bytes_b: Seq<u8>)
    requires
        a@ == b@,
        encodes(bytes_a, a@),
        encodes(bytes_b, b@),
    ensures
        bytes_a == bytes_b,
{
}

/// A histogram made by `default` is one made by `new`: both are empty and
/// laid out alike.
pub proof fn law_default_is_new(made: Histogram, defaulted: Histogram)
    requires
        made@ == fresh(3),
        defaulted@ == fresh(3),
    ensures
        made@ == defaulted@,
        made@.layout.digits == 3,
        made@.samples.len() == 0,
{
}

} // verus!
