//! Reading a radio stream: the buffer between the network and the decoder, and the choices on
//! the way to its samples.

use crate::text::{self, chars_of, join};
use vstd::prelude::*;
use vstd::utf8;

verus! {

// ---------------------------------------------------------------------------
// The buffer
// ---------------------------------------------------------------------------

/// Where to go on reading.
#[derive(Debug, Clone, Copy, PartialEq, Eq, Structural)]
pub enum SeekFrom {
    Start(u64),
    End(i64),
    Current(i64),
}

/// Why a position cannot be had.
#[derive(Debug, Clone, Copy, PartialEq, Eq, Structural)]
pub enum SeekError {
    /// A stream has no known end.
    FromEnd,
    /// The position lies before the start, or is too large to count.
    Negative,
}

impl SeekError {
    /// The error in words.
    pub fn message(self) -> (r: &'static str)
        ensures
            r@ == match self {
                SeekError::FromEnd => "Seek from end unsupported for stream"@,
                SeekError::Negative => "negative seek"@,
            },
    {
        match self {
            SeekError::FromEnd => "Seek from end unsupported for stream",
            SeekError::Negative => "negative seek",
        }
    }
}

/// All bytes of a stream that have come in, and the position of the reader.
#[derive(Debug, PartialEq, Eq)]
pub struct HttpBuffer {
    pub buf: Vec<u8>,
    pub pos: u64,
    /// No more bytes will come.
    pub eof: bool,
}

/// What a buffer holds.
#[verifier::ext_equal]
pub struct BufferSpec {
    pub bytes: Seq<u8>,
    pub pos: u64,
    pub eof: bool,
}

impl View for HttpBuffer {
    type V = BufferSpec;

    open spec fn view(&self) -> BufferSpec {
        BufferSpec { bytes: self.buf@, pos: self.pos, eof: self.eof }
    }
}

impl BufferSpec {
    /// Positions can be counted with a sign, and the reader is at one that an index can hold.
    pub open spec fn wf(self) -> bool {
        &&& self.bytes.len() <= i64::MAX
        &&& self.pos <= i64::MAX
        &&& self.pos <= usize::MAX
    }

    /// How many bytes a read of `n` gives.
    pub open spec fn available(self, n: int) -> int {
        let rest = self.bytes.len() - self.pos;
        if rest <= 0 {
            0
        } else if rest < n {
            rest
        } else {
            n
        }
    }

    /// The bytes that a read of `n` gives.
    pub open spec fn next(self, n: int) -> Seq<u8> {
        if self.available(n) == 0 {
            Seq::empty()
        } else {
            self.bytes.subrange(self.pos as int, self.pos + self.available(n))
        }
    }

    /// The buffer after a read of `n`.
    pub open spec fn read(self, n: int) -> BufferSpec {
        BufferSpec { pos: (self.pos + self.available(n)) as u64, ..self }
    }

    /// Bytes come in; none means that the stream has ended.
    pub open spec fn fed(self, chunk: Seq<u8>) -> BufferSpec {
        if chunk.len() == 0 {
            BufferSpec { eof: true, ..self }
        } else {
            BufferSpec { bytes: self.bytes + chunk, ..self }
        }
    }

    /// The position that a seek asks for, where it is one.
    pub open spec fn target(self, to: SeekFrom) -> Result<int, SeekError> {
        match to {
            SeekFrom::Start(n) => if n <= i64::MAX {
                Ok(n as int)
            } else {
                Err(SeekError::Negative)
            },
            SeekFrom::Current(n) => if self.pos + n >= 0 {
                Ok(self.pos + n)
            } else {
                Err(SeekError::Negative)
            },
            SeekFrom::End(_) => Err(SeekError::FromEnd),
        }
    }
}

impl HttpBuffer {
    pub open spec fn wf(self) -> bool {
        self@.wf()
    }

    /// An empty buffer at the start of a stream.
    pub fn new() -> (r: Self)
        ensures
            r.wf(),
            r@ == (BufferSpec { bytes: Seq::empty(), pos: 0, eof: false }),
    {
        let r = HttpBuffer { buf: Vec::new(), pos: 0, eof: false };
        assert(r@ =~= BufferSpec { bytes: Seq::empty(), pos: 0, eof: false });
        r
    }

    /// More bytes have to come in before there are `target` of them.
    pub fn wants(&self, target: usize) -> (r: bool)
        ensures
            r == (self@.bytes.len() < target && !self@.eof),
    {
        self.buf.len() < target && !self.eof
    }

    /// Bytes have come in; none means that the stream has ended.
    pub fn feed(&mut self, chunk: &Vec<u8>)
        requires
            old(self).wf(),
            old(self)@.bytes.len() + chunk@.len() <= i64::MAX,
        ensures
            final(self).wf(),
            final(self)@ == old(self)@.fed(chunk@),
    {
        if chunk.len() == 0 {
            self.eof = true;
        } else {
            self.buf.extend_from_slice(chunk.as_slice());
            assert(self@.bytes =~= old(self)@.bytes + chunk@);
        }
    }

    /// How many bytes should have come in before a read of `n`.
    pub fn read_target(&self, n: usize) -> (r: usize)
        requires
            self.wf(),
        ensures
            r == if self@.pos + n <= usize::MAX {
                self@.pos + n
            } else {
                usize::MAX as int
            },
    {
        (self.pos as usize).saturating_add(n)
    }

    /// The next bytes, `n` of them or as many as have come in. The position moves past them.
    pub fn read(&mut self, n: usize) -> (r: Vec<u8>)
        requires
            old(self).wf(),
        ensures
            final(self).wf(),
            r@ == old(self)@.next(n as int),
            final(self)@ == old(self)@.read(n as int),
    {
        let start: usize = self.pos as usize;
        let total: usize = self.buf.len();
        let rest: usize = total.saturating_sub(start);
        let available: usize = if rest < n {
            rest
        } else {
            n
        };
        let mut out: Vec<u8> = Vec::new();
        let mut i: usize = 0;
        while i < available
            invariant
                i <= available,
                available <= total - start || available == 0,
                total == self.buf@.len(),
                self.buf@ == old(self).buf@,
                self.pos == old(self).pos,
                self.eof == old(self).eof,
                out@.len() == i,
                forall|j: int| 0 <= j < i ==> out@[j] == self.buf@[start + j],
            decreases available - i,
        {
            out.push(self.buf[start + i]);
            i = i + 1;
        }
        assert(out@ =~= old(self)@.next(n as int));
        self.pos = self.pos + available as u64;
        out
    }

    /// The position that a seek asks for. The host lets bytes come in up to there, as far as the
    /// stream goes, and then calls `seek_to`.
    pub fn seek_target(&self, to: SeekFrom) -> (r: Result<u64, SeekError>)
        requires
            self.wf(),
            to matches SeekFrom::Current(n) ==> self@.pos + n <= i64::MAX,
        ensures
            match r {
                Ok(n) => self@.target(to) == Ok::<int, SeekError>(n as int),
                Err(e) => self@.target(to) == Err::<int, SeekError>(e),
            },
            r matches Ok(n) ==> n <= i64::MAX,
    {
        match to {
            SeekFrom::Start(n) => {
                if n <= i64::MAX as u64 {
                    Ok(n)
                } else {
                    Err(SeekError::Negative)
                }
            },
            SeekFrom::Current(n) => {
                let new_pos: i64 = self.pos as i64 + n;
                if new_pos < 0 {
                    Err(SeekError::Negative)
                } else {
                    Ok(new_pos as u64)
                }
            },
            SeekFrom::End(_) => Err(SeekError::FromEnd),
        }
    }

    /// The next read starts at `target`.
    pub fn seek_to(&mut self, target: u64)
        requires
            old(self).wf(),
            target <= i64::MAX,
            target <= usize::MAX,
        ensures
            final(self).wf(),
            final(self)@ == (BufferSpec { pos: target, ..old(self)@ }),
    {
        self.pos = target;
    }
}

/// Two reads in a row give what one read of both lengths gives, and leave the reader at the same
/// place.
pub proof fn law_reads_follow_each_other(s: BufferSpec, n: nat, m: nat)
    requires
        s.wf(),
    ensures
        s.next(n as int) + s.read(n as int).next(m as int) =~= s.next((n + m) as int),
        s.read(n as int).read(m as int) == s.read((n + m) as int),
{
}

/// Bytes that come in do not change those that could be read before.
pub proof fn law_feeding_keeps_what_was_there(s: BufferSpec, chunk: Seq<u8>, n: nat)
    requires
        s.wf(),
        n <= s.available(n as int),
    ensures
        s.fed(chunk).next(n as int) == s.next(n as int),
{
    assert(s.fed(chunk).next(n as int) =~= s.next(n as int));
}

/// What has come in is the start of the whole stream, and all of it once the stream has ended.
pub open spec fn came_from(s: BufferSpec, whole: Seq<u8>) -> bool {
    &&& s.bytes.len() <= whole.len()
    &&& s.bytes == whole.take(s.bytes.len() as int)
    &&& s.eof ==> s.bytes == whole
}

/// Bytes come in as they stand in the stream.
pub proof fn law_buffer_follows_the_stream(s: BufferSpec, whole: Seq<u8>, n: int)
    requires
        came_from(s, whole),
        !s.eof,
        0 <= n <= whole.len() - s.bytes.len(),
        n == 0 ==> s.bytes.len() == whole.len(),
    ensures
        came_from(s.fed(whole.subrange(s.bytes.len() as int, s.bytes.len() + n)), whole),
{
    let chunk = whole.subrange(s.bytes.len() as int, s.bytes.len() + n);
    assert(s.bytes + chunk =~= whole.take(s.bytes.len() + n));
    if n == 0 {
        assert(s.bytes =~= whole);
    }
}

/// A seek from the end fails, and so does one before the start. Any other goes where it says, also
/// past the end. Once the bytes have come in as far as the stream goes, a read
/// of `n` gives those at that place: all of them, fewer where the stream ends, none past its end.
/// Going back there gives the same bytes again.
pub proof fn law_seek_reads_from_there(s: BufferSpec, whole: Seq<u8>, to: SeekFrom, n: nat)
    requires
        s.wf(),
        came_from(s, whole),
        s.target(to) matches Ok(place) ==> {
            &&& place <= i64::MAX && place <= usize::MAX
            &&& s.bytes.len() >= place + n || s.eof
        },
    ensures
        to is End ==> s.target(to) == Err::<int, SeekError>(SeekError::FromEnd),
        to matches SeekFrom::Start(p) ==> s.target(to) == if p <= i64::MAX {
            Ok(p as int)
        } else {
            Err(SeekError::Negative)
        },
        to matches SeekFrom::Current(d) ==> s.target(to) == if s.pos + d >= 0 {
            Ok(s.pos + d)
        } else {
            Err(SeekError::Negative)
        },
        s.target(to) matches Ok(place) ==> {
            let t = BufferSpec { pos: place as u64, ..s };
            let k = if whole.len() <= place {
                0
            } else if whole.len() - place < n {
                whole.len() - place
            } else {
                n as int
            };
            &&& t.wf()
            &&& t.next(n as int).len() == k
            &&& forall|i: int| 0 <= i < k ==> #[trigger] t.next(n as int)[i] == whole[place + i]
            &&& t.read(n as int).pos == place + k
            &&& BufferSpec { pos: place as u64, ..t.read(n as int) }.next(n as int) == t.next(
                n as int,
            )
        },
{
}

// ---------------------------------------------------------------------------
// Opening a stream
// ---------------------------------------------------------------------------

/// A text up to the first `c`, or all of it.
pub open spec fn before_first(s: Seq<char>, c: char) -> Seq<char> {
    match s.index_of_first(c) {
        Some(i) => s.take(i),
        None => s,
    }
}

/// A text from behind the last `c`, or all of it.
pub open spec fn after_last(s: Seq<char>, c: char) -> Seq<char> {
    match s.index_of_last(c) {
        Some(i) => s.skip(i + 1),
        None => s,
    }
}

/// What stands behind the last dot of an address, its query left off.
pub open spec fn extension(url: Seq<char>) -> Seq<char> {
    after_last(before_first(url, '?'), '.')
}

/// The extension of an address hints at the format if it is there and at most six bytes long.
pub open spec fn extension_hint(url: Seq<char>) -> Option<Seq<char>> {
    let ext = extension(url);
    if ext.len() > 0 && utf8::encode_utf8(ext).len() <= 6 {
        Some(ext)
    } else {
        None
    }
}

fn index_of(v: &Vec<char>, c: char) -> (r: usize)
    ensures
        r <= v@.len(),
        before_first(v@, c) == v@.take(r as int),
{
    proof {
        v@.index_of_first_ensures(c);
    }
    let mut i: usize = 0;
    while i < v.len()
        invariant
            i <= v.len(),
            forall|j: int| 0 <= j < i ==> v@[j] != c,
            match v@.index_of_first(c) {
                Some(k) => 0 <= k < v@.len() && v@[k] == c && forall|j: int|
                    0 <= j < k ==> v@[j] != c,
                None => forall|j: int| 0 <= j < v@.len() ==> v@[j] != c,
            },
        decreases v.len() - i,
    {
        if v[i] == c {
            return i;
        }
        i = i + 1;
    }
    assert(v@.take(i as int) =~= v@);
    i
}

/// The hint that an address gives at the format of its stream, if any.
pub fn stream_extension_hint(url: &str) -> (r: Option<String>)
    ensures
        text::text_view(r) == extension_hint(url@),
{
    let v: Vec<char> = chars_of(url);
    let end: usize = index_of(&v, '?');
    let ghost path = v@.take(end as int);
    proof {
        path.index_of_last_ensures('.');
    }
    let mut start: usize = end;
    while start > 0 && v[start - 1] != '.'
        invariant
            start <= end <= v@.len(),
            path == v@.take(end as int),
            forall|j: int| start <= j < end ==> path[j] != '.',
        decreases start,
    {
        start = start - 1;
    }
    let mut ext = String::new();
    let mut i: usize = start;
    while i < end
        invariant
            start <= i <= end <= v@.len(),
            path == v@.take(end as int),
            ext@ == path.subrange(start as int, i as int),
        decreases end - i,
    {
        ext.push(v[i]);
        i = i + 1;
        assert(ext@ =~= path.subrange(start as int, i as int));
    }
    proof {
        if start == 0 {
            assert(ext@ =~= path);
            if let Some(k) = path.index_of_last('.') {
                assert(path[k] != '.');
            }
        } else {
            let k = start - 1;
            assert(path[k] == '.');
            assert(ext@ =~= path.skip(start as int));
            assert(path.index_of_last('.') == Some(k));
        }
    }
    assert(ext@ == extension(url@));
    if ext.as_str().is_empty() || ext.as_str().as_bytes().len() > 6 {
        None
    } else {
        Some(ext)
    }
}

/// The error of a stream whose server refused it, if it did.
pub fn stream_status_error(success: bool, status: &str) -> (r: Option<String>)
    ensures
        text::text_view(r) == if success {
            None
        } else {
            Some("stream HTTP "@ + status@)
        },
{
    if success {
        None
    } else {
        Some(join("stream HTTP ", status))
    }
}

/// What is known of a track.
#[derive(Debug, Clone, Copy, PartialEq, Eq, Structural)]
pub struct TrackInfo {
    pub id: u32,
    pub has_codec: bool,
    pub sample_rate: Option<u32>,
    pub channels: Option<u16>,
}

/// The track to play.
#[derive(Debug, Clone, Copy, PartialEq, Eq, Structural)]
pub struct ChosenTrack {
    /// Its place in the list of tracks.
    pub index: usize,
    pub id: u32,
    pub sample_rate: u32,
    pub channels: u16,
}

/// Why no track can be played.
#[derive(Debug, Clone, Copy, PartialEq, Eq, Structural)]
pub enum TrackError {
    NoAudioTrack,
    UnknownSampleRate,
}

impl TrackError {
    /// The error in words.
    pub fn message(self) -> (r: &'static str)
        ensures
            r@ == match self {
                TrackError::NoAudioTrack => "no audio track"@,
                TrackError::UnknownSampleRate => "unknown sample rate"@,
            },
    {
        match self {
            TrackError::NoAudioTrack => "no audio track",
            TrackError::UnknownSampleRate => "unknown sample rate",
        }
    }
}

/// The track at `i` is the first with a codec.
pub open spec fn first_with_codec(tracks: Seq<TrackInfo>, i: int) -> bool {
    &&& 0 <= i < tracks.len()
    &&& tracks[i].has_codec
    &&& forall|j: int| 0 <= j < i ==> !(#[trigger] tracks[j]).has_codec
}

/// The track to play: the first with a codec. Its sample rate must be known; where its channels
/// are not, there are two.
pub fn choose_track(tracks: &Vec<TrackInfo>) -> (r: Result<ChosenTrack, TrackError>)
    ensures
        match r {
            Ok(c) => {
                &&& first_with_codec(tracks@, c.index as int)
                &&& c.id == tracks@[c.index as int].id
                &&& Some(c.sample_rate) == tracks@[c.index as int].sample_rate
                &&& c.channels == match tracks@[c.index as int].channels {
                    Some(n) => n,
                    None => 2,
                }
            },
            Err(TrackError::NoAudioTrack) => forall|j: int|
                0 <= j < tracks@.len() ==> !(#[trigger] tracks@[j]).has_codec,
            Err(TrackError::UnknownSampleRate) => exists|i: int|
                first_with_codec(tracks@, i) && (#[trigger] tracks@[i]).sample_rate is None,
        },
{
    let mut i: usize = 0;
    while i < tracks.len()
        invariant
            i <= tracks.len(),
            forall|j: int| 0 <= j < i ==> !(#[trigger] tracks@[j]).has_codec,
        decreases tracks.len() - i,
    {
        let t: TrackInfo = tracks[i];
        if t.has_codec {
            assert(first_with_codec(tracks@, i as int));
            return match t.sample_rate {
                Some(sample_rate) => Ok(
                    ChosenTrack {
                        index: i,
                        id: t.id,
                        sample_rate,
                        channels: match t.channels {
                            Some(n) => n,
                            None => 2,
                        },
                    },
                ),
                None => {
                    assert(tracks@[i as int].sample_rate is None);
                    Err(TrackError::UnknownSampleRate)
                },
            };
        }
        i = i + 1;
    }
    Err(TrackError::NoAudioTrack)
}

// ---------------------------------------------------------------------------
// From packets to samples
// ---------------------------------------------------------------------------

/// What came of asking for the next packet.
#[derive(Debug, PartialEq, Eq)]
pub enum PacketOutcome {
    Packet { track_id: u32 },
    /// The stream broke off.
    UnexpectedEof,
    Failed(String),
}

/// What came of decoding a packet.
#[derive(Debug, PartialEq, Eq)]
pub enum DecodeOutcome {
    Samples,
    /// The packet is damaged.
    BadData,
    Failed(String),
}

/// What to do next for samples.
#[derive(Debug, PartialEq, Eq)]
pub enum SampleStep {
    /// Ask for the next packet.
    NextPacket,
    /// Decode the packet.
    Decode,
    /// Hand the samples on.
    Deliver,
    /// The stream is over.
    End,
    Fail(String),
}

/// Packets of other tracks are skipped, and a stream that breaks off has ended.
pub fn packet_step(wanted: u32, outcome: PacketOutcome) -> (r: SampleStep)
    ensures
        r == match outcome {
            PacketOutcome::Packet { track_id } => if track_id == wanted {
                SampleStep::Decode
            } else {
                SampleStep::NextPacket
            },
            PacketOutcome::UnexpectedEof => SampleStep::End,
            PacketOutcome::Failed(e) => SampleStep::Fail(e),
        },
{
    match outcome {
        PacketOutcome::Packet { track_id } => {
            if track_id == wanted {
                SampleStep::Decode
            } else {
                SampleStep::NextPacket
            }
        },
        PacketOutcome::UnexpectedEof => SampleStep::End,
        PacketOutcome::Failed(e) => SampleStep::Fail(e),
    }
}

/// Damaged packets are skipped.
pub fn decode_step(outcome: DecodeOutcome) -> (r: SampleStep)
    ensures
        r == match outcome {
            DecodeOutcome::Samples => SampleStep::Deliver,
            DecodeOutcome::BadData => SampleStep::NextPacket,
            DecodeOutcome::Failed(e) => SampleStep::Fail(e),
        },
{
    match outcome {
        DecodeOutcome::Samples => SampleStep::Deliver,
        DecodeOutcome::BadData => SampleStep::NextPacket,
        DecodeOutcome::Failed(e) => SampleStep::Fail(e),
    }
}

} // verus!
