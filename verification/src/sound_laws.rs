//! What a stream gives and what the player does.

use crate::player::{
    self, Decoded, LoopStep, PlayerAction, PlayerActionSpec, PlayerCommand, PlayerSpec, RadioEngine,
    StreamFormat,
};
use crate::stream::{self, BufferSpec, HttpBuffer, TrackInfo};
use crate::text;
use vstd::prelude::*;
use vstd::utf8;

verus! {

// ---------------------------------------------------------------------------
// The buffer
// ---------------------------------------------------------------------------

/// A read gives the bytes from the position of the reader on, in order, as many as were asked for
/// and have come in, and moves the reader past them.
pub proof fn law_reads_give_what_came_in(s: BufferSpec, n: int, i: int)
    requires
        s.wf(),
        n >= 0,
    ensures
        ({
            let got = s.next(n);
            let t = s.read(n);
            &&& got.len() <= n
            &&& got.len() == n || s.pos + got.len() >= s.bytes.len()
            &&& s.pos >= s.bytes.len() ==> got.len() == 0
            &&& s.pos < s.bytes.len() ==> s.pos + got.len() <= s.bytes.len()
            &&& 0 <= i < got.len() ==> got[i] == s.bytes[s.pos + i]
            &&& s.available(n) == got.len()
            &&& t.pos == s.pos + got.len()
            &&& t.bytes == s.bytes
            &&& t.eof == s.eof
        }),
{
}

/// Bytes that come in follow those that came before; none at all mean the end.
pub proof fn law_bytes_come_in_order(s: BufferSpec, chunk: Seq<u8>, i: int)
    ensures
        ({
            let t = s.fed(chunk);
            &&& t.pos == s.pos
            &&& t.bytes.len() == s.bytes.len() + chunk.len()
            &&& 0 <= i < s.bytes.len() ==> t.bytes[i] == s.bytes[i]
            &&& 0 <= i < chunk.len() ==> t.bytes[s.bytes.len() + i] == chunk[i]
            &&& t.eof == (s.eof || chunk.len() == 0)
        }),
{
}

/// The buffer is what its fields say.
pub proof fn law_buffer_view(b: HttpBuffer)
    ensures
        b@.bytes == b.buf@,
        b@.pos == b.pos,
        b@.eof == b.eof,
        b.wf() <==> b.buf@.len() <= i64::MAX && b.pos <= i64::MAX && b.pos <= usize::MAX,
{
}

// ---------------------------------------------------------------------------
// Opening a stream
// ---------------------------------------------------------------------------

/// The extension of an address stands right before its first question mark, or at its end, and
/// goes back to the last dot, or to the start.
pub proof fn law_extension_stands_behind_the_last_dot(url: Seq<char>) -> (r: (int, int))
    ensures
        0 <= r.0 <= r.1 <= url.len(),
        stream::extension(url) == url.subrange(r.0, r.1),
        forall|k: int| 0 <= k < r.1 ==> url[k] != '?',
        r.1 == url.len() || url[r.1] == '?',
        forall|k: int| r.0 <= k < r.1 ==> url[k] != '.',
        r.0 == 0 || url[r.0 - 1] == '.',
{
    url.index_of_first_ensures('?');
    let path = stream::before_first(url, '?');
    let end = path.len() as int;
    assert(path =~= url.take(end));
    path.index_of_last_ensures('.');
    let start = match path.index_of_last('.') {
        Some(i) => i + 1,
        None => 0,
    };
    assert(stream::extension(url) =~= url.subrange(start, end));
    assert forall|k: int| 0 <= k < end implies url[k] != '?' by {}
    assert forall|k: int| start <= k < end implies url[k] != '.' by {
        assert(path[k] == url[k]);
    }
    if start > 0 {
        assert(path[start - 1] == url[start - 1]);
    }
    (start, end)
}

/// An extension is a hint exactly where it has one to six bytes.
pub proof fn law_hints_are_short(url: Seq<char>)
    ensures
        ({
            let e = stream::extension(url);
            let n = utf8::encode_utf8(e).len();
            &&& e.len() > 0 && n <= 6 ==> stream::extension_hint(url) == Some(e)
            &&& e.len() == 0 || n > 6 ==> stream::extension_hint(url) is None
        }),
{
}

/// The first track with a codec has one, and no track before it has; where any track has a codec
/// there is exactly one such track.
pub proof fn law_first_codec_is_chosen(tracks: Seq<TrackInfo>, i: int, j: int)
    ensures
        stream::first_with_codec(tracks, i) <==> {
            &&& 0 <= i < tracks.len()
            &&& tracks[i].has_codec
            &&& forall|k: int| 0 <= k < i ==> !(#[trigger] tracks[k]).has_codec
        },
        stream::first_with_codec(tracks, i) && stream::first_with_codec(tracks, j) ==> i == j,
        0 <= j < tracks.len() && tracks[j].has_codec ==> exists|k: int|
            k <= j && #[trigger] stream::first_with_codec(tracks, k),
    decreases j,
{
    if stream::first_with_codec(tracks, i) && stream::first_with_codec(tracks, j) {
        if i < j {
            assert(!tracks[i].has_codec);
        }
        if j < i {
            assert(!tracks[j].has_codec);
        }
    }
    if 0 <= j < tracks.len() && tracks[j].has_codec {
        if exists|k: int| 0 <= k < j && (#[trigger] tracks[k]).has_codec {
            let k = choose|k: int| 0 <= k < j && (#[trigger] tracks[k]).has_codec;
            law_first_codec_is_chosen(tracks, k, k);
            let f = choose|f: int| f <= k && #[trigger] stream::first_with_codec(tracks, f);
            assert(f <= j);
        } else {
            assert(stream::first_with_codec(tracks, j));
        }
    }
}

// ---------------------------------------------------------------------------
// The player
// ---------------------------------------------------------------------------

/// What every command does.
pub proof fn law_commands_in_full(s: PlayerSpec, url: String, bits: u32)
    ensures
        ({
            let none = Seq::<PlayerActionSpec>::empty();
            let quiet = PlayerSpec { active: false, paused: false, last_error: s.last_error };
            let open = PlayerActionSpec::OpenStream(url@);
            let close = PlayerActionSpec::CloseStream;
            &&& s.command(PlayerCommand::Quit) == (s, seq![PlayerActionSpec::Quit])
            &&& s.command(PlayerCommand::Stop).0 == quiet
            &&& s.command(PlayerCommand::Stop).1 == (if s.active {
                seq![close]
            } else {
                none
            })
            &&& s.command(PlayerCommand::TogglePause).0 == (PlayerSpec { paused: !s.paused, ..s })
            &&& s.command(PlayerCommand::TogglePause).1 == none
            &&& s.command(PlayerCommand::SetVolume(bits)) == (
                s,
                seq![PlayerActionSpec::SetVolume(bits)],
            )
            &&& s.command(PlayerCommand::Play(url)).0 == quiet
            &&& s.command(PlayerCommand::Play(url)).1 == (if s.active {
                seq![close, open]
            } else {
                seq![open]
            })
        }),
{
    lemma_play_closes_first(s, url);
}

proof fn lemma_play_closes_first(s: PlayerSpec, url: String)
    ensures
        s.active ==> s.command(PlayerCommand::Play(url)).1 == seq![
            PlayerActionSpec::CloseStream,
            PlayerActionSpec::OpenStream(url@),
        ],
        !s.active ==> s.command(PlayerCommand::Play(url)).1 == seq![
            PlayerActionSpec::OpenStream(url@),
        ],
{
    player::law_one_stream_at_a_time(s, url);
}

/// What the audio thread does next: without a stream it waits for commands, a stopped stream is
/// closed, a paused one rests, and else more is decoded as soon as the ring has more than its
/// least room.
pub proof fn law_next_steps_in_full(s: PlayerSpec, stopped: bool, slots: int)
    ensures
        ({
            let (t, step) = s.next_step(stopped, slots);
            &&& !s.active ==> t == s && step == LoopStep::WaitForCommand(50)
            &&& s.active && stopped ==> t == (PlayerSpec { active: false, ..s }) && step
                == LoopStep::CloseStream
            &&& s.active && !stopped && s.paused ==> t == s && step == LoopStep::Sleep(8)
            &&& s.active && !stopped && !s.paused && slots > 4096 ==> t == s && step
                == LoopStep::Decode
            &&& s.active && !stopped && !s.paused && slots <= 4096 ==> t == s && step
                == LoopStep::Sleep(5)
        }),
{
}

/// A stream that has ended or cannot be decoded is given up; an error is reported with what went
/// wrong before its own words, and is told once.
pub proof fn law_decoding_in_full(s: PlayerSpec, e: String, what: Seq<char>, error: Seq<char>)
    ensures
        s.decoded(Decoded::Samples) == s,
        s.decoded(Decoded::End) == (PlayerSpec { active: false, ..s }),
        s.decoded(Decoded::Failed(e)) == (PlayerSpec {
            active: false,
            last_error: Some("Decode error: "@ + e@),
            ..s
        }),
        s.failed(what, error) == (PlayerSpec { last_error: Some(what + error), ..s }),
        s.error_taken() == (PlayerSpec { last_error: None, ..s }, s.last_error),
{
}

/// The ring holds a second of the stream, or four thousand and ninety-six samples where that is
/// more.
pub proof fn law_ring_holds_a_second(f: StreamFormat)
    ensures
        player::ring_size(f) >= f.sample_rate * f.channels,
        player::ring_size(f) >= 4096,
        player::ring_size(f) == f.sample_rate * f.channels || player::ring_size(f) == 4096,
{
}

/// The player is what its fields say, and a list of its actions asks for what each of them asks
/// for, in order.
pub proof fn law_player_view(e: RadioEngine, v: Seq<PlayerAction>, i: int)
    ensures
        e@.active == e.active,
        e@.paused == e.state.paused,
        e@.last_error == text::text_view(e.state.last_error),
        player::asked(v).len() == v.len(),
        0 <= i < v.len() ==> match v[i] {
            PlayerAction::CloseStream => player::asked(v)[i] is CloseStream,
            PlayerAction::SetVolume(bits) => player::asked(v)[i] == PlayerActionSpec::SetVolume(
                bits,
            ),
            PlayerAction::OpenStream(url) => player::asked(v)[i] == PlayerActionSpec::OpenStream(
                url@,
            ),
            PlayerAction::Quit => player::asked(v)[i] is Quit,
        },
{
}

} // verus!
