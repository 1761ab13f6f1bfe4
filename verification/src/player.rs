//! The radio player: what its commands do, and what the audio thread does next.
//!
//! The player asks its host to open and close streams, and the host reports what came of it.

use crate::text::{self, join, owned};
use vstd::prelude::*;

verus! {

/// The least room in the ring buffer before more of a stream is decoded, and its least size.
pub const RING_MIN: usize = 4096;

/// What the user interface can ask of the player.
#[derive(Debug, PartialEq, Eq)]
pub enum PlayerCommand {
    Play(String),
    Stop,
    TogglePause,
    /// The bit pattern of the volume as a single-precision number.
    SetVolume(u32),
    Quit,
}

/// What the user interface can see of the player.
#[derive(Debug, PartialEq, Eq)]
pub struct PlayerState {
    pub last_error: Option<String>,
    pub paused: bool,
}

impl PlayerState {
    /// Neither an error nor a pause.
    pub fn new() -> (r: Self)
        ensures
            r.last_error is None,
            !r.paused,
    {
        PlayerState { last_error: None, paused: false }
    }

    /// Takes the last error, if there is one that was not taken yet.
    pub fn take_last_error(&mut self) -> (r: Option<String>)
        ensures
            r == old(self).last_error,
            final(self).last_error is None,
            final(self).paused == old(self).paused,
    {
        self.last_error.take()
    }

    /// Reports an error. One that was not taken yet is forgotten.
    pub fn set_error(&mut self, msg: String)
        ensures
            final(self).last_error == Some(msg),
            final(self).paused == old(self).paused,
    {
        self.last_error = Some(msg);
    }

    pub fn is_paused(&self) -> (r: bool)
        ensures
            r == self.paused,
    {
        self.paused
    }
}

/// What the player asks its host to do.
#[derive(Debug, PartialEq, Eq)]
pub enum PlayerAction {
    /// Silence the output of the open stream and close it.
    CloseStream,
    /// Set the volume of the output, as bits.
    SetVolume(u32),
    /// Open the stream at this address, then report with `stream_opened`.
    OpenStream(String),
    /// End the audio thread.
    Quit,
}

/// What an action asks for.
pub enum PlayerActionSpec {
    CloseStream,
    SetVolume(u32),
    OpenStream(Seq<char>),
    Quit,
}

impl View for PlayerAction {
    type V = PlayerActionSpec;

    open spec fn view(&self) -> PlayerActionSpec {
        match self {
            PlayerAction::CloseStream => PlayerActionSpec::CloseStream,
            PlayerAction::SetVolume(bits) => PlayerActionSpec::SetVolume(*bits),
            PlayerAction::OpenStream(url) => PlayerActionSpec::OpenStream(url@),
            PlayerAction::Quit => PlayerActionSpec::Quit,
        }
    }
}

/// What a list of actions asks for.
pub open spec fn asked(v: Seq<PlayerAction>) -> Seq<PlayerActionSpec> {
    v.map_values(|a: PlayerAction| a@)
}

/// The sample format of a stream.
#[derive(Debug, Clone, Copy, PartialEq, Eq, Structural)]
pub struct StreamFormat {
    pub sample_rate: u32,
    pub channels: u16,
}

/// The output to open for a stream.
#[derive(Debug, Clone, Copy, PartialEq, Eq, Structural)]
pub struct OutputRequest {
    pub format: StreamFormat,
    /// How many samples the ring buffer before the output holds.
    pub ring_capacity: usize,
}

/// The room for one second of a stream, and at least the smallest ring.
pub open spec fn ring_size(f: StreamFormat) -> int {
    if f.sample_rate * f.channels < RING_MIN {
        RING_MIN as int
    } else {
        f.sample_rate * f.channels
    }
}

/// What the audio thread does next.
#[derive(Debug, Clone, Copy, PartialEq, Eq, Structural)]
pub enum LoopStep {
    /// The stream was stopped: close it and go on.
    CloseStream,
    /// Sleep for so many milliseconds.
    Sleep(u64),
    /// Decode more of the stream, then report with `decoded`.
    Decode,
    /// Wait at most so many milliseconds for a command.
    WaitForCommand(u64),
}

/// What came of decoding more of a stream.
#[derive(Debug, PartialEq, Eq)]
pub enum Decoded {
    /// Samples, which go into the ring buffer.
    Samples,
    End,
    Failed(String),
}

/// What the player knows.
#[verifier::ext_equal]
pub struct PlayerSpec {
    /// A stream is open.
    pub active: bool,
    pub paused: bool,
    pub last_error: Option<Seq<char>>,
}

impl PlayerSpec {
    /// Nothing is played and nothing is paused.
    pub open spec fn silent(self) -> PlayerSpec {
        PlayerSpec { active: false, paused: false, ..self }
    }

    /// An error is reported.
    pub open spec fn failed(self, what: Seq<char>, error: Seq<char>) -> PlayerSpec {
        PlayerSpec { last_error: Some(what + error), ..self }
    }

    /// The last error is taken: it is told once.
    pub open spec fn error_taken(self) -> (PlayerSpec, Option<Seq<char>>) {
        (PlayerSpec { last_error: None, ..self }, self.last_error)
    }

    /// The open stream is asked to be closed.
    pub open spec fn closing(self) -> Seq<PlayerActionSpec> {
        if self.active {
            seq![PlayerActionSpec::CloseStream]
        } else {
            Seq::empty()
        }
    }

    /// What a command does.
    pub open spec fn command(self, cmd: PlayerCommand) -> (PlayerSpec, Seq<PlayerActionSpec>) {
        match cmd {
            PlayerCommand::Quit => (self, seq![PlayerActionSpec::Quit]),
            PlayerCommand::Stop => (self.silent(), self.closing()),
            PlayerCommand::TogglePause => (
                PlayerSpec { paused: !self.paused, ..self },
                Seq::empty(),
            ),
            PlayerCommand::SetVolume(bits) => (self, seq![PlayerActionSpec::SetVolume(bits)]),
            PlayerCommand::Play(url) => (
                self.silent(),
                self.closing().push(PlayerActionSpec::OpenStream(url@)),
            ),
        }
    }

    /// What the audio thread does next. `stopped` tells that the open stream was stopped, and
    /// `slots` how much room the ring buffer has.
    pub open spec fn next_step(self, stopped: bool, slots: int) -> (PlayerSpec, LoopStep) {
        if !self.active {
            (self, LoopStep::WaitForCommand(50))
        } else if stopped {
            (PlayerSpec { active: false, ..self }, LoopStep::CloseStream)
        } else if self.paused {
            (self, LoopStep::Sleep(8))
        } else if slots > RING_MIN {
            (self, LoopStep::Decode)
        } else {
            (self, LoopStep::Sleep(5))
        }
    }

    /// The player after more of a stream was decoded.
    pub open spec fn decoded(self, outcome: Decoded) -> PlayerSpec {
        match outcome {
            Decoded::Samples => self,
            Decoded::End => PlayerSpec { active: false, ..self },
            Decoded::Failed(e) => PlayerSpec { active: false, ..self }.failed(
                "Decode error: "@,
                e@,
            ),
        }
    }
}

/// The player.
#[derive(Debug, PartialEq, Eq)]
pub struct RadioEngine {
    pub state: PlayerState,
    /// A stream is open.
    pub active: bool,
}

impl View for RadioEngine {
    type V = PlayerSpec;

    open spec fn view(&self) -> PlayerSpec {
        PlayerSpec {
            active: self.active,
            paused: self.state.paused,
            last_error: text::text_view(self.state.last_error),
        }
    }
}

impl RadioEngine {
    /// A player that plays nothing.
    pub fn new() -> (r: Self)
        ensures
            r@ == (PlayerSpec { active: false, paused: false, last_error: None }),
    {
        RadioEngine { state: PlayerState::new(), active: false }
    }

    /// Takes the last error, if there is one that was not taken yet.
    pub fn take_last_error(&mut self) -> (r: Option<String>)
        ensures
            (final(self)@, text::text_view(r)) == old(self)@.error_taken(),
    {
        self.state.take_last_error()
    }

    /// There is nothing to play on.
    pub fn no_device(&mut self)
        ensures
            final(self)@ == (PlayerSpec {
                last_error: Some("No default audio output device."@),
                ..old(self)@
            }),
    {
        self.state.set_error(owned("No default audio output device."));
    }

    /// Carries out a command. What the player asks for is to be done in order.
    pub fn apply_command(&mut self, cmd: PlayerCommand) -> (r: Vec<PlayerAction>)
        ensures
            (final(self)@, asked(r@)) == old(self)@.command(cmd),
    {
        let mut r: Vec<PlayerAction> = Vec::new();
        match cmd {
            PlayerCommand::Quit => { r.push(PlayerAction::Quit); },
            PlayerCommand::Stop => {
                if self.active {
                    r.push(PlayerAction::CloseStream);
                }
                self.active = false;
                self.state.paused = false;
            },
            PlayerCommand::TogglePause => { self.state.paused = !self.state.paused; },
            PlayerCommand::SetVolume(bits) => { r.push(PlayerAction::SetVolume(bits)); },
            PlayerCommand::Play(url) => {
                if self.active {
                    r.push(PlayerAction::CloseStream);
                }
                self.active = false;
                self.state.paused = false;
                r.push(PlayerAction::OpenStream(url));
            },
        }
        assert(asked(r@) =~= old(self)@.command(cmd).1);
        r
    }

    fn fail(&mut self, what: &str, error: &str)
        ensures
            final(self)@ == old(self)@.failed(what@, error@),
    {
        self.state.set_error(join(what, error));
    }

    /// A stream was opened, or could not be. The output to open for it is returned.
    pub fn stream_opened(&mut self, outcome: Result<StreamFormat, String>) -> (r: Option<
        OutputRequest,
    >)
        requires
            outcome matches Ok(f) ==> f.sample_rate * f.channels <= usize::MAX,
        ensures
            match outcome {
                Ok(f) => {
                    &&& r == Some(OutputRequest { format: f, ring_capacity: ring_size(f) as usize })
                    &&& final(self)@ == old(self)@
                },
                Err(e) => r is None && final(self)@ == old(self)@.failed(
                    "Could not open stream: "@,
                    e@,
                ),
            },
    {
        match outcome {
            Ok(format) => {
                assert(0 <= format.sample_rate * format.channels) by (nonlinear_arith)
                    requires
                        format.sample_rate >= 0,
                        format.channels >= 0,
                ;
                let second: usize = format.sample_rate as usize * format.channels as usize;
                let ring_capacity: usize = if second < RING_MIN {
                    RING_MIN
                } else {
                    second
                };
                Some(OutputRequest { format, ring_capacity })
            },
            Err(e) => {
                self.fail("Could not open stream: ", e.as_str());
                None
            },
        }
    }

    /// The output of a stream was opened, or could not be. Tells whether to start it.
    pub fn output_opened(&mut self, outcome: Result<(), String>) -> (r: bool)
        ensures
            r == (outcome is Ok),
            final(self)@ == match outcome {
                Ok(_) => old(self)@,
                Err(e) => old(self)@.failed("Could not open audio output: "@, e@),
            },
    {
        match outcome {
            Ok(()) => true,
            Err(e) => {
                self.fail("Could not open audio output: ", e.as_str());
                false
            },
        }
    }

    /// The output of a stream was started, or could not be.
    pub fn output_started(&mut self, outcome: Result<(), String>)
        ensures
            final(self)@ == match outcome {
                Ok(_) => PlayerSpec { active: true, ..old(self)@ },
                Err(e) => old(self)@.failed("Could not start playback: "@, e@),
            },
    {
        match outcome {
            Ok(()) => { self.active = true; },
            Err(e) => { self.fail("Could not start playback: ", e.as_str()); },
        }
    }

    /// The output has reported an error.
    pub fn output_failed(&mut self, error: &str)
        ensures
            final(self)@ == old(self)@.failed("Audio output: "@, error@),
    {
        self.fail("Audio output: ", error);
    }

    /// What the audio thread does next once no command waits. `stopped` tells that the open
    /// stream was stopped, and `slots` how much room the ring buffer has.
    pub fn next_step(&mut self, stopped: bool, slots: usize) -> (r: LoopStep)
        ensures
            (final(self)@, r) == old(self)@.next_step(stopped, slots as int),
    {
        if !self.active {
            LoopStep::WaitForCommand(50)
        } else if stopped {
            self.active = false;
            LoopStep::CloseStream
        } else if self.state.paused {
            LoopStep::Sleep(8)
        } else if slots > RING_MIN {
            LoopStep::Decode
        } else {
            LoopStep::Sleep(5)
        }
    }

    /// More of the stream was decoded, or it has come to its end.
    pub fn decoded(&mut self, outcome: Decoded)
        ensures
            final(self)@ == old(self)@.decoded(outcome),
    {
        match outcome {
            Decoded::Samples => {},
            Decoded::End => { self.active = false; },
            Decoded::Failed(e) => {
                self.active = false;
                self.fail("Decode error: ", e.as_str());
            },
        }
    }
}

/// Whether the output plays samples; otherwise it plays silence.
pub fn audible(stopped: bool, paused: bool) -> (r: bool)
    ensures
        r == (!stopped && !paused),
{
    !stopped && !paused
}

/// Stopping a stopped player changes nothing and asks for nothing.
pub proof fn law_stop_is_idempotent(s: PlayerSpec)
    ensures
        ({
            let t = s.command(PlayerCommand::Stop).0;
            t.command(PlayerCommand::Stop) == (t, Seq::<PlayerActionSpec>::empty())
        }),
{
}

/// Pausing twice is as not pausing at all.
pub proof fn law_pause_twice_resumes(s: PlayerSpec)
    ensures
        s.command(PlayerCommand::TogglePause).0.command(PlayerCommand::TogglePause).0 == s,
{
}

/// At most one stream is open: whenever a stream is to be opened, the one that was open has been
/// closed before, and the player does not count it any more. A new stream is never paused.
pub proof fn law_one_stream_at_a_time(s: PlayerSpec, url: String)
    ensures
        ({
            let (t, actions) = s.command(PlayerCommand::Play(url));
            &&& !t.active && !t.paused
            &&& actions.last() == PlayerActionSpec::OpenStream(url@)
            &&& s.active ==> actions =~= seq![
                PlayerActionSpec::CloseStream,
                PlayerActionSpec::OpenStream(url@),
            ]
            &&& !s.active ==> actions =~= seq![PlayerActionSpec::OpenStream(url@)]
        }),
{
}

/// Nothing is decoded while the player is paused or has no stream, nor before the ring buffer
/// has more room than the least.
pub proof fn law_decoding_needs_room(s: PlayerSpec, stopped: bool, slots: int)
    ensures
        s.next_step(stopped, slots).1 == LoopStep::Decode <==> s.active && !stopped && !s.paused
            && slots > RING_MIN,
{
}

/// A stream that ends, breaks or is stopped leaves a player that waits for commands.
pub proof fn law_ended_stream_waits(s: PlayerSpec, outcome: Decoded, slots: int)
    requires
        !(outcome is Samples),
    ensures
        s.decoded(outcome).next_step(false, slots).1 == LoopStep::WaitForCommand(50),
        s.command(PlayerCommand::Stop).0.next_step(false, slots).1 == LoopStep::WaitForCommand(50),
        s.next_step(true, slots).0.next_step(false, slots).1 == LoopStep::WaitForCommand(50),
{
}

} // verus!
