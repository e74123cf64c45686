//! The playback controller: the state machine over Stopped, Playing and
//! Paused, the circular track index, and the owned sample queue. The
//! controller makes every decision; an outer command loop performs the
//! hardware work (opening and stopping output streams, reading files) and
//! reports the outcomes back.

use vstd::prelude::*;
use crate::PlayerError;
use crate::buffer::{
    BufferView, SampleBuffer, bumped, consumed_rest, delivered_prefix, lemma_consumed_rest_is_skip,
    pop_value, popped_rest,
};
use crate::decode::{DecodedTrack, decode_wav, wav_decode_of};

verus! {

/// The playback states. `Stopped` is the initial state; `toggle` moves
/// between `Playing` and `Paused`; there is no terminal state.
#[derive(Clone, Copy, Debug, PartialEq, Eq, Structural)]
pub enum PlaybackState {
    Stopped,
    Playing,
    Paused,
}

/// The negotiated output configuration: fixed for the process lifetime once
/// the output device is chosen. Every loaded track must match it exactly.
#[derive(Clone, Copy, Debug, PartialEq, Eq, Structural)]
pub struct PlaybackConfig {
    pub channels: u16,
    pub sample_rate: u32,
}

/// Abstract state of a [`Player`]: the playlist as path views, the circular
/// track index, the playback state, the fixed output configuration and the
/// sample queue.
#[verifier::ext_equal]
pub ghost struct PlayerView {
    pub tracks: Seq<Seq<char>>,
    pub index: int,
    pub state: PlaybackState,
    pub config: PlaybackConfig,
    pub buffer: BufferView,
}

/// The track index one step forward, wrapping to the first track after the
/// last: the playlist is logically circular.
pub open spec fn next_index(i: int, n: int) -> int {
    if i + 1 == n {
        0
    } else {
        i + 1
    }
}

/// The track index one step back, wrapping to the last track before the
/// first.
pub open spec fn prev_index(i: int, n: int) -> int {
    if i == 0 {
        n - 1
    } else {
        i - 1
    }
}

/// The controller after `toggle` in the Playing state: the stream is to be
/// stopped by the caller, and the queue position survives untouched.
pub open spec fn toggled_to_paused(p: PlayerView) -> PlayerView {
    PlayerView { state: PlaybackState::Paused, ..p }
}

/// The controller once an output stream went live.
pub open spec fn started(p: PlayerView) -> PlayerView {
    PlayerView { state: PlaybackState::Playing, ..p }
}

/// The controller after a track switch one step forward: stream stopped,
/// index advanced circularly, queue and counter reset.
pub open spec fn switched_next(p: PlayerView) -> PlayerView {
    PlayerView {
        state: PlaybackState::Stopped,
        index: next_index(p.index, p.tracks.len() as int),
        buffer: BufferView { remaining: Seq::empty(), consumed: 0 },
        ..p
    }
}

/// The controller after a track switch one step back.
pub open spec fn switched_prev(p: PlayerView) -> PlayerView {
    PlayerView {
        state: PlaybackState::Stopped,
        index: prev_index(p.index, p.tracks.len() as int),
        buffer: BufferView { remaining: Seq::empty(), consumed: 0 },
        ..p
    }
}

/// The controller after a successful load of the samples `s`: the queue holds
/// exactly `s` and the counter restarts; nothing else moves.
pub open spec fn loaded(p: PlayerView, s: Seq<i16>) -> PlayerView {
    PlayerView { buffer: BufferView { remaining: s, consumed: 0 }, ..p }
}

/// The controller after the output callback popped `k` samples.
pub open spec fn after_pops(p: PlayerView, k: nat) -> PlayerView {
    PlayerView {
        buffer: BufferView {
            remaining: consumed_rest(p.buffer.remaining, k),
            consumed: bumped(p.buffer.consumed, k as int),
        },
        ..p
    }
}

/// The playback controller. It owns the sample queue; the outer loop shares
/// the whole controller with the output callback under one lock, and the
/// callback calls nothing but [`Player::fill_frames`].
pub struct Player {
    playlist: Vec<String>,
    track_index: usize,
    state: PlaybackState,
    config: PlaybackConfig,
    buffer: SampleBuffer,
}

impl View for Player {
    type V = PlayerView;

    closed spec fn view(&self) -> PlayerView {
        PlayerView {
            tracks: self.playlist@.map_values(|s: String| s@),
            index: self.track_index as int,
            state: self.state,
            config: self.config,
            buffer: self.buffer@,
        }
    }
}

impl Player {
    /// The playlist is never empty, the track index always points into it,
    /// and the queue's representation is sound. Established by [`Player::new`]
    /// and preserved by every method.
    pub closed spec fn wf(self) -> bool {
        &&& self.buffer.wf()
        &&& self.playlist.len() > 0
        &&& self.track_index < self.playlist.len()
    }

    /// Builds a controller over the discovered playlist, positioned on the
    /// first track, stopped, with an empty queue. An empty playlist is fatal
    /// to startup: it is rejected with `DiscoveryEmpty`, and only then.
    pub fn new(playlist: Vec<String>, config: PlaybackConfig) -> (r: Result<Player, PlayerError>)
        ensures
            playlist@.len() == 0 <==> r == Err::<Player, PlayerError>(PlayerError::DiscoveryEmpty),
            playlist@.len() > 0 <==> r is Ok,
            r matches Ok(p) ==> {
                &&& p.wf()
                &&& p@.tracks == playlist@.map_values(|s: String| s@)
                &&& p@.index == 0
                &&& p@.state == PlaybackState::Stopped
                &&& p@.config == config
                &&& p@.buffer.remaining == Seq::<i16>::empty()
                &&& p@.buffer.consumed == 0
            },
    {
        if playlist.len() == 0 {
            Err(PlayerError::DiscoveryEmpty)
        } else {
            Ok(
                Player {
                    playlist,
                    track_index: 0,
                    state: PlaybackState::Stopped,
                    config,
                    buffer: SampleBuffer::new(),
                },
            )
        }
    }

    /// The current playback state.
    pub fn state(&self) -> (s: PlaybackState)
        ensures
            s == self@.state,
    {
        self.state
    }

    /// How many tracks the playlist holds.
    pub fn track_count(&self) -> (n: usize)
        ensures
            n == self@.tracks.len(),
    {
        self.playlist.len()
    }

    /// Which track the controller is positioned on.
    pub fn track_index(&self) -> (i: usize)
        ensures
            i == self@.index,
    {
        self.track_index
    }

    /// Count of samples delivered to the output so far.
    pub fn consumed_count(&self) -> (c: u64)
        ensures
            c == self@.buffer.consumed,
    {
        self.buffer.consumed_count()
    }

    /// How many samples are still queued for delivery.
    pub fn buffered_len(&self) -> (n: usize)
        requires
            self.wf(),
        ensures
            n == self@.buffer.remaining.len(),
    {
        self.buffer.len()
    }

    /// Whether the play operation must decode the current track first: it
    /// decodes lazily, only when the queue is empty, so that pause and resume
    /// on the same track never re-decode.
    pub fn needs_decode(&self) -> (b: bool)
        requires
            self.wf(),
        ensures
            b == (self@.buffer.remaining.len() == 0),
    {
        self.buffer.is_empty()
    }

    /// The path of the track the controller is positioned on.
    pub fn current_track(&self) -> (t: String)
        requires
            self.wf(),
        ensures
            t@ == self@.tracks[self@.index],
    {
        let t = self.playlist[self.track_index].clone();
        proof {
            assert(self@.tracks[self@.index] == self.playlist@[self.track_index as int]@);
        }
        t
    }

    /// One press of play/pause. In the Playing state it pauses: the caller
    /// must stop the live stream, and the queue position survives for resume.
    /// Otherwise it changes nothing here and returns false: the caller runs
    /// the play sequence (decode if needed, open a stream, then
    /// [`Player::mark_playing`]).
    pub fn toggle(&mut self) -> (paused: bool)
        requires
            old(self).wf(),
        ensures
            final(self).wf(),
            paused == (old(self)@.state == PlaybackState::Playing),
            old(self)@.state == PlaybackState::Playing ==> final(self)@ == toggled_to_paused(
                old(self)@,
            ),
            old(self)@.state != PlaybackState::Playing ==> final(self)@ == old(self)@,
    {
        if self.state == PlaybackState::Playing {
            self.state = PlaybackState::Paused;
            proof {
                assert(self@ =~= toggled_to_paused(old(self)@));
            }
            true
        } else {
            false
        }
    }

    /// Records that the output stream went live: the caller invokes it only
    /// after the stream opened and started. A failed open never reaches this
    /// point, so a play attempt that fails leaves the state at its prior
    /// value instead of falsely claiming Playing.
    pub fn mark_playing(&mut self)
        requires
            old(self).wf(),
        ensures
            final(self).wf(),
            final(self)@ == started(old(self)@),
    {
        self.state = PlaybackState::Playing;
        proof {
            assert(self@ =~= started(old(self)@));
        }
    }

    /// Moves one track forward, circularly, after the caller fully stopped
    /// any live stream. The queue and its counter are reset, so the new
    /// track, once loaded, plays from its first sample.
    pub fn next_track(&mut self)
        requires
            old(self).wf(),
        ensures
            final(self).wf(),
            final(self)@ == switched_next(old(self)@),
    {
        self.state = PlaybackState::Stopped;
        let n: usize = self.playlist.len();
        self.track_index = if self.track_index + 1 == n {
            0
        } else {
            self.track_index + 1
        };
        self.buffer.clear();
        proof {
            assert(self@ =~= switched_next(old(self)@));
        }
    }

    /// Moves one track back, wrapping to the last track from the first, after
    /// the caller fully stopped any live stream. The queue and its counter
    /// are reset.
    pub fn previous_track(&mut self)
        requires
            old(self).wf(),
        ensures
            final(self).wf(),
            final(self)@ == switched_prev(old(self)@),
    {
        self.state = PlaybackState::Stopped;
        self.track_index = if self.track_index == 0 {
            self.playlist.len() - 1
        } else {
            self.track_index - 1
        };
        self.buffer.clear();
        proof {
            assert(self@ =~= switched_prev(old(self)@));
        }
    }

    /// Loads an already-decoded track. The format is validated against the
    /// negotiated output configuration before any buffer mutation: a sample
    /// rate or channel count mismatch is rejected with the queue and counter
    /// left exactly as they were. On a match the queue contents are replaced
    /// by the track's samples and the counter restarts.
    pub fn load_decoded(&mut self, track: DecodedTrack) -> (r: Result<(), PlayerError>)
        requires
            old(self).wf(),
        ensures
            final(self).wf(),
            track.sample_rate != old(self)@.config.sample_rate ==> r == Err::<(), PlayerError>(
                PlayerError::SampleRateMismatch,
            ) && final(self)@ == old(self)@,
            track.sample_rate == old(self)@.config.sample_rate && track.channels
                != old(self)@.config.channels ==> r == Err::<(), PlayerError>(
                PlayerError::ChannelCountMismatch,
            ) && final(self)@ == old(self)@,
            track.sample_rate == old(self)@.config.sample_rate && track.channels
                == old(self)@.config.channels ==> r == Ok::<(), PlayerError>(()) && final(self)@
                == loaded(old(self)@, track.samples@),
    {
        if track.sample_rate != self.config.sample_rate {
            return Err(PlayerError::SampleRateMismatch);
        }
        if track.channels != self.config.channels {
            return Err(PlayerError::ChannelCountMismatch);
        }
        self.buffer.clear();
        self.buffer.load(track.samples);
        proof {
            assert(Seq::<i16>::empty() + track.samples@ =~= track.samples@);
            assert(self@ =~= loaded(old(self)@, track.samples@));
        }
        Ok(())
    }

    /// The whole load step of the decode bridge: parses the bytes of the
    /// track's file (relying on the decoder) and, when the format matches the
    /// output configuration, replaces the queue contents with the decoded
    /// samples. A parse failure or a format mismatch leaves the queue and
    /// counter untouched and reports which error occurred.
    pub fn load_from_bytes(&mut self, bytes: &Vec<u8>) -> (r: Result<(), PlayerError>)
        requires
            old(self).wf(),
        ensures
            final(self).wf(),
            match wav_decode_of(bytes@) {
                None => r == Err::<(), PlayerError>(PlayerError::FormatError) && final(self)@
                    == old(self)@,
                Some(m) => {
                    &&& m.0 != old(self)@.config.sample_rate ==> r == Err::<(), PlayerError>(
                        PlayerError::SampleRateMismatch,
                    ) && final(self)@ == old(self)@
                    &&& m.0 == old(self)@.config.sample_rate && m.1 != old(self)@.config.channels
                        ==> r == Err::<(), PlayerError>(PlayerError::ChannelCountMismatch)
                        && final(self)@ == old(self)@
                    &&& m.0 == old(self)@.config.sample_rate && m.1 == old(self)@.config.channels
                        ==> r == Ok::<(), PlayerError>(()) && final(self)@ == loaded(
                        old(self)@,
                        m.2,
                    )
                },
            },
    {
        match decode_wav(bytes) {
            Ok(track) => self.load_decoded(track),
            Err(e) => Err(e),
        }
    }

    /// One output slot's worth of the real-time callback: removes and returns
    /// the earliest queued sample, or the silence value 0 on underrun, always
    /// advancing the delivered-sample counter. Never blocks, never fails,
    /// never allocates. Nothing else of the controller moves.
    pub fn pop_front_or_silence(&mut self) -> (r: i16)
        requires
            old(self).wf(),
        ensures
            final(self).wf(),
            r == pop_value(old(self)@.buffer.remaining),
            final(self)@ == after_pops(old(self)@, 1),
    {
        let r = self.buffer.pop_front_or_silence();
        proof {
            let rem = old(self)@.buffer.remaining;
            assert(consumed_rest(rem, 0) == rem);
            assert(consumed_rest(rem, 1) == popped_rest(consumed_rest(rem, 0)));
            assert(self@ =~= after_pops(old(self)@, 1));
        }
        r
    }

    /// The real-time callback's work for one period: one popped sample per
    /// output slot, in order, silence once the queue is exhausted, with the
    /// delivered-sample counter advanced per slot. Nothing else of the
    /// controller moves, and the call never blocks or fails.
    pub fn fill_frames(&mut self, out_len: usize) -> (out: Vec<i16>)
        requires
            old(self).wf(),
        ensures
            final(self).wf(),
            out@ == delivered_prefix(old(self)@.buffer.remaining, out_len as nat),
            final(self)@ == after_pops(old(self)@, out_len as nat),
    {
        let out = self.buffer.fill_frames(out_len);
        proof {
            assert(self@ =~= after_pops(old(self)@, out_len as nat));
        }
        out
    }
}

/// The circular index iterated `k` steps forward.
pub open spec fn iterate_next(i: int, n: int, k: nat) -> int
    decreases k,
{
    if k == 0 {
        i
    } else {
        next_index(iterate_next(i, n, (k - 1) as nat), n)
    }
}

/// The circular index iterated `k` steps back.
pub open spec fn iterate_prev(i: int, n: int, k: nat) -> int
    decreases k,
{
    if k == 0 {
        i
    } else {
        prev_index(iterate_prev(i, n, (k - 1) as nat), n)
    }
}

proof fn lemma_iterate_next_offset(i: int, n: int, k: nat)
    requires
        0 <= i < n,
        k <= n,
    ensures
        iterate_next(i, n, k) == if i + k < n {
            i + k
        } else {
            i + k - n
        },
    decreases k,
{
    if k > 0 {
        lemma_iterate_next_offset(i, n, (k - 1) as nat);
    }
}

proof fn lemma_iterate_prev_offset(i: int, n: int, k: nat)
    requires
        0 <= i < n,
        k <= n,
    ensures
        iterate_prev(i, n, k) == if i - k >= 0 {
            i - k
        } else {
            i - k + n
        },
    decreases k,
{
    if k > 0 {
        lemma_iterate_prev_offset(i, n, (k - 1) as nat);
    }
}

/// Circularity: in a playlist of `n` tracks, stepping `next` `n` times from
/// any index returns to that index, and so does stepping `previous` `n`
/// times.
pub proof fn next_previous_circular(i: int, n: int)
    requires
        0 <= i < n,
    ensures
        iterate_next(i, n, n as nat) == i,
        iterate_prev(i, n, n as nat) == i,
{
    lemma_iterate_next_offset(i, n, n as nat);
    lemma_iterate_prev_offset(i, n, n as nat);
}

/// Pause preserves position: after a track's samples `s` are loaded and `m`
/// of them consumed, a pause followed by a resume leaves the queue untouched,
/// so the next delivered sample is `s[m]` — nothing re-delivered, nothing
/// skipped.
pub proof fn pause_resume_preserves_position(p: PlayerView, s: Seq<i16>, m: nat)
    requires
        m < s.len(),
    ensures
        ({
            let before = after_pops(loaded(p, s), m);
            let after = started(toggled_to_paused(before));
            &&& after.buffer == before.buffer
            &&& after.buffer.remaining == s.skip(m as int)
            &&& pop_value(after.buffer.remaining) == s[m as int]
        }),
{
    lemma_consumed_rest_is_skip(s, m);
    assert(s.skip(m as int)[0] == s[m as int]);
}

/// Underrun safety at the output callback: however many slots `l` the
/// hardware asks for, each slot beyond the queued samples receives exactly
/// the silence value 0, the queue loses only what it held, and the
/// delivered-sample counter advances by exactly `l`. Stated short of the
/// counter's maximum, where the counter saturates instead of overflowing.
pub proof fn callback_underrun_safety(p: PlayerView, l: nat)
    requires
        p.buffer.consumed + l <= u64::MAX,
    ensures
        after_pops(p, l).buffer.consumed == p.buffer.consumed + l,
        forall|j: int|
            p.buffer.remaining.len() <= j < l ==> #[trigger] delivered_prefix(
                p.buffer.remaining,
                l,
            )[j] == 0i16,
        after_pops(p, l).buffer.remaining.len() == if l <= p.buffer.remaining.len() {
            p.buffer.remaining.len() - l
        } else {
            0
        },
{
    lemma_consumed_rest_is_skip(p.buffer.remaining, l);
}

/// A track switch resets the position: after `next` or `previous` and the
/// load of the new track's samples `s`, the first delivered sample is `s[0]`
/// and the delivered-sample counter restarts at zero, whatever was queued or
/// counted before.
pub proof fn switch_resets_position(p: PlayerView, s: Seq<i16>)
    requires
        s.len() > 0,
    ensures
        pop_value(loaded(switched_next(p), s).buffer.remaining) == s[0],
        loaded(switched_next(p), s).buffer.consumed == 0,
        pop_value(loaded(switched_prev(p), s).buffer.remaining) == s[0],
        loaded(switched_prev(p), s).buffer.consumed == 0,
{
}

} // verus!
