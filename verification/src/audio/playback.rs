//! The playback engine shared by the audio backends.
//!
//! The message loop of an audio actor turns commands into state changes
//! ([`PlaybackCursor::handle_command`]); the output callback asks, for each
//! frame of the device buffer, which point of the loaded sample it carries
//! ([`PlaybackCursor::render`]). Playback runs from the cursor position to the
//! end of the sample, then falls silent and stops.
use vstd::prelude::*;

use crate::actor::AudioCommand;

verus! {

/// Where one output frame takes its value from.
#[derive(Debug, Clone, Copy, PartialEq, Eq, Structural)]
pub enum FrameSource {
    /// The point at this index of the loaded sample, written to every channel.
    Sample(usize),
    /// Silence on every channel.
    Silence,
}

/// The mathematical state of a [`PlaybackCursor`].
pub struct PlaybackView {
    /// Number of points in the loaded sample.
    pub len: nat,
    /// Whether playback is running.
    pub playing: bool,
    /// Index of the next point to play.
    pub index: nat,
}

impl PlaybackView {
    /// The states that a cursor can be in: the position never passes the end.
    pub open spec fn well_formed(self) -> bool {
        self.index <= self.len
    }
}

/// One output frame: where it comes from, and the state after it.
pub open spec fn step(s: PlaybackView) -> (PlaybackView, FrameSource) {
    if s.playing {
        if s.index < s.len {
            (PlaybackView { index: s.index + 1, ..s }, FrameSource::Sample(s.index as usize))
        } else {
            (PlaybackView { playing: false, ..s }, FrameSource::Silence)
        }
    } else {
        (s, FrameSource::Silence)
    }
}

/// `n` output frames in a row: the state after them and their sources.
pub open spec fn render_frames(s: PlaybackView, n: nat) -> (PlaybackView, Seq<FrameSource>)
    decreases n,
{
    if n == 0 {
        (s, Seq::empty())
    } else {
        let prev = render_frames(s, (n - 1) as nat);
        let next = step(prev.0);
        (next.0, prev.1.push(next.1))
    }
}

/// The state after a command of the message loop.
pub open spec fn apply_command(s: PlaybackView, cmd: AudioCommand) -> PlaybackView {
    match cmd {
        AudioCommand::Play => PlaybackView { playing: true, index: 0, ..s },
        AudioCommand::Stop => PlaybackView { playing: false, ..s },
        AudioCommand::Quit => s,
    }
}

/// The source of frame `j` of a run of frames that starts in state `s`.
pub open spec fn frame_at(s: PlaybackView, j: int) -> FrameSource {
    if s.playing && s.index + j < s.len {
        FrameSource::Sample((s.index + j) as usize)
    } else {
        FrameSource::Silence
    }
}

/// The state after a run of `n` frames that starts in state `s`.
pub open spec fn state_after(s: PlaybackView, n: nat) -> PlaybackView {
    if !s.playing {
        s
    } else if s.index + n <= s.len {
        PlaybackView { index: s.index + n, ..s }
    } else {
        PlaybackView { index: s.len, playing: false, ..s }
    }
}

/// Rendering `a + b` frames in one call is the same as rendering `a` frames
/// and then `b` more: the callback may be handed buffers of any size.
pub proof fn lemma_render_split(s: PlaybackView, a: nat, b: nat)
    ensures
        render_frames(s, a + b).0 == render_frames(render_frames(s, a).0, b).0,
        render_frames(s, a + b).1 == render_frames(s, a).1 + render_frames(
            render_frames(s, a).0,
            b,
        ).1,
    decreases b,
{
    if b == 0 {
        assert(render_frames(s, a).1 + Seq::<FrameSource>::empty() =~= render_frames(s, a).1);
    } else {
        lemma_render_split(s, a, (b - 1) as nat);
        let mid = render_frames(s, a).0;
        assert((a + b - 1) as nat == a + (b - 1) as nat);
        let left = render_frames(s, a).1;
        let right = render_frames(mid, (b - 1) as nat).1;
        let f = step(render_frames(mid, (b - 1) as nat).0).1;
        assert((left + right).push(f) =~= left + right.push(f));
    }
}

/// A run of `n` frames from a well-formed state, in closed form: frame `j`
/// carries point `index + j` while that point exists and playback runs,
/// silence otherwise; playback stops at the first frame past the end.
pub proof fn lemma_render_closed_form(s: PlaybackView, n: nat)
    requires
        s.well_formed(),
    ensures
        render_frames(s, n).0 == state_after(s, n),
        render_frames(s, n).1 == Seq::new(n, |j: int| frame_at(s, j)),
    decreases n,
{
    if n > 0 {
        lemma_render_closed_form(s, (n - 1) as nat);
        let prev = render_frames(s, (n - 1) as nat);
        assert(prev.1.push(step(prev.0).1) =~= Seq::new(n, |j: int| frame_at(s, j)));
    } else {
        assert(Seq::<FrameSource>::empty() =~= Seq::new(0, |j: int| frame_at(s, j)));
    }
}

/// Rendering never reads past the end of the sample, never changes the
/// sample length, and keeps the state well formed.
pub proof fn lemma_render_in_bounds(s: PlaybackView, n: nat)
    requires
        s.well_formed(),
    ensures
        render_frames(s, n).1.len() == n,
        forall|j: int|
            0 <= j < n && (#[trigger] render_frames(s, n).1[j]) is Sample ==> (render_frames(
                s,
                n,
            ).1[j]->Sample_0 as nat) < s.len,
        render_frames(s, n).0.well_formed(),
        render_frames(s, n).0.len == s.len,
{
    lemma_render_closed_form(s, n);
}

/// A stopped stream only outputs silence, and stays as it is.
pub proof fn lemma_stopped_is_silent(s: PlaybackView, n: nat)
    requires
        !s.playing,
    ensures
        render_frames(s, n).0 == s,
        render_frames(s, n).1 == Seq::new(n, |j: int| FrameSource::Silence),
    decreases n,
{
    if n > 0 {
        lemma_stopped_is_silent(s, (n - 1) as nat);
        assert(render_frames(s, (n - 1) as nat).1.push(FrameSource::Silence) =~= Seq::new(
            n,
            |j: int| FrameSource::Silence,
        ));
    } else {
        assert(Seq::<FrameSource>::empty() =~= Seq::new(0, |j: int| FrameSource::Silence));
    }
}

/// After a `Play` command the next frames carry the whole sample from its
/// first point, one point per frame, then silence; playback has stopped once
/// a frame past the end was asked for. What was playing before does not matter.
pub proof fn lemma_play_plays_sample_from_start(s: PlaybackView, n: nat)
    ensures
        ({
            let r = render_frames(apply_command(s, AudioCommand::Play), n);
            &&& r.1.len() == n
            &&& forall|j: int|
                0 <= j < n ==> #[trigger] r.1[j] == (if j < s.len {
                    FrameSource::Sample(j as usize)
                } else {
                    FrameSource::Silence
                })
            &&& r.0.len == s.len
            &&& r.0.playing == (n <= s.len)
            &&& r.0.index == (if n <= s.len { n } else { s.len })
        }),
{
    lemma_render_closed_form(apply_command(s, AudioCommand::Play), n);
}

/// `Play` restarts: its outcome depends on nothing but the sample length.
pub proof fn lemma_play_forgets_history(s1: PlaybackView, s2: PlaybackView)
    requires
        s1.len == s2.len,
    ensures
        apply_command(s1, AudioCommand::Play) == apply_command(s2, AudioCommand::Play),
{
}

/// `Stop` silences the stream until the next `Play`, whatever frames follow,
/// and keeps the position.
pub proof fn lemma_stop_silences(s: PlaybackView, n: nat)
    ensures
        render_frames(apply_command(s, AudioCommand::Stop), n).1 == Seq::new(
            n,
            |j: int| FrameSource::Silence,
        ),
        render_frames(apply_command(s, AudioCommand::Stop), n).0.index == s.index,
{
    lemma_stopped_is_silent(apply_command(s, AudioCommand::Stop), n);
}

/// Every command keeps the state well formed and the sample length fixed;
/// `Quit` changes nothing.
pub proof fn lemma_commands_keep_well_formed(s: PlaybackView, cmd: AudioCommand)
    requires
        s.well_formed(),
    ensures
        apply_command(s, cmd).well_formed(),
        apply_command(s, cmd).len == s.len,
        cmd is Quit ==> apply_command(s, cmd) == s,
{
}

/// Playback state of one audio stream over a sample of fixed length.
pub struct PlaybackCursor {
    len: usize,
    playing: bool,
    index: usize,
}

impl View for PlaybackCursor {
    type V = PlaybackView;

    closed spec fn view(&self) -> PlaybackView {
        PlaybackView { len: self.len as nat, playing: self.playing, index: self.index as nat }
    }
}

impl PlaybackCursor {
    #[verifier::type_invariant]
    spec fn inv(self) -> bool {
        self.index <= self.len
    }

    /// A stopped cursor at the start of a sample of `len` points.
    pub fn new(len: usize) -> (c: PlaybackCursor)
        ensures
            c@ == (PlaybackView { len: len as nat, playing: false, index: 0 }),
    {
        PlaybackCursor { len, playing: false, index: 0 }
    }

    /// Number of points in the sample.
    pub fn len(&self) -> (n: usize)
        ensures
            n == self@.len,
    {
        self.len
    }

    /// Whether playback is running.
    pub fn is_playing(&self) -> (b: bool)
        ensures
            b == self@.playing,
    {
        self.playing
    }

    /// Index of the next point to play.
    pub fn index(&self) -> (i: usize)
        ensures
            i == self@.index,
            self@.well_formed(),
    {
        proof {
            use_type_invariant(self);
        }
        self.index
    }

    /// Applies one command of the actor's message loop. Returns whether the
    /// loop goes on: only `Quit` ends it.
    pub fn handle_command(&mut self, cmd: AudioCommand) -> (keep_running: bool)
        ensures
            final(self)@ == apply_command(old(self)@, cmd),
            keep_running == !(cmd is Quit),
    {
        proof {
            use_type_invariant(&*self);
        }
        match cmd {
            AudioCommand::Play => {
                self.index = 0;
                self.playing = true;
                true
            },
            AudioCommand::Stop => {
                self.playing = false;
                true
            },
            AudioCommand::Quit => false,
        }
    }

    /// Produces one output frame and advances.
    pub fn next_frame(&mut self) -> (f: FrameSource)
        ensures
            (final(self)@, f) == step(old(self)@),
    {
        proof {
            use_type_invariant(&*self);
        }
        if self.playing {
            if self.index < self.len {
                let i = self.index;
                self.index = i + 1;
                FrameSource::Sample(i)
            } else {
                self.playing = false;
                FrameSource::Silence
            }
        } else {
            FrameSource::Silence
        }
    }

    /// Produces `frames` output frames in a row.
    pub fn render(&mut self, frames: usize) -> (out: Vec<FrameSource>)
        ensures
            (final(self)@, out@) == render_frames(old(self)@, frames as nat),
            out@.len() == frames,
            forall|j: int|
                0 <= j < frames && (#[trigger] out@[j]) is Sample ==> out@[j]->Sample_0 < old(
                    self,
                )@.len,
    {
        proof {
            use_type_invariant(&*self);
            lemma_render_in_bounds(self@, frames as nat);
        }
        let ghost start = self@;
        let mut out: Vec<FrameSource> = Vec::new();
        let mut i: usize = 0;
        while i < frames
            invariant
                i <= frames,
                (self@, out@) == render_frames(start, i as nat),
            decreases frames - i,
        {
            let f = self.next_frame();
            out.push(f);
            i = i + 1;
        }
        out
    }
}

} // verus!
