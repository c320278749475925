//! What the framebuffer lock guarantees, proved over every interleaving of the
//! renderer and the transfer worker.

use vstd::prelude::*;
use crate::peripherals::display_driver::{
    pipeline_step, uniform_frame, Party, PipelineEvent, PipelineState, BLACK,
};

verus! {

/// Where the renderer stands in its loop.
pub enum RendererPhase {
    /// About to ask for the lock.
    Idle,
    /// Holds the lock and has painted the first `painted` pixels of the frame.
    Drawing { painted: nat },
    /// Has given the lock back and is about to announce the frame.
    Finished,
}

/// Where the transfer worker stands in its loop.
pub enum TransferPhase {
    /// Waits for a frame to be announced.
    Waiting,
    /// Has consumed the announcement and is about to ask for the lock.
    Woken,
    /// Holds the lock and has sent the pixels in `sent` to the panel.
    Reading { sent: Seq<u16> },
}

/// A renderer that fills the framebuffer alternately with two colours, a
/// transfer worker that sends what it finds, and the pipeline between them.
pub struct Session {
    /// The shared pipeline.
    pub pipe: PipelineState,
    /// The two colours of the renderer.
    pub colors: (u16, u16),
    /// How many frames the renderer has announced.
    pub announced: nat,
    /// The renderer's position.
    pub renderer: RendererPhase,
    /// The transfer worker's position.
    pub transfer: TransferPhase,
    /// Every frame that the transfer worker has sent in full.
    pub transferred: Seq<Seq<u16>>,
}

/// The colour of the renderer's frame number `k`.
pub open spec fn frame_color(colors: (u16, u16), k: nat) -> u16 {
    if k % 2 == 0 {
        colors.0
    } else {
        colors.1
    }
}

/// The session before either context has taken a step.
pub open spec fn session_start(len: nat, colors: (u16, u16)) -> Session {
    Session {
        pipe: PipelineState { pixels: uniform_frame(len, BLACK), holder: None, frame_ready: false },
        colors,
        announced: 0,
        renderer: RendererPhase::Idle,
        transfer: TransferPhase::Waiting,
        transferred: Seq::empty(),
    }
}

/// One step of the renderer: take the lock, paint the next pixel, give the lock
/// back once the frame is whole, announce it.
pub open spec fn renderer_step(s: Session) -> Session {
    match s.renderer {
        RendererPhase::Idle => if s.pipe.holder is None {
            Session {
                pipe: pipeline_step(s.pipe, PipelineEvent::Lock { who: Party::Renderer }),
                renderer: RendererPhase::Drawing { painted: 0 },
                ..s
            }
        } else {
            s
        },
        RendererPhase::Drawing { painted } => if painted < s.pipe.pixels.len() {
            Session {
                pipe: pipeline_step(
                    s.pipe,
                    PipelineEvent::Draw {
                        who: Party::Renderer,
                        index: painted as int,
                        color: frame_color(s.colors, s.announced),
                    },
                ),
                renderer: RendererPhase::Drawing { painted: painted + 1 },
                ..s
            }
        } else {
            Session {
                pipe: pipeline_step(s.pipe, PipelineEvent::Unlock { who: Party::Renderer }),
                renderer: RendererPhase::Finished,
                ..s
            }
        },
        RendererPhase::Finished => Session {
            pipe: pipeline_step(s.pipe, PipelineEvent::SignalFrameReady),
            announced: s.announced + 1,
            renderer: RendererPhase::Idle,
            ..s
        },
    }
}

/// One step of the transfer worker: consume an announcement, take the lock,
/// send the next pixel, give the lock back once the frame is sent.
pub open spec fn transfer_step(s: Session) -> Session {
    match s.transfer {
        TransferPhase::Waiting => if s.pipe.frame_ready {
            Session {
                pipe: pipeline_step(s.pipe, PipelineEvent::TakeFrameReady),
                transfer: TransferPhase::Woken,
                ..s
            }
        } else {
            s
        },
        TransferPhase::Woken => if s.pipe.holder is None {
            Session {
                pipe: pipeline_step(s.pipe, PipelineEvent::Lock { who: Party::Transfer }),
                transfer: TransferPhase::Reading { sent: Seq::empty() },
                ..s
            }
        } else {
            s
        },
        TransferPhase::Reading { sent } => if sent.len() < s.pipe.pixels.len() {
            Session {
                transfer: TransferPhase::Reading {
                    sent: sent.push(s.pipe.pixels[sent.len() as int]),
                },
                ..s
            }
        } else {
            Session {
                pipe: pipeline_step(s.pipe, PipelineEvent::Unlock { who: Party::Transfer }),
                transfer: TransferPhase::Waiting,
                transferred: s.transferred.push(sent),
                ..s
            }
        },
    }
}

/// The session after the scheduler has run the contexts in the order that
/// `schedule` gives: `true` lets the renderer take a step, `false` the
/// transfer worker.
pub open spec fn session_run(start: Session, schedule: Seq<bool>) -> Session
    decreases schedule.len(),
{
    if schedule.len() == 0 {
        start
    } else {
        let before = session_run(start, schedule.drop_last());
        if schedule.last() {
            renderer_step(before)
        } else {
            transfer_step(before)
        }
    }
}

/// Whether `frame` shows one of the renderer's two colours on every pixel.
pub open spec fn is_whole_frame(frame: Seq<u16>, len: nat, colors: (u16, u16)) -> bool {
    frame == uniform_frame(len, colors.0) || frame == uniform_frame(len, colors.1)
}

/// The colour of the last frame that the renderer finished before its current one.
spec fn settled_color(s: Session) -> u16 {
    if s.announced == 0 {
        BLACK
    } else {
        frame_color(s.colors, (s.announced - 1) as nat)
    }
}

/// What holds of a session between any two steps.
spec fn session_inv(s: Session, len: nat) -> bool {
    &&& s.pipe.pixels.len() == len
    &&& (s.renderer is Drawing <==> s.pipe.holder == Some(Party::Renderer))
    &&& (s.transfer is Reading <==> s.pipe.holder == Some(Party::Transfer))
    &&& match s.renderer {
        RendererPhase::Idle => s.pipe.pixels == uniform_frame(len, settled_color(s)),
        RendererPhase::Drawing { painted } => {
            &&& painted <= len
            &&& forall|i: int|
                0 <= i < painted ==> s.pipe.pixels[i] == frame_color(s.colors, s.announced)
            &&& forall|i: int| painted <= i < len ==> s.pipe.pixels[i] == settled_color(s)
        },
        RendererPhase::Finished => s.pipe.pixels == uniform_frame(
            len,
            frame_color(s.colors, s.announced),
        ),
    }
    &&& (s.pipe.frame_ready || !(s.transfer is Waiting) ==> s.announced >= 1)
    &&& (s.transfer matches TransferPhase::Reading { sent } ==> {
        &&& sent.len() <= len
        &&& forall|i: int| 0 <= i < sent.len() ==> sent[i] == s.pipe.pixels[i]
    })
    &&& forall|k: int|
        0 <= k < s.transferred.len() ==> is_whole_frame(#[trigger] s.transferred[k], len, s.colors)
}

proof fn lemma_renderer_step_keeps_inv(s: Session, len: nat)
    requires
        session_inv(s, len),
    ensures
        session_inv(renderer_step(s), len),
        renderer_step(s).colors == s.colors,
{
    if let RendererPhase::Drawing { painted } = s.renderer {
        if painted >= s.pipe.pixels.len() {
            // the last pixel is painted: the frame is whole
            assert(renderer_step(s).pipe.pixels =~= uniform_frame(
                len,
                frame_color(s.colors, s.announced),
            ));
        }
    }
}

proof fn lemma_transfer_step_keeps_inv(s: Session, len: nat)
    requires
        session_inv(s, len),
    ensures
        session_inv(transfer_step(s), len),
        transfer_step(s).colors == s.colors,
{
    if let TransferPhase::Reading { sent } = s.transfer {
        if sent.len() >= s.pipe.pixels.len() {
            // every pixel was sent while the worker held the lock: what was
            // sent is the frame as the renderer left it
            assert(sent =~= s.pipe.pixels);
        }
    }
}

proof fn lemma_run_keeps_inv(len: nat, colors: (u16, u16), schedule: Seq<bool>)
    ensures
        session_inv(session_run(session_start(len, colors), schedule), len),
        session_run(session_start(len, colors), schedule).colors == colors,
    decreases schedule.len(),
{
    if schedule.len() == 0 {
    } else {
        lemma_run_keeps_inv(len, colors, schedule.drop_last());
        let before = session_run(session_start(len, colors), schedule.drop_last());
        if schedule.last() {
            lemma_renderer_step_keeps_inv(before, len);
        } else {
            lemma_transfer_step_keeps_inv(before, len);
        }
    }
}

/// No tearing: however the scheduler interleaves a renderer that fills the
/// framebuffer alternately with two colours and a transfer worker that follows
/// the hand-over protocol, every frame that the worker sends shows one of the
/// two colours on every pixel, never a mixture.
pub proof fn lemma_transferred_frames_are_whole(
    len: nat,
    colors: (u16, u16),
    schedule: Seq<bool>,
    k: int,
)
    requires
        0 <= k < session_run(session_start(len, colors), schedule).transferred.len(),
    ensures
        is_whole_frame(
            session_run(session_start(len, colors), schedule).transferred[k],
            len,
            colors,
        ),
{
    lemma_run_keeps_inv(len, colors, schedule);
}

/// The pixels change only under the hand of the lock holder: any event other
/// than a draw by the party that holds the lock leaves every pixel as it was.
pub proof fn lemma_only_the_holder_draws(s: PipelineState, e: PipelineEvent)
    ensures
        pipeline_step(s, e).pixels != s.pixels ==> (e matches PipelineEvent::Draw { who, .. }
            && s.holder == Some(who)),
{
}

/// The lock is exclusive: a party that holds it keeps it until it gives it
/// back itself.
pub proof fn lemma_lock_is_exclusive(s: PipelineState, e: PipelineEvent, who: Party)
    requires
        s.holder == Some(who),
        !(e matches PipelineEvent::Unlock { who: w } && w == who),
    ensures
        pipeline_step(s, e).holder == Some(who),
{
}

/// Announcements collapse: after any number of them, one take clears the flag
/// and the next take finds nothing.
pub proof fn lemma_signals_collapse(s: PipelineState, n: nat)
    ensures
        pipeline_step(signal_times(s, n), PipelineEvent::TakeFrameReady).frame_ready == false,
        n >= 1 ==> signal_times(s, n).frame_ready,
        signal_times(s, n).pixels == s.pixels,
        signal_times(s, n).holder == s.holder,
    decreases n,
{
    if n > 0 {
        lemma_signals_collapse(s, (n - 1) as nat);
    }
}

/// The state after `n` announcements in a row.
pub open spec fn signal_times(s: PipelineState, n: nat) -> PipelineState
    decreases n,
{
    if n == 0 {
        s
    } else {
        pipeline_step(signal_times(s, (n - 1) as nat), PipelineEvent::SignalFrameReady)
    }
}

} // verus!
