//! The framebuffer and the hand-over of finished frames to the transfer worker.

use vstd::prelude::*;
use crate::peripherals::pwm_bus::{backlight_duty, clamp_percent, duty_for};

verus! {

/// Width of the panel in pixels.
pub const DISPLAY_WIDTH: u32 = 240;

/// Height of the panel in pixels.
pub const DISPLAY_HEIGHT: u32 = 280;

/// The colour every pixel of a new framebuffer has (RGB565 black).
pub const BLACK: u16 = 0;

/// A grid of RGB565 pixels, stored row by row.
pub struct Framebuffer {
    data: Vec<u16>,
    width: u32,
    height: u32,
}

/// The frame in which every one of `len` pixels has the colour `color`.
pub open spec fn uniform_frame(len: nat, color: u16) -> Seq<u16> {
    Seq::new(len, |i: int| color)
}

impl View for Framebuffer {
    type V = Seq<u16>;

    closed spec fn view(&self) -> Seq<u16> {
        self.data@
    }
}

impl Framebuffer {
    #[verifier::type_invariant]
    pub closed spec fn wf(&self) -> bool {
        self.data@.len() == self.width * self.height
    }

    /// Width in pixels.
    pub closed spec fn spec_width(&self) -> u32 {
        self.width
    }

    /// Height in pixels.
    pub closed spec fn spec_height(&self) -> u32 {
        self.height
    }

    /// Whether the point lies on the grid.
    pub open spec fn contains(&self, x: int, y: int) -> bool {
        0 <= x < self.spec_width() && 0 <= y < self.spec_height()
    }

    /// Position of the point in the row-major pixel sequence.
    pub open spec fn offset(&self, x: int, y: int) -> int {
        y * self.spec_width() + x
    }

    /// A framebuffer holds one pixel for each point of its grid.
    pub proof fn lemma_size(&self)
        requires
            self.wf(),
        ensures
            self@.len() == self.spec_width() * self.spec_height(),
    {
    }

    /// A black framebuffer of the given size.
    pub fn new(width: u32, height: u32) -> (fb: Self)
        requires
            width * height <= u32::MAX,
        ensures
            fb.wf(),
            fb.spec_width() == width,
            fb.spec_height() == height,
            fb@ == uniform_frame((width * height) as nat, BLACK),
    {
        let size: u32 = width * height;
        let data: Vec<u16> = vec![BLACK; size as usize];
        Framebuffer { data, width, height }
    }

    #[verifier::when_used_as_spec(spec_width)]
    pub fn width(&self) -> (w: u32)
        ensures
            w == self.spec_width(),
    {
        self.width
    }

    #[verifier::when_used_as_spec(spec_height)]
    pub fn height(&self) -> (h: u32)
        ensures
            h == self.spec_height(),
    {
        self.height
    }

    /// The pixels, row by row.
    pub fn pixels(&self) -> (p: &Vec<u16>)
        ensures
            p@ == self@,
            p@.len() == self.spec_width() * self.spec_height(),
    {
        proof {
            use_type_invariant(self);
        }
        &self.data
    }

    /// Colours one pixel. A point off the grid is ignored.
    pub fn set_pixel(&mut self, x: i32, y: i32, color: u16)
        ensures
            final(self).spec_width() == old(self).spec_width(),
            final(self).spec_height() == old(self).spec_height(),
            final(self)@ == if old(self).contains(x as int, y as int) {
                old(self)@.update(old(self).offset(x as int, y as int), color)
            } else {
                old(self)@
            },
    {
        proof {
            use_type_invariant(&*self);
        }
        if x >= 0 && (x as i64) < (self.width as i64) && y >= 0 && (y as i64) < (self.height as i64) {
            let len: usize = self.data.len();
            let row: u64 = y as u64;
            let column: u64 = x as u64;
            let stride: u64 = self.width as u64;
            assert(0 <= row * stride <= row * stride + column < self.width * self.height)
                by (nonlinear_arith)
                requires
                    stride == self.width,
                    0 <= column < stride,
                    0 <= row < self.height,
            ;
            let index: u64 = row * stride + column;
            self.data[index as usize] = color;
        }
    }

    /// Gives every pixel the same colour.
    pub fn fill(&mut self, color: u16)
        ensures
            final(self).spec_width() == old(self).spec_width(),
            final(self).spec_height() == old(self).spec_height(),
            final(self)@ == uniform_frame(old(self)@.len(), color),
    {
        proof {
            use_type_invariant(&*self);
        }
        let n: usize = self.data.len();
        let mut i: usize = 0;
        while i < n
            invariant
                i <= n,
                n == self.data@.len(),
                self.data@.len() == old(self).data@.len(),
                self.data@.len() == self.width * self.height,
                self.width == old(self).width,
                self.height == old(self).height,
                forall|j: int| 0 <= j < i ==> self.data@[j] == color,
            decreases n - i,
        {
            self.data[i] = color;
            i += 1;
        }
    }
}


/// The two execution contexts that share the framebuffer.
#[derive(Clone, Copy, Debug, PartialEq, Eq, Structural)]
pub enum Party {
    /// The context that draws a frame.
    Renderer,
    /// The context that sends a finished frame to the panel.
    Transfer,
}

/// What the two contexts can see of the pipeline at one instant.
pub struct PipelineState {
    /// The pixels of the single framebuffer.
    pub pixels: Seq<u16>,
    /// Who holds the framebuffer lock.
    pub holder: Option<Party>,
    /// Whether a finished frame waits for the transfer worker.
    pub frame_ready: bool,
}

/// One atomic step of either context.
pub enum PipelineEvent {
    /// `who` asks for the framebuffer lock.
    Lock { who: Party },
    /// `who` gives the lock back.
    Unlock { who: Party },
    /// `who` colours the pixel at `index`.
    Draw { who: Party, index: int, color: u16 },
    /// The renderer announces a finished frame.
    SignalFrameReady,
    /// The transfer worker consumes the announcement.
    TakeFrameReady,
}

/// The state after one event. An event that is not enabled (a lock that is
/// taken, a draw without the lock, a pixel off the grid) leaves the state as
/// it is: the context that issued it has to wait or has done nothing.
pub open spec fn pipeline_step(s: PipelineState, e: PipelineEvent) -> PipelineState {
    match e {
        PipelineEvent::Lock { who } => if s.holder is None {
            PipelineState { holder: Some(who), ..s }
        } else {
            s
        },
        PipelineEvent::Unlock { who } => if s.holder == Some(who) {
            PipelineState { holder: None, ..s }
        } else {
            s
        },
        PipelineEvent::Draw { who, index, color } => if s.holder == Some(who) && 0 <= index
            < s.pixels.len() {
            PipelineState { pixels: s.pixels.update(index, color), ..s }
        } else {
            s
        },
        PipelineEvent::SignalFrameReady => PipelineState { frame_ready: true, ..s },
        PipelineEvent::TakeFrameReady => PipelineState { frame_ready: false, ..s },
    }
}

/// The single framebuffer together with its lock and the frame-ready flag.
///
/// The lock is a state, not a blocking call: `lock` answers whether the caller
/// got it, and a caller that did not has to wait and ask again.
pub struct SharedFramebuffer {
    framebuffer: Framebuffer,
    holder: Option<Party>,
    frame_ready: bool,
}

impl View for SharedFramebuffer {
    type V = PipelineState;

    closed spec fn view(&self) -> PipelineState {
        PipelineState {
            pixels: self.framebuffer@,
            holder: self.holder,
            frame_ready: self.frame_ready,
        }
    }
}

impl SharedFramebuffer {
    /// Width of the framebuffer in pixels.
    pub closed spec fn spec_width(&self) -> u32 {
        self.framebuffer.spec_width()
    }

    /// Height of the framebuffer in pixels.
    pub closed spec fn spec_height(&self) -> u32 {
        self.framebuffer.spec_height()
    }

    /// Index of the point in the pixel sequence, or -1 for a point off the grid.
    pub open spec fn index_of(&self, x: int, y: int) -> int {
        if 0 <= x < self.spec_width() && 0 <= y < self.spec_height() {
            y * self.spec_width() + x
        } else {
            -1
        }
    }

    /// A black, unlocked framebuffer with no frame pending.
    pub fn new(width: u32, height: u32) -> (shared: Self)
        requires
            width * height <= u32::MAX,
        ensures
            shared.spec_width() == width,
            shared.spec_height() == height,
            shared@ == (PipelineState {
                pixels: uniform_frame((width * height) as nat, BLACK),
                holder: None,
                frame_ready: false,
            }),
    {
        SharedFramebuffer {
            framebuffer: Framebuffer::new(width, height),
            holder: None,
            frame_ready: false,
        }
    }

    #[verifier::when_used_as_spec(spec_width)]
    pub fn width(&self) -> (w: u32)
        ensures
            w == self.spec_width(),
    {
        self.framebuffer.width()
    }

    #[verifier::when_used_as_spec(spec_height)]
    pub fn height(&self) -> (h: u32)
        ensures
            h == self.spec_height(),
    {
        self.framebuffer.height()
    }

    /// Asks for the lock. The caller holds it afterwards exactly if nobody held
    /// it before.
    pub fn lock(&mut self, who: Party) -> (acquired: bool)
        ensures
            acquired == (old(self)@.holder is None),
            final(self)@ == pipeline_step(old(self)@, PipelineEvent::Lock { who }),
            final(self).spec_width() == old(self).spec_width(),
            final(self).spec_height() == old(self).spec_height(),
    {
        if self.holder.is_none() {
            self.holder = Some(who);
            true
        } else {
            false
        }
    }

    /// Gives the lock back, if `who` holds it.
    pub fn unlock(&mut self, who: Party)
        ensures
            final(self)@ == pipeline_step(old(self)@, PipelineEvent::Unlock { who }),
            final(self).spec_width() == old(self).spec_width(),
            final(self).spec_height() == old(self).spec_height(),
    {
        if self.holds(who) {
            self.holder = None;
        }
    }

    /// Whether `who` holds the lock.
    pub fn holds(&self, who: Party) -> (held: bool)
        ensures
            held == (self@.holder == Some(who)),
    {
        match self.holder {
            Some(holder) => holder == who,
            None => false,
        }
    }

    /// Colours one pixel on behalf of `who`, who must hold the lock; without
    /// the lock nothing is drawn and the answer is `false`.
    pub fn draw(&mut self, who: Party, x: i32, y: i32, color: u16) -> (drawn: bool)
        ensures
            drawn == (old(self)@.holder == Some(who)),
            final(self)@ == pipeline_step(
                old(self)@,
                PipelineEvent::Draw { who, index: old(self).index_of(x as int, y as int), color },
            ),
            final(self).spec_width() == old(self).spec_width(),
            final(self).spec_height() == old(self).spec_height(),
    {
        proof {
            use_type_invariant(&self.framebuffer);
            let w = self.framebuffer.spec_width() as int;
            let h = self.framebuffer.spec_height() as int;
            if 0 <= x < w && 0 <= y < h {
                assert(0 <= y * w + x < w * h) by (nonlinear_arith)
                    requires
                        0 <= x < w,
                        0 <= y < h,
                ;
            }
        }
        if self.holds(who) {
            self.framebuffer.set_pixel(x, y, color);
            true
        } else {
            false
        }
    }

    /// The frame as `who` may read it: the pixels while `who` holds the lock,
    /// nothing otherwise.
    pub fn frame(&self, who: Party) -> (pixels: Option<&Vec<u16>>)
        ensures
            pixels is Some <==> self@.holder == Some(who),
            pixels matches Some(p) ==> p@ == self@.pixels,
    {
        if self.holds(who) {
            Some(self.framebuffer.pixels())
        } else {
            None
        }
    }

    /// Announces a finished frame. Announcements do not queue: any number of
    /// them before the next `take_frame_ready` count as one.
    pub fn signal_frame_ready(&mut self)
        ensures
            final(self)@ == pipeline_step(old(self)@, PipelineEvent::SignalFrameReady),
            final(self).spec_width() == old(self).spec_width(),
            final(self).spec_height() == old(self).spec_height(),
    {
        self.frame_ready = true;
    }

    /// Consumes the announcement and says whether there was one.
    pub fn take_frame_ready(&mut self) -> (ready: bool)
        ensures
            ready == old(self)@.frame_ready,
            final(self)@ == pipeline_step(old(self)@, PipelineEvent::TakeFrameReady),
            final(self).spec_width() == old(self).spec_width(),
            final(self).spec_height() == old(self).spec_height(),
    {
        let ready = self.frame_ready;
        self.frame_ready = false;
        ready
    }
}


/// The display as the render loop sees it: the shared framebuffer and the
/// brightness that the transfer worker applies with the next frame.
pub struct DisplayDriver {
    shared_fb: SharedFramebuffer,
    backlight_brightness: u8,
}

impl DisplayDriver {
    /// The shared framebuffer.
    pub closed spec fn spec_framebuffer(&self) -> SharedFramebuffer {
        self.shared_fb
    }

    /// The brightness that was asked for, in percent.
    pub closed spec fn spec_backlight(&self) -> u8 {
        self.backlight_brightness
    }

    /// A display of `DISPLAY_WIDTH` by `DISPLAY_HEIGHT` black pixels at full
    /// brightness.
    pub fn new() -> (driver: Self)
        ensures
            driver.spec_backlight() == 100,
            driver.spec_framebuffer().spec_width() == DISPLAY_WIDTH,
            driver.spec_framebuffer().spec_height() == DISPLAY_HEIGHT,
            driver.spec_framebuffer()@ == (PipelineState {
                pixels: uniform_frame((DISPLAY_WIDTH * DISPLAY_HEIGHT) as nat, BLACK),
                holder: None,
                frame_ready: false,
            }),
    {
        DisplayDriver {
            shared_fb: SharedFramebuffer::new(DISPLAY_WIDTH, DISPLAY_HEIGHT),
            backlight_brightness: 100,
        }
    }

    /// Stores the brightness in percent; more than 100 is stored as 100. It
    /// takes effect with the next frame.
    pub fn set_backlight(&mut self, brightness: u8)
        ensures
            final(self).spec_backlight() == clamp_percent(brightness),
            final(self).spec_framebuffer() == old(self).spec_framebuffer(),
    {
        self.backlight_brightness = if brightness > 100 {
            100
        } else {
            brightness
        };
    }

    /// The brightness that was asked for.
    #[verifier::when_used_as_spec(spec_backlight)]
    pub fn get_backlight(&self) -> (brightness: u8)
        ensures
            brightness == self.spec_backlight(),
    {
        self.backlight_brightness
    }

    /// The shared framebuffer, to read.
    pub fn framebuffer(&self) -> (shared: &SharedFramebuffer)
        ensures
            *shared == self.spec_framebuffer(),
    {
        &self.shared_fb
    }

    /// The shared framebuffer, to lock, draw and signal.
    pub fn framebuffer_mut(&mut self) -> (shared: &mut SharedFramebuffer)
        ensures
            *shared == old(self).spec_framebuffer(),
            final(self).spec_framebuffer() == *final(shared),
            final(self).spec_backlight() == old(self).spec_backlight(),
    {
        &mut self.shared_fb
    }
}

/// The part of the transfer worker that is not hardware: the brightness it
/// has applied and the frames it has sent.
#[derive(Clone, Copy, Debug)]
pub struct TransferWorker {
    max_duty: u32,
    current_brightness: u8,
    frame_count: u32,
}

impl TransferWorker {
    /// Full duty of the backlight channel.
    pub closed spec fn max_duty(&self) -> u32 {
        self.max_duty
    }

    /// The brightness that was last applied.
    pub closed spec fn spec_brightness(&self) -> u8 {
        self.current_brightness
    }

    /// How many frames were sent, counted modulo 2^32.
    pub closed spec fn spec_frame_count(&self) -> u32 {
        self.frame_count
    }

    /// The worker as it starts: full brightness applied, no frame sent.
    pub fn new(max_duty: u32) -> (worker: Self)
        ensures
            worker.max_duty() == max_duty,
            worker.spec_brightness() == 100,
            worker.spec_frame_count() == 0,
    {
        TransferWorker { max_duty, current_brightness: 100, frame_count: 0 }
    }

    /// The duty to write before the next frame is sent, if the brightness that
    /// was asked for differs from the one that was applied.
    pub fn apply_backlight(&mut self, brightness: u8) -> (duty: Option<u32>)
        ensures
            final(self).max_duty() == old(self).max_duty(),
            final(self).spec_frame_count() == old(self).spec_frame_count(),
            final(self).spec_brightness() == brightness,
            duty == if brightness != old(self).spec_brightness() {
                Some(duty_for(old(self).max_duty(), brightness) as u32)
            } else {
                None
            },
            duty matches Some(d) ==> d == duty_for(old(self).max_duty(), brightness),
    {
        if brightness != self.current_brightness {
            let duty = backlight_duty(self.max_duty, brightness);
            self.current_brightness = brightness;
            Some(duty)
        } else {
            None
        }
    }

    /// Counts a frame that was sent.
    pub fn frame_sent(&mut self)
        ensures
            final(self).max_duty() == old(self).max_duty(),
            final(self).spec_brightness() == old(self).spec_brightness(),
            final(self).spec_frame_count() == if old(self).spec_frame_count() == u32::MAX {
                0u32
            } else {
                (old(self).spec_frame_count() + 1) as u32
            },
    {
        self.frame_count = if self.frame_count == u32::MAX {
            0
        } else {
            self.frame_count + 1
        };
    }

    #[verifier::when_used_as_spec(spec_frame_count)]
    pub fn frame_count(&self) -> (count: u32)
        ensures
            count == self.spec_frame_count(),
    {
        self.frame_count
    }
}

} // verus!
