use tama_core::peripherals::display_driver::{
    DisplayDriver, Framebuffer, Party, SharedFramebuffer, TransferWorker, BLACK, DISPLAY_HEIGHT,
    DISPLAY_WIDTH,
};

#[test]
fn a_new_framebuffer_is_black() {
    let fb = Framebuffer::new(4, 3);
    assert_eq!(fb.width(), 4);
    assert_eq!(fb.height(), 3);
    assert_eq!(fb.pixels(), &vec![BLACK; 12]);
    assert!(Framebuffer::new(0, 7).pixels().is_empty());
}

#[test]
fn set_pixel_writes_row_by_row() {
    let mut fb = Framebuffer::new(4, 3);
    fb.set_pixel(0, 0, 1);
    fb.set_pixel(3, 0, 2);
    fb.set_pixel(1, 2, 3);
    fb.set_pixel(3, 2, 4);
    let mut expected = vec![BLACK; 12];
    expected[0] = 1;
    expected[3] = 2;
    expected[9] = 3;
    expected[11] = 4;
    assert_eq!(fb.pixels(), &expected);
}

#[test]
fn set_pixel_ignores_points_off_the_grid() {
    let mut fb = Framebuffer::new(4, 3);
    for (x, y) in [(-1, 0), (0, -1), (4, 0), (0, 3), (i32::MIN, 1), (1, i32::MAX), (4, 3)] {
        fb.set_pixel(x, y, 0xFFFF);
    }
    assert_eq!(fb.pixels(), &vec![BLACK; 12]);
}

#[test]
fn fill_colours_every_pixel() {
    let mut fb = Framebuffer::new(5, 5);
    fb.set_pixel(2, 2, 9);
    fb.fill(0xF800);
    assert_eq!(fb.pixels(), &vec![0xF800u16; 25]);
    assert_eq!((fb.width(), fb.height()), (5, 5));
}

#[test]
fn the_lock_goes_to_one_party_at_a_time() {
    let mut shared = SharedFramebuffer::new(2, 2);
    assert!(!shared.holds(Party::Renderer));
    assert!(shared.lock(Party::Renderer));
    assert!(shared.holds(Party::Renderer));
    assert!(!shared.lock(Party::Transfer));
    assert!(!shared.lock(Party::Renderer));
    assert!(!shared.holds(Party::Transfer));
    shared.unlock(Party::Transfer);
    assert!(shared.holds(Party::Renderer));
    shared.unlock(Party::Renderer);
    assert!(!shared.holds(Party::Renderer));
    assert!(shared.lock(Party::Transfer));
    assert!(shared.holds(Party::Transfer));
}

#[test]
fn drawing_and_reading_need_the_lock() {
    let mut shared = SharedFramebuffer::new(2, 2);
    assert!(!shared.draw(Party::Renderer, 0, 0, 5));
    assert!(shared.frame(Party::Renderer).is_none());
    assert!(shared.lock(Party::Renderer));
    assert!(shared.draw(Party::Renderer, 1, 0, 5));
    assert!(!shared.draw(Party::Transfer, 0, 0, 6));
    assert!(shared.frame(Party::Transfer).is_none());
    assert_eq!(shared.frame(Party::Renderer), Some(&vec![0, 5, 0, 0]));
    assert!(shared.draw(Party::Renderer, 9, 9, 7));
    assert_eq!(shared.frame(Party::Renderer), Some(&vec![0, 5, 0, 0]));
    shared.unlock(Party::Renderer);
    assert!(shared.lock(Party::Transfer));
    assert_eq!(shared.frame(Party::Transfer), Some(&vec![0, 5, 0, 0]));
}

#[test]
fn frame_ready_signals_collapse_to_one() {
    let mut shared = SharedFramebuffer::new(1, 1);
    assert!(!shared.take_frame_ready());
    shared.signal_frame_ready();
    shared.signal_frame_ready();
    shared.signal_frame_ready();
    assert!(shared.take_frame_ready());
    assert!(!shared.take_frame_ready());
    shared.signal_frame_ready();
    assert!(shared.take_frame_ready());
}

/// The renderer of the interleaving tests: locks, paints one pixel per step
/// with the colour of the current frame, unlocks, signals.
struct Renderer {
    colors: [u16; 2],
    frames: usize,
    painted: Option<u32>,
    to_signal: bool,
}

impl Renderer {
    fn step(&mut self, shared: &mut SharedFramebuffer, width: u32, height: u32) {
        if self.to_signal {
            shared.signal_frame_ready();
            self.to_signal = false;
            self.frames += 1;
            return;
        }
        match self.painted {
            None => {
                if shared.lock(Party::Renderer) {
                    self.painted = Some(0);
                }
            }
            Some(n) if n < width * height => {
                let color = self.colors[self.frames % 2];
                assert!(shared.draw(Party::Renderer, (n % width) as i32, (n / width) as i32, color));
                self.painted = Some(n + 1);
            }
            Some(_) => {
                shared.unlock(Party::Renderer);
                self.painted = None;
                self.to_signal = true;
            }
        }
    }
}

/// The transfer worker of the interleaving tests: waits for a frame, locks,
/// copies one pixel per step, unlocks.
struct Transfer {
    woken: bool,
    copy: Option<Vec<u16>>,
    sent: Vec<Vec<u16>>,
}

impl Transfer {
    fn step(&mut self, shared: &mut SharedFramebuffer, len: usize) {
        if let Some(copy) = &mut self.copy {
            if copy.len() < len {
                let pixels = shared.frame(Party::Transfer).expect("the worker holds the lock");
                copy.push(pixels[copy.len()]);
            } else {
                shared.unlock(Party::Transfer);
                self.sent.push(self.copy.take().unwrap());
            }
        } else if self.woken {
            if shared.lock(Party::Transfer) {
                self.woken = false;
                self.copy = Some(Vec::new());
            }
        } else if shared.take_frame_ready() {
            self.woken = true;
        }
    }
}

fn run_interleaving(seed: u64, steps: usize) -> Vec<Vec<u16>> {
    let (width, height) = (3u32, 2u32);
    let mut shared = SharedFramebuffer::new(width, height);
    let mut renderer = Renderer { colors: [0xAAAA, 0x5555], frames: 0, painted: None, to_signal: false };
    let mut transfer = Transfer { woken: false, copy: None, sent: Vec::new() };
    let mut state = seed;
    for _ in 0..steps {
        state = state.wrapping_mul(6364136223846793005).wrapping_add(1442695040888963407);
        if (state >> 33) % 2 == 0 {
            renderer.step(&mut shared, width, height);
        } else {
            transfer.step(&mut shared, (width * height) as usize);
        }
    }
    transfer.sent
}

#[test]
fn no_transferred_frame_is_a_mixture_of_two_patterns() {
    let mut total = 0;
    for seed in 0..200u64 {
        for frame in run_interleaving(seed, 600) {
            assert!(
                frame == vec![0xAAAA; 6] || frame == vec![0x5555; 6],
                "torn frame {:?} with seed {}",
                frame,
                seed
            );
            total += 1;
        }
    }
    assert!(total > 200);
}

#[test]
fn the_worker_sends_the_most_recent_frame_not_a_backlog() {
    let mut shared = SharedFramebuffer::new(2, 1);
    for color in [1u16, 2, 3] {
        assert!(shared.lock(Party::Renderer));
        shared.draw(Party::Renderer, 0, 0, color);
        shared.draw(Party::Renderer, 1, 0, color);
        shared.unlock(Party::Renderer);
        shared.signal_frame_ready();
    }
    assert!(shared.take_frame_ready());
    assert!(shared.lock(Party::Transfer));
    assert_eq!(shared.frame(Party::Transfer), Some(&vec![3, 3]));
    shared.unlock(Party::Transfer);
    assert!(!shared.take_frame_ready());
}

#[test]
fn the_renderer_waits_while_a_transfer_is_under_way() {
    let mut shared = SharedFramebuffer::new(1, 1);
    shared.signal_frame_ready();
    assert!(shared.take_frame_ready());
    assert!(shared.lock(Party::Transfer));
    assert!(!shared.lock(Party::Renderer));
    assert!(!shared.draw(Party::Renderer, 0, 0, 9));
    shared.unlock(Party::Renderer);
    assert!(shared.holds(Party::Transfer));
    shared.unlock(Party::Transfer);
    assert!(shared.lock(Party::Renderer));
}

#[test]
fn the_display_driver_keeps_brightness_and_framebuffer() {
    let mut display = DisplayDriver::new();
    assert_eq!(display.get_backlight(), 100);
    display.set_backlight(10);
    assert_eq!(display.get_backlight(), 10);
    display.set_backlight(101);
    assert_eq!(display.get_backlight(), 100);
    display.set_backlight(0);
    assert_eq!(display.get_backlight(), 0);
    assert!(display.framebuffer_mut().lock(Party::Renderer));
    assert!(display.framebuffer_mut().draw(Party::Renderer, 239, 279, 7));
    let frame = display.framebuffer().frame(Party::Renderer).unwrap();
    assert_eq!(frame.len(), (DISPLAY_WIDTH * DISPLAY_HEIGHT) as usize);
    assert_eq!(frame[frame.len() - 1], 7);
    assert_eq!(frame[0], BLACK);
    assert_eq!(display.get_backlight(), 0);
}

#[test]
fn the_transfer_worker_writes_a_duty_only_when_the_brightness_changed() {
    let mut worker = TransferWorker::new(1023);
    assert_eq!(worker.apply_backlight(100), None);
    assert_eq!(worker.apply_backlight(10), Some(102));
    assert_eq!(worker.apply_backlight(10), None);
    assert_eq!(worker.apply_backlight(0), Some(0));
    assert_eq!(worker.apply_backlight(100), Some(1023));
}

#[test]
fn the_transfer_worker_counts_frames() {
    let mut worker = TransferWorker::new(1023);
    assert_eq!(worker.frame_count(), 0);
    worker.frame_sent();
    worker.frame_sent();
    assert_eq!(worker.frame_count(), 2);
}
