use tama_core::buzzer::{BuzzerTrait, StubBuzzer};
use tama_core::consts::{HEIGHT, WIDTH};
use tama_core::input::{Button, ButtonState, Input};
use tama_core::log_buffer::{LogEntry, LogLevel};
use tama_core::output::Output;
use tama_core::scenes::dvd::DvdScene;
use tama_core::scenes::menu::MenuScene;
use tama_core::scenes::selftest::{rows_of_entry, split_pieces, tune_note, SelfTestScene};
use tama_core::scenes::{SceneWrapper, UpdateResult};
use std::sync::Mutex;

/// A buzzer that writes down what it is asked for.
struct Recorder {
    beeps: Mutex<Vec<(u32, u32)>>,
}

impl BuzzerTrait for Recorder {
    fn beep(&self, frequency_hz: u32, duration_ms: u32) {
        self.beeps.lock().unwrap().push((frequency_hz, duration_ms));
    }
}

#[test]
fn output_hands_the_tone_to_the_buzzer() {
    let recorder = Recorder { beeps: Mutex::new(Vec::new()) };
    let output = Output::new(&recorder);
    output.play_tone(440, 20);
    output.play_tone(58, 500);
    assert_eq!(*recorder.beeps.lock().unwrap(), vec![(440, 20), (58, 500)]);
    Output::new(&StubBuzzer).play_tone(440, 20);
    StubBuzzer.beep(1, 1);
}

#[test]
fn the_menu_starts_the_game_when_a_goes_down() {
    let mut menu = MenuScene::new();
    let mut input = Input::new();
    assert_eq!(menu.update(&input), UpdateResult::Stay);
    input.set_button(Button::A, ButtonState::Pressed);
    assert_eq!(menu.update(&input), UpdateResult::Stay);
    input.set_button(Button::B, ButtonState::JustPressed);
    assert_eq!(menu.update(&input), UpdateResult::Stay);
    input.set_button(Button::A, ButtonState::JustPressed);
    assert_eq!(menu.update(&input), UpdateResult::ChangeScene(SceneWrapper::FlappyScene));
}

#[test]
fn the_disc_turns_back_at_the_edges() {
    let mut disc = DvdScene::new();
    assert_eq!(disc.center(), ((WIDTH / 2) as i32, (HEIGHT / 2) as i32));
    assert_eq!(disc.radius(), 64);
    assert_eq!(disc.update(), UpdateResult::Stay);
    assert_eq!(disc.center(), (121, 139));
    let mut min = (121, 139);
    let mut max = (121, 139);
    for _ in 0..2000 {
        disc.update();
        let (x, y) = disc.center();
        min = (min.0.min(x), min.1.min(y));
        max = (max.0.max(x), max.1.max(y));
    }
    assert_eq!(min, (64, 64));
    assert_eq!(max, (176, 216));
}

#[test]
fn the_disc_reaches_the_right_edge_after_56_ticks() {
    let mut disc = DvdScene::new();
    for _ in 0..56 {
        disc.update();
    }
    assert_eq!(disc.center(), (176, 84));
    disc.update();
    assert_eq!(disc.center(), (175, 83));
}

fn entries(n: usize) -> Vec<LogEntry> {
    (0..n).map(|i| LogEntry::new(LogLevel::Warn, &format!("line {}", i))).collect()
}

#[test]
fn the_boot_screen_shows_the_last_sixteen_log_lines() {
    let output = Output::new(&StubBuzzer);
    let mut scene = SelfTestScene::new();
    assert_eq!(scene.elapsed_ms(), 0);
    assert_eq!(scene.update(&entries(3), &output), UpdateResult::Stay);
    assert_eq!(scene.elapsed_ms(), 32);
    let shown: Vec<&str> = scene.log_entries().iter().map(|e| e.as_str()).collect();
    assert_eq!(shown, vec!["line 0", "line 1", "line 2"]);
    assert_eq!(scene.update(&entries(20), &output), UpdateResult::Stay);
    let shown: Vec<&str> = scene.log_entries().iter().map(|e| e.as_str()).collect();
    assert_eq!(shown.len(), 16);
    assert_eq!(shown[0], "line 4");
    assert_eq!(shown[15], "line 19");
    assert_eq!(scene.log_entries()[0].level, LogLevel::Warn);
}

#[test]
fn the_boot_screen_plays_its_tune_and_goes_to_the_menu() {
    let recorder = Recorder { beeps: Mutex::new(Vec::new()) };
    let output = Output::new(&recorder);
    let mut scene = SelfTestScene::new();
    let logs = entries(2);
    // 62 ticks of 32 ms stay below two seconds
    for _ in 0..62 {
        assert_eq!(scene.update(&logs, &output), UpdateResult::Stay);
    }
    assert!(recorder.beeps.lock().unwrap().is_empty());
    for _ in 0..29 {
        assert_eq!(scene.update(&logs, &output), UpdateResult::Stay);
    }
    assert_eq!(scene.update(&logs, &output), UpdateResult::ChangeScene(SceneWrapper::MenuScene));
    let beeps = recorder.beeps.lock().unwrap();
    assert_eq!(beeps.len(), 30);
    let notes = [293, 329, 349, 329, 293, 261, 261, 261, 261, 261];
    for (i, beep) in beeps.iter().enumerate() {
        assert_eq!(*beep, (notes[i / 3], 50));
    }
    assert_eq!(scene.log_entries().len(), 2);
}

#[test]
fn the_tune() {
    assert_eq!(tune_note(0), (293, 50));
    assert_eq!(tune_note(1), (329, 50));
    assert_eq!(tune_note(2), (349, 50));
    assert_eq!(tune_note(3), (329, 50));
    assert_eq!(tune_note(4), (293, 50));
    for note in 5..10 {
        assert_eq!(tune_note(note), (261, 50));
    }
}

#[test]
fn a_message_is_cut_at_its_line_breaks() {
    assert_eq!(split_pieces(""), vec![""]);
    assert_eq!(split_pieces("one"), vec!["one"]);
    assert_eq!(split_pieces("one\ntwo"), vec!["one", "two"]);
    assert_eq!(split_pieces("\none\n\ntwo\n"), vec!["", "one", "", "two", ""]);
    assert_eq!(split_pieces("héllo\nwörld"), vec!["héllo", "wörld"]);
}

#[test]
fn the_first_row_of_an_entry_carries_the_level() {
    let entry = LogEntry::new(LogLevel::Error, "boot failed\nretrying\n");
    assert_eq!(rows_of_entry(&entry), vec!["[E] boot failed", "    retrying", "    "]);
    let entry = LogEntry::new(LogLevel::Notice, "");
    assert_eq!(rows_of_entry(&entry), vec!["[N] "]);
}

#[test]
fn log_rows_go_down_the_screen_from_row_12() {
    let output = Output::new(&StubBuzzer);
    let mut scene = SelfTestScene::new();
    let logs = vec![
        LogEntry::new(LogLevel::Warn, "first"),
        LogEntry::new(LogLevel::Info, "second\nline"),
    ];
    scene.update(&logs, &output);
    let rows: Vec<(i32, String)> = scene.log_rows().into_iter().map(|r| (r.y, r.text)).collect();
    assert_eq!(
        rows,
        vec![
            (12, "[W] first".to_string()),
            (23, "[I] second".to_string()),
            (34, "    line".to_string()),
        ]
    );
}

#[test]
fn log_rows_stop_at_the_bottom_of_the_screen() {
    let output = Output::new(&StubBuzzer);
    let mut scene = SelfTestScene::new();
    let logs: Vec<LogEntry> =
        (0..16).map(|i| LogEntry::new(LogLevel::Warn, &format!("a{}\nb{}", i, i))).collect();
    scene.update(&logs, &output);
    let rows = scene.log_rows();
    assert_eq!(rows.len(), 25);
    assert_eq!(rows[24].y, 276);
    assert_eq!(rows[24].text, "[W] a12");
    assert_eq!(rows[23].text, "    b11");
    assert!(SelfTestScene::new().log_rows().is_empty());
}
