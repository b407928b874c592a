use file_transfer::config::Config;
use file_transfer::reply::{File, Reply};
use file_transfer::upload::{Action, Clock, Event, Phase, Upload};

fn at(micros: u128) -> Clock {
    Clock { secs: (micros / 1_000_000) as u64, micros }
}

fn field(name: &str) -> Event {
    Event::Field { file_name: Some(String::from(name)) }
}

fn json(status: u16, name: &str, time: u64, err: &str) -> Action {
    Action::Respond {
        reply: Reply::Json {
            status,
            file: File { name: String::from(name), time, err: String::from(err) },
        },
    }
}

fn remove(path: &str) -> Action {
    Action::RemoveFile { path: String::from(path) }
}

fn awaiting() -> Upload {
    let (state, _) = Upload::start(&Config::default());
    let (state, action) = state.step(Event::Done, at(1));
    assert_eq!(action, Action::NextField);
    state
}

fn receiving(name: &str, micros: u128) -> Upload {
    let (state, _) = awaiting().step(field(name), at(micros));
    let (state, action) = state.step(Event::Done, at(micros));
    assert_eq!(action, Action::NextChunk);
    state
}

#[test]
fn start_creates_the_storage_directory() {
    let (state, action) = Upload::start(&Config::default());
    assert_eq!(action, Action::CreateDir { path: String::from("/tmp/rest-api/upload") });
    assert_eq!(state.phase, Phase::Preparing);
    assert_eq!(state.name, "");
    assert_eq!(state.dir, "/tmp/rest-api/upload");
    assert!(!state.is_finished());
}

#[test]
fn upload_of_report_txt() {
    let stamp: u128 = 1700000000123456;
    let (state, _) = Upload::start(&Config::default());
    let (state, action) = state.step(Event::Done, at(stamp));
    assert_eq!(action, Action::NextField);
    assert_eq!(state.phase, Phase::Awaiting);
    let (state, action) = state.step(field("report.txt"), at(stamp));
    assert_eq!(
        action,
        Action::CreateFile {
            path: String::from("/tmp/rest-api/upload/1700000000123456 - report.txt"),
        }
    );
    assert_eq!(state.phase, Phase::Opening);
    let (state, action) = state.step(Event::Done, at(stamp));
    assert_eq!(action, Action::NextChunk);
    assert_eq!(state.phase, Phase::Receiving);
    let hello = vec![104u8, 101, 108, 108, 111];
    let (state, action) = state.step(Event::Chunk { data: hello.clone() }, at(stamp));
    assert_eq!(action, Action::Append { data: hello });
    assert_eq!(state.phase, Phase::Writing);
    let (state, action) = state.step(Event::Done, at(stamp));
    assert_eq!(action, Action::NextChunk);
    let (state, action) = state.step(Event::End, at(stamp));
    assert_eq!(action, Action::NextField);
    assert_eq!(state.phase, Phase::Awaiting);
    let (state, action) = state.step(Event::End, at(stamp + 2_000_000));
    assert_eq!(action, json(200, "1700000000123456 - report.txt", 1700000002, ""));
    assert!(state.is_finished());
    let name = state.name;
    let (digits, rest) = name.split_at(16);
    assert!(digits.chars().all(|c| c.is_ascii_digit()));
    assert_eq!(rest, " - report.txt");
}

#[test]
fn upload_with_a_traversal_name_stays_in_the_directory() {
    let (state, action) = awaiting().step(field("../../etc/passwd"), at(42));
    assert_eq!(
        action,
        Action::CreateFile { path: String::from("/tmp/rest-api/upload/42 - ....etcpasswd") }
    );
    assert_eq!(state.name, "42 - ....etcpasswd");
    let (state, action) = awaiting().step(field("/abs/olute"), at(43));
    assert_eq!(
        action,
        Action::CreateFile { path: String::from("/tmp/rest-api/upload/43 - absolute") }
    );
    assert_eq!(state.name, "43 - absolute");
}

#[test]
fn upload_without_parts_answers_with_an_empty_name() {
    let (state, action) = awaiting().step(Event::End, at(5_000_000));
    assert_eq!(action, json(200, "", 5, ""));
    assert!(state.is_finished());
}

#[test]
fn upload_of_a_part_without_file_name_is_refused() {
    let (state, action) = awaiting().step(Event::Field { file_name: None }, at(6_000_000));
    assert_eq!(action, json(400, "", 6, "file name is missing"));
    assert!(state.is_finished());
}

#[test]
fn upload_answers_with_the_last_part() {
    let state = receiving("first.txt", 10);
    let (state, action) = state.step(Event::End, at(11));
    assert_eq!(action, Action::NextField);
    let (state, action) = state.step(field("second.txt"), at(12));
    assert_eq!(
        action,
        Action::CreateFile { path: String::from("/tmp/rest-api/upload/12 - second.txt") }
    );
    let (state, _) = state.step(Event::Done, at(13));
    let (state, _) = state.step(Event::End, at(14));
    let (_, action) = state.step(Event::End, at(3_000_000));
    assert_eq!(action, json(200, "12 - second.txt", 3, ""));
}

#[test]
fn upload_of_an_empty_part() {
    let state = receiving("empty.bin", 20);
    let (state, action) = state.step(Event::End, at(21));
    assert_eq!(action, Action::NextField);
    let (_, action) = state.step(Event::End, at(22));
    assert_eq!(action, json(200, "20 - empty.bin", 0, ""));
}

#[test]
fn chunks_are_passed_on_one_by_one() {
    let mut state = receiving("big.bin", 30);
    for round in 0..50u8 {
        let chunk = vec![round; 1000];
        let (next, action) = state.step(Event::Chunk { data: chunk.clone() }, at(31));
        assert_eq!(action, Action::Append { data: chunk });
        let (next, action) = next.step(Event::Done, at(32));
        assert_eq!(action, Action::NextChunk);
        assert_eq!(next.phase, Phase::Receiving);
        assert_eq!(next.name, "30 - big.bin");
        state = next;
    }
}

#[test]
fn failure_to_create_the_directory() {
    let (state, _) = Upload::start(&Config::default());
    let (state, action) = state.step(Event::Failed, at(7_000_000));
    assert_eq!(action, json(500, "", 7, "internal error"));
    assert!(state.is_finished());
}

#[test]
fn failure_to_read_the_request() {
    let (_, action) = awaiting().step(Event::Failed, at(8_000_000));
    assert_eq!(action, json(500, "", 8, "internal error"));
}

#[test]
fn failure_to_create_the_file() {
    let (state, _) = awaiting().step(field("a"), at(50));
    let (state, action) = state.step(Event::Failed, at(9_000_000));
    assert_eq!(action, json(500, "50 - a", 9, "internal error"));
    assert!(state.is_finished());
}

#[test]
fn failure_to_read_a_chunk() {
    let (state, action) = receiving("a", 60).step(Event::Failed, at(1_000_000));
    assert_eq!(action, remove("/tmp/rest-api/upload/60 - a"));
    assert_eq!(state.phase, Phase::Discarding);
    assert!(!state.is_finished());
    let (state, action) = state.step(Event::Done, at(2_000_000));
    assert_eq!(action, json(500, "60 - a", 2, "internal error"));
    assert!(state.is_finished());
}

#[test]
fn failure_to_write_a_chunk() {
    let (state, _) = receiving("a", 70).step(Event::Chunk { data: vec![1u8] }, at(71));
    let (state, action) = state.step(Event::Failed, at(2_000_000));
    assert_eq!(action, remove("/tmp/rest-api/upload/70 - a"));
    assert_eq!(state.phase, Phase::Discarding);
    let (state, action) = state.step(Event::Failed, at(3_000_000));
    assert_eq!(action, json(500, "70 - a", 3, "internal error"));
    assert!(state.is_finished());
}

#[test]
fn unexpected_events_end_the_request() {
    let (_, action) = awaiting().step(Event::Done, at(1_000_000));
    assert_eq!(action, json(500, "", 1, "internal error"));
    let (_, action) = awaiting().step(Event::Chunk { data: vec![1u8] }, at(1_000_000));
    assert_eq!(action, json(500, "", 1, "internal error"));
    let (state, action) = receiving("a", 80).step(field("b"), at(1_000_000));
    assert_eq!(action, remove("/tmp/rest-api/upload/80 - a"));
    let (_, action) = state.step(Event::Done, at(1_000_000));
    assert_eq!(action, json(500, "80 - a", 1, "internal error"));
    let (state, _) = Upload::start(&Config::default());
    let (_, action) = state.step(Event::End, at(1_000_000));
    assert_eq!(action, json(500, "", 1, "internal error"));
}

#[test]
fn a_finished_upload_stays_finished() {
    let (state, _) = awaiting().step(Event::End, at(5_000_000));
    let (state, action) = state.step(Event::Done, at(6_000_000));
    assert_eq!(action, json(500, "", 6, "internal error"));
    assert!(state.is_finished());
}
