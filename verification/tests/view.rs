use intercept::capture::{Capture, BUFFER_SIZE};
use intercept::command::{Action, Commands};
use intercept::draw::{fill, line_numbers, list, log, status_line, Colour, LogEntry, Style};
use intercept::session::Session;
use intercept::ui::{Encoding, UI};
use intercept::Request;

const LOG_STYLE: &str = "\x1b[1m\x1b[38;2;84;39;143;48;2;203;201;226m";

fn colour(red: u32, green: u32, blue: u32) -> Colour {
    Colour::TrueColour { red, green, blue }
}

#[test]
fn style_parameters() {
    let style = Style::new(Some(colour(84, 39, 143)), Some(colour(203, 201, 226)));
    assert_eq!(style.get_style(), "38;2;84;39;143;48;2;203;201;226");
    assert_eq!(Style::new(Some(colour(0, 0, 0)), None).get_style(), "38;2;0;0;0");
    assert_eq!(Style::new(None, Some(colour(255, 7, 10))).get_style(), "48;2;255;7;10");
    assert_eq!(Style::new(None, None).get_style(), "");
    assert_eq!(
        Style::new(Some(colour(u32::MAX, 256, 1000)), None).get_style(),
        "38;2;4294967295;256;1000"
    );
}

#[test]
fn styled_text() {
    let style = Style::new(Some(colour(1, 2, 3)), None);
    assert_eq!(style.style_string("hi"), "\x1b[38;2;1;2;3mhi\x1b[0m");
    assert_eq!(Style::new(None, None).style_string("hi"), "hi");
    let style = Style::new(Some(colour(1, 2, 3)), Some(colour(4, 5, 6)));
    assert_eq!(style.style_string(""), "\x1b[38;2;1;2;3;48;2;4;5;6m\x1b[0m");
}

#[test]
fn row_numbers() {
    assert_eq!(line_numbers((3, 9), 6), vec!["\x1b[3;1H3", "\x1b[4;1H4", "\x1b[5;1H5"]);
    assert_eq!(line_numbers((6, 1), 6), Vec::<String>::new());
    assert_eq!(line_numbers((7, 1), 6), Vec::<String>::new());
}

#[test]
fn filled_rows() {
    assert_eq!(
        fill((1, 1), 2, 3, Some(colour(203, 201, 226))),
        vec!["\x1b[1;1H\x1b[48;2;203;201;226m   \x1b[0m", "\x1b[2;1H\x1b[48;2;203;201;226m   \x1b[0m"]
    );
    assert_eq!(fill((4, 2), 1, 2, None), vec!["\x1b[4;2H  "]);
    assert_eq!(fill((1, 1), 0, 80, None), Vec::<String>::new());
}

#[test]
fn listed_texts() {
    let data = vec![String::from("one"), String::from("two")];
    assert_eq!(
        list((2, 5), &data),
        vec![
            format!("\x1b[2;5H{}one\x1b[0m", LOG_STYLE),
            format!("\x1b[3;5H{}two\x1b[0m", LOG_STYLE),
        ]
    );
}

#[test]
fn log_puts_every_line_on_a_row_of_its_own() {
    let entries = vec![
        Request::new(1, (0..17).collect()),
        Request::new(22, Vec::new()),
        Request::new(333, vec![0xFF]),
    ];
    assert_eq!(
        log((1, 1), &entries, &Encoding::Hex),
        vec![
            format!(
                "\x1b[1;1H{}1 | 00  01  02  03  04  05  06  07  08  09  0A  0B  0C  0D  0E  0F \x1b[0m",
                LOG_STYLE
            ),
            format!("\x1b[2;1H{}  | 10 \x1b[0m", LOG_STYLE),
            format!("\x1b[3;1H{}333 | FF \x1b[0m", LOG_STYLE),
        ]
    );
    assert_eq!(
        log((4, 2), &entries, &Encoding::Protocol(String::from("x"))),
        vec![
            format!("\x1b[4;2H{}1 | ERROR: Unknown protocol x\x1b[0m", LOG_STYLE),
            format!("\x1b[5;2H{}22 | ERROR: Unknown protocol x\x1b[0m", LOG_STYLE),
            format!("\x1b[6;2H{}333 | ERROR: Unknown protocol x\x1b[0m", LOG_STYLE),
        ]
    );
    assert_eq!(log((1, 1), &Vec::<Request>::new(), &Encoding::Hex), Vec::<String>::new());
}

#[test]
fn status_line_shows_the_size() {
    assert_eq!(
        status_line(24, 4),
        vec!["\x1b[24;1H\x1b[47m    \x1b[0m", "\x1b[24;1H\x1b[30;47m24 x 4\x1b[0m"]
    );
}

fn frame(rows: usize, cols: usize, entries: &Vec<Request>, encoding: &Encoding) -> Vec<String> {
    let mut out = fill((1, 1), rows, cols, Some(colour(0xcb, 0xc9, 0xe2)));
    out.extend(log((1, 1), entries, encoding));
    out.extend(status_line(rows, cols));
    out
}

#[test]
fn view_appends_and_renders() {
    let mut ui: UI<Request> = UI::new(Vec::new(), 3, 10);
    assert_eq!(ui.render(), frame(3, 10, &Vec::new(), &Encoding::Hex));
    let mut entries = Vec::new();
    for (timestamp, data) in [(10u128, &b"ab"[..]), (20, &b"GET / HTTP/1.1\r\n\r\n"[..]), (30, &b""[..])] {
        entries.push(Request::new(timestamp, data.to_vec()));
        let out = ui.add_data(Request::new(timestamp, data.to_vec()));
        assert_eq!(out, frame(3, 10, &entries, &Encoding::Hex));
        assert_eq!(ui.render(), out);
    }
    let out = ui.set_encoding(Encoding::Text);
    assert_eq!(out, frame(3, 10, &entries, &Encoding::Text));
    assert!(out.contains(&format!("\x1b[1;1H{}10 | ab\x1b[0m", LOG_STYLE)));
    assert!(out.contains(&format!("\x1b[2;1H{}20 | GET / HTTP/1.1\x1b[0m", LOG_STYLE)));
    let out = ui.set_encoding(Encoding::Protocol(String::from("http")));
    assert_eq!(out, frame(3, 10, &entries, &Encoding::Protocol(String::from("http"))));
    assert!(out.contains(&format!("\x1b[1;1H{}10 | ERROR: Parsing failed.\x1b[0m", LOG_STYLE)));
    assert!(out.contains(&format!("\x1b[2;1H{}20 | method: GET\x1b[0m", LOG_STYLE)));
}

#[test]
fn view_opens_and_closes_the_display() {
    let ui: UI<Request> = UI::new(vec![Request::new(1, vec![1])], 2, 2);
    let mut expected = vec![
        String::from("\x1b[?1049h"),
        String::from("\x1b[2J"),
        String::from("\x1b[?25l"),
    ];
    expected.extend(ui.render());
    assert_eq!(ui.start(), expected);
    assert_eq!(ui.stop(), vec!["\x1b[2J", "\x1b[?1049l", "\x1b[?25h"]);
}

fn keys(commands: &mut Commands, text: &str) -> Vec<Action> {
    text.chars().map(|c| commands.key(c)).collect()
}

#[test]
fn single_key_commands() {
    let mut commands = Commands::new();
    assert_eq!(commands.key('q'), Action::Quit);
    assert_eq!(commands.key('t'), Action::SetEncoding(Encoding::Text));
    assert_eq!(commands.key('x'), Action::SetEncoding(Encoding::Hex));
    assert_eq!(commands.key('z'), Action::Idle);
    assert_eq!(commands.key('Q'), Action::Idle);
    assert_eq!(commands.key(' '), Action::Idle);
    assert_eq!(commands.key('\n'), Action::SetEncoding(Encoding::Protocol(String::new())));
}

#[test]
fn protocol_name_is_collected_up_to_the_line_feed() {
    let mut commands = Commands::new();
    let actions = keys(&mut commands, "phttp\n");
    assert_eq!(actions[..5], [Action::Idle, Action::Idle, Action::Idle, Action::Idle, Action::Idle]);
    assert_eq!(actions[5], Action::SetEncoding(Encoding::Protocol(String::from("http"))));
    assert_eq!(commands.key('x'), Action::SetEncoding(Encoding::Hex));
    assert_eq!(commands.key('\n'), Action::SetEncoding(Encoding::Protocol(String::new())));
}

#[test]
fn command_keys_are_part_of_a_name_while_it_is_collected() {
    let mut commands = Commands::new();
    let actions = keys(&mut commands, "pqtxp q\n");
    assert!(actions[..7].iter().all(|a| *a == Action::Idle));
    assert_eq!(actions[7], Action::SetEncoding(Encoding::Protocol(String::from("qtxp q"))));
    assert_eq!(commands.key('q'), Action::Quit);
}

#[test]
fn capture_reads_until_a_read_is_short() {
    let mut capture = Capture::new(99);
    assert!(capture.read(Some(&[1u8; BUFFER_SIZE])));
    assert!(capture.read(None));
    assert!(capture.read(Some(&[2u8; BUFFER_SIZE])));
    assert!(!capture.read(Some(&[3u8; BUFFER_SIZE - 1])));
    let record = capture.finish();
    assert_eq!(record.timestamp(), "99");
    assert_eq!(record.summary(), format!("3071 bytes {}", "01 ".repeat(32)));
    let lines = record.to_lines(&Encoding::Hex);
    assert_eq!(lines.len(), 192);
    assert!(lines[63].ends_with("01 "));
    assert!(lines[64].ends_with("02 "));
    assert!(lines[128].ends_with("03 "));
    assert!(lines[191].ends_with("03 "));
}

#[test]
fn capture_of_an_empty_read_ends() {
    let mut capture = Capture::new(0);
    assert!(!capture.read(Some(&[])));
    assert_eq!(capture.finish().summary(), "0 bytes <null>");
    let mut capture = Capture::new(0);
    assert!(!capture.read(Some(b"GET / HTTP/1.1\r\n\r\n")));
    assert_eq!(
        capture.finish().parse_protocol("http"),
        vec!["method: GET", "target: /", "version: HTTP/1.1", "message body length: 0 bytes"]
    );
}

#[test]
fn acknowledgment_is_fixed() {
    assert_eq!(Capture::acknowledgment(), "HTTP/1.1 200 OK\r\n\r\n");
    assert_eq!(BUFFER_SIZE, 1024);
}

fn session(rows: usize, cols: usize) -> Session<Request> {
    Session::new(UI::new(Vec::new(), rows, cols))
}

#[test]
fn turn_without_events_paints_nothing() {
    let mut s = session(2, 4);
    assert_eq!(s.turn(None, None), (Vec::new(), false));
    assert_eq!(s.turn(None, Some('z')), (Vec::new(), false));
    assert_eq!(s.turn(None, Some('p')), (Vec::new(), false));
    assert_eq!(s.turn(None, Some('q')), (Vec::new(), false));
}

#[test]
fn turn_appends_what_was_captured() {
    let mut s = session(2, 4);
    let mut entries = Vec::new();
    for timestamp in [5u128, 6, 7] {
        entries.push(Request::new(timestamp, vec![timestamp as u8]));
        let (out, quit) = s.turn(Some(Request::new(timestamp, vec![timestamp as u8])), None);
        assert!(!quit);
        assert_eq!(out, frame(2, 4, &entries, &Encoding::Hex));
    }
}

#[test]
fn turn_applies_capture_before_key() {
    let mut s = session(2, 4);
    let entries = vec![Request::new(9, b"hi".to_vec())];
    let (out, quit) = s.turn(Some(Request::new(9, b"hi".to_vec())), Some('t'));
    assert!(!quit);
    let mut expected = frame(2, 4, &entries, &Encoding::Hex);
    expected.extend(frame(2, 4, &entries, &Encoding::Text));
    assert_eq!(out, expected);
    let (out, quit) = s.turn(Some(Request::new(10, Vec::new())), Some('q'));
    assert!(quit);
    let entries = vec![Request::new(9, b"hi".to_vec()), Request::new(10, Vec::new())];
    assert_eq!(out, frame(2, 4, &entries, &Encoding::Text));
}

#[test]
fn turn_by_turn_a_protocol_is_named() {
    let mut s = session(1, 1);
    let entries = vec![Request::new(1, b"GET / HTTP/1.1\r\n\r\n".to_vec())];
    s.turn(Some(Request::new(1, b"GET / HTTP/1.1\r\n\r\n".to_vec())), None);
    for key in "phttp".chars() {
        assert_eq!(s.turn(None, Some(key)), (Vec::new(), false));
    }
    let (out, quit) = s.turn(None, Some('\n'));
    assert!(!quit);
    assert_eq!(out, frame(1, 1, &entries, &Encoding::Protocol(String::from("http"))));
    assert!(out.contains(&format!("\x1b[4;1H{}  | message body length: 0 bytes\x1b[0m", LOG_STYLE)));
    assert_eq!(s.turn(None, Some('q')), (Vec::new(), true));
}

#[test]
fn session_opens_and_closes_the_display() {
    let s = session(1, 2);
    let ui: UI<Request> = UI::new(Vec::new(), 1, 2);
    assert_eq!(s.start(), ui.start());
    assert_eq!(s.stop(), ui.stop());
}
