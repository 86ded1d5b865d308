use cazan_cli::terminal::SubTerminal;

#[test]
fn new_reserves_the_block() {
    let (_, opening) = SubTerminal::new(3);
    assert_eq!(opening, "\r\n\r\n\x1b[1F\x1b[1F");
}

#[test]
fn new_with_one_line_sends_nothing() {
    let (_, opening) = SubTerminal::new(1);
    assert_eq!(opening, "");
}

#[test]
fn the_opening_comes_back_to_the_line_it_started_on() {
    for height in [1u16, 2, 3, 10] {
        let (_, opening) = SubTerminal::new(height);
        let down = opening.matches("\r\n").count();
        let up = opening.matches("\x1b[1F").count();
        assert_eq!(down, height as usize - 1);
        assert_eq!(up, down);
        assert_eq!(opening.len(), 2 * down + 4 * up);
    }
}

#[test]
fn write_to_the_cursor_line_moves_to_the_first_column_only() {
    let (mut terminal, _) = SubTerminal::new(4);
    assert_eq!(terminal.write_to("Parsing a.png", 0), "\x1b[1GParsing a.png");
}

#[test]
fn write_to_a_lower_line_moves_down() {
    let (mut terminal, _) = SubTerminal::new(4);
    assert_eq!(terminal.write_to("x", 3), "\x1b[3B\x1b[1Gx");
}

#[test]
fn write_to_a_higher_line_moves_up() {
    let (mut terminal, _) = SubTerminal::new(4);
    terminal.write_to("x", 3);
    assert_eq!(terminal.write_to("y", 1), "\x1b[2A\x1b[1Gy");
}

#[test]
fn slots_wrap_around_the_block() {
    let (mut terminal, _) = SubTerminal::new(4);
    assert_eq!(terminal.write_to("x", 6), "\x1b[2B\x1b[1Gx");
    assert_eq!(terminal.write_to("y", 10), "\x1b[1Gy");
    assert_eq!(terminal.write_to("z", 4), "\x1b[2A\x1b[1Gz");
}

#[test]
fn rewrite_clears_the_line() {
    let (mut terminal, _) = SubTerminal::new(2);
    terminal.write_to("Parsing a.png", 1);
    assert_eq!(
        terminal.rewrite_to("Parsed a.png", 1),
        "\x1b[1G\x1b[1G\x1b[2KParsed a.png"
    );
    assert_eq!(
        terminal.rewrite_to("Parsed b.png", 0),
        "\x1b[1A\x1b[1G\x1b[1G\x1b[2KParsed b.png"
    );
}

#[test]
fn moves_count_in_decimal() {
    let (mut terminal, _) = SubTerminal::new(300);
    assert_eq!(terminal.write_to("", 299), "\x1b[299B\x1b[1G");
    assert_eq!(terminal.write_to("", 43), "\x1b[256A\x1b[1G");
}

#[test]
fn leaving_goes_to_the_last_line_and_breaks_it() {
    let (mut terminal, _) = SubTerminal::new(3);
    assert_eq!(terminal.move_to_last_line_and_new_line(), "\x1b[2B\x1b[1G\n");
    assert_eq!(terminal.move_to_last_line_and_new_line(), "\x1b[1G\n");
}

#[test]
fn leaving_a_block_of_one_line() {
    let (mut terminal, _) = SubTerminal::new(1);
    terminal.write_to("only", 5);
    assert_eq!(terminal.move_to_last_line_and_new_line(), "\x1b[1G\n");
}

#[test]
fn largest_block() {
    let (mut terminal, opening) = SubTerminal::new(u16::MAX);
    assert_eq!(opening.len(), 2 * 65534 + 4 * 65534);
    assert_eq!(terminal.write_to("x", 65534), "\x1b[65534B\x1b[1Gx");
    assert_eq!(terminal.write_to("x", 65535), "\x1b[65534A\x1b[1Gx");
}

/// Replays what a display sends on a picture of the block: the lines and the
/// cursor, as a terminal would keep them.
fn replay(lines: &mut Vec<String>, row: &mut usize, sent: &str) {
    let mut rest = sent;
    while !rest.is_empty() {
        if let Some(tail) = rest.strip_prefix("\x1b[") {
            let end = tail.find(|c: char| c.is_ascii_alphabetic()).unwrap();
            let count: usize = tail[..end].parse().unwrap();
            match &tail[end..end + 1] {
                "A" => *row -= count,
                "B" => *row += count,
                "G" => assert_eq!(count, 1),
                "K" => lines[*row].clear(),
                other => panic!("unexpected sequence {other}"),
            }
            rest = &tail[end + 1..];
        } else {
            let end = rest.find('\x1b').unwrap_or(rest.len());
            let text = &rest[..end];
            let old = lines[*row].clone();
            let kept: String = old.chars().skip(text.chars().count()).collect();
            lines[*row] = format!("{text}{kept}");
            rest = &rest[end..];
        }
    }
}

#[test]
fn two_workers_in_different_slots_do_not_disturb_each_other() {
    for first_goes_first in [true, false] {
        let (mut terminal, _) = SubTerminal::new(3);
        let mut lines = vec![String::new(), String::new(), String::new()];
        let mut row = 0;
        let sent = terminal.write_to("Parsing a.png", 0);
        replay(&mut lines, &mut row, &sent);
        let sent = terminal.write_to("Parsing b.png", 1);
        replay(&mut lines, &mut row, &sent);
        let sent = terminal.write_to("Parsing c.png", 2);
        replay(&mut lines, &mut row, &sent);
        if first_goes_first {
            let sent = terminal.rewrite_to("Parsed a", 0);
            replay(&mut lines, &mut row, &sent);
            let sent = terminal.rewrite_to("Parsed c", 2);
            replay(&mut lines, &mut row, &sent);
        } else {
            let sent = terminal.rewrite_to("Parsed c", 2);
            replay(&mut lines, &mut row, &sent);
            let sent = terminal.rewrite_to("Parsed a", 0);
            replay(&mut lines, &mut row, &sent);
        }
        assert_eq!(lines, vec!["Parsed a", "Parsing b.png", "Parsed c"]);
    }
}

#[test]
fn a_reused_slot_shows_the_later_file() {
    let (mut terminal, _) = SubTerminal::new(2);
    let mut lines = vec![String::new(), String::new()];
    let mut row = 0;
    for (slot, text) in [(0, "Parsing a"), (1, "Parsing b"), (2, "Parsing c")] {
        let sent = terminal.write_to(text, slot);
        replay(&mut lines, &mut row, &sent);
    }
    assert_eq!(lines, vec!["Parsing c", "Parsing b"]);
    let sent = terminal.rewrite_to("done", 2);
    replay(&mut lines, &mut row, &sent);
    assert_eq!(lines, vec!["done", "Parsing b"]);
}
