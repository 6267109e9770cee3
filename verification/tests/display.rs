use x86_boot::vga::{
    clear_screen, hex_char, printhex_u32, printhex_u8, sprint, write_char, CellWrite, VGAState,
};

fn cell(offset: usize, c: char) -> CellWrite {
    CellWrite { offset, value: 0x1f00 | c as u16 }
}

#[test]
fn default_cursor_is_top_left() {
    assert_eq!(VGAState::default(), VGAState { x: 0, y: 0 });
}

#[test]
fn write_char_fills_a_cell_and_moves_on() {
    let mut state = VGAState { x: 3, y: 2 };
    assert_eq!(write_char(&mut state, 'A'), Some(CellWrite { offset: 163, value: 0x1f41 }));
    assert_eq!(state, VGAState { x: 4, y: 2 });
}

#[test]
fn write_char_line_feed_starts_the_next_row() {
    let mut state = VGAState { x: 7, y: 1 };
    assert_eq!(write_char(&mut state, '\n'), None);
    assert_eq!(state, VGAState { x: 0, y: 2 });
}

#[test]
fn write_char_skips_what_is_not_ascii() {
    let mut state = VGAState { x: 7, y: 1 };
    assert_eq!(write_char(&mut state, 'é'), None);
    assert_eq!(state, VGAState { x: 7, y: 1 });
    assert_eq!(write_char(&mut state, '\u{7f}'), Some(CellWrite { offset: 87, value: 0x1f7f }));
    assert_eq!(write_char(&mut state, '\u{80}'), None);
}

#[test]
fn sprint_hello_world() {
    let mut state = VGAState::default();
    let cells = sprint(&mut state, "Hello, world!\n");
    let expected: Vec<CellWrite> =
        "Hello, world!".chars().enumerate().map(|(i, c)| cell(i, c)).collect();
    assert_eq!(cells, expected);
    assert_eq!(state, VGAState { x: 0, y: 1 });
}

#[test]
fn sprint_over_rows_and_other_characters() {
    let mut state = VGAState::default();
    let cells = sprint(&mut state, "Hi\nñ!");
    assert_eq!(cells, vec![cell(0, 'H'), cell(1, 'i'), cell(80, '!')]);
    assert_eq!(state, VGAState { x: 1, y: 1 });
    let more = sprint(&mut state, "");
    assert_eq!(more, vec![]);
    assert_eq!(state, VGAState { x: 1, y: 1 });
}

#[test]
fn sprint_continues_from_the_cursor() {
    let mut state = VGAState::default();
    sprint(&mut state, "Kernel panic!");
    let cells = sprint(&mut state, ": ");
    assert_eq!(cells, vec![cell(13, ':'), cell(14, ' ')]);
    assert_eq!(state, VGAState { x: 15, y: 0 });
}

#[test]
fn hex_digits() {
    let digits: Vec<char> = (0u8..16).map(hex_char).collect();
    let expected: Vec<char> = "0123456789abcdef".chars().collect();
    assert_eq!(digits, expected);
}

#[test]
fn printhex_u8_two_digits() {
    let mut state = VGAState { x: 0, y: 1 };
    assert_eq!(printhex_u8(&mut state, 0xaf), vec![cell(80, 'a'), cell(81, 'f')]);
    assert_eq!(state, VGAState { x: 2, y: 1 });
    assert_eq!(printhex_u8(&mut state, 0x07), vec![cell(82, '0'), cell(83, '7')]);
    assert_eq!(printhex_u8(&mut state, 0x90), vec![cell(84, '9'), cell(85, '0')]);
}

#[test]
fn printhex_u32_eight_digits() {
    let mut state = VGAState::default();
    let cells = printhex_u32(&mut state, 0xdeadbeef);
    let expected: Vec<CellWrite> =
        "deadbeef".chars().enumerate().map(|(i, c)| cell(i, c)).collect();
    assert_eq!(cells, expected);
    assert_eq!(state, VGAState { x: 8, y: 0 });
    let cells = printhex_u32(&mut state, 0x0000012a);
    let expected: Vec<CellWrite> =
        "0000012a".chars().enumerate().map(|(i, c)| cell(8 + i, c)).collect();
    assert_eq!(cells, expected);
}

#[test]
fn clear_screen_blanks_every_cell() {
    let cells = clear_screen();
    assert_eq!(cells.len(), 80 * 25);
    for (i, c) in cells.iter().enumerate() {
        assert_eq!(*c, CellWrite { offset: i, value: 0x1f20 });
    }
}
