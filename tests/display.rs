use mattori_home::lcd::{clear_sequence, init_sequence, shutdown_sequence, LcdCursor, LcdMessage};

#[test]
fn init_has_pause() {
    let s = init_sequence();
    assert_eq!(s.len(), 9);
    assert_eq!(s[0], LcdMessage::Cmd(0, 0x38));
    assert_eq!(s[6], LcdMessage::Wait(250_000));
    assert_eq!(s[8], LcdMessage::Cmd(0, 0x0c));
}

#[test]
fn clear_and_shutdown() {
    assert_eq!(clear_sequence(), vec![LcdMessage::Cmd(0, 0x01), LcdMessage::Wait(2000)]);
    assert_eq!(
        shutdown_sequence(),
        vec![LcdMessage::Cmd(0, 0x01), LcdMessage::Wait(2000), LcdMessage::Stop]
    );
}

#[test]
fn cursor_wraps_between_lines() {
    let mut c = LcdCursor::new();
    for i in 0..8u8 {
        assert_eq!(c.push_char(b'a' + i), vec![LcdMessage::Char(b'a' + i), LcdMessage::Wait(50)]);
    }
    assert_eq!(c, LcdCursor { col: 8, row: 1 });
    assert_eq!(
        c.push_char(b'x'),
        vec![LcdMessage::Cmd(0, 0xc0), LcdMessage::Wait(2000), LcdMessage::Char(b'x'), LcdMessage::Wait(50)]
    );
    assert_eq!(c, LcdCursor { col: 0, row: 2 });
    let msgs = c.push_str(b"12345678");
    assert_eq!(msgs.len(), 16);
    assert_eq!(c, LcdCursor { col: 8, row: 2 });
    let msgs = c.push_str(b"z");
    assert_eq!(msgs[0], LcdMessage::Cmd(0, 0x02));
    assert_eq!(c, LcdCursor { col: 0, row: 1 });
}

#[test]
fn explicit_line_heads() {
    let mut c = LcdCursor::new();
    assert_eq!(c.second_line_head(), vec![LcdMessage::Cmd(0, 0xc0), LcdMessage::Wait(2000)]);
    assert_eq!(c, LcdCursor { col: 0, row: 2 });
    assert_eq!(c.first_line_head(), vec![LcdMessage::Cmd(0, 0x02), LcdMessage::Wait(2000)]);
    assert_eq!(c, LcdCursor { col: 0, row: 1 });
}
