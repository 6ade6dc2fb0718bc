//! The decisions of the two-line character display: which messages its
//! writer thread receives for initialisation, cursor moves and characters,
//! and where the cursor stands afterwards.
use vstd::prelude::*;

verus! {

/// One message for the display's writer: a data byte, a command (control
/// byte and data byte), a pause in microseconds, or the end of the writer.
#[derive(Clone, Copy, Debug, PartialEq, Eq, Structural)]
pub enum LcdMessage {
    Char(u8),
    Cmd(u8, u8),
    Wait(u64),
    Stop,
}

/// Characters per line before the cursor moves to the other line.
pub const LINE_WIDTH: u8 = 8;

/// Where the next character goes: a column count and line 1 or 2.
#[derive(Clone, Copy, Debug, PartialEq, Eq, Structural)]
pub struct LcdCursor {
    pub col: u8,
    pub row: u8,
}

/// The start-up commands, with the pause the controller needs.
pub open spec fn init_messages() -> Seq<LcdMessage> {
    seq![
        LcdMessage::Cmd(0, 0x38),
        LcdMessage::Cmd(0, 0x39),
        LcdMessage::Cmd(0, 0x14),
        LcdMessage::Cmd(0, 0x70),
        LcdMessage::Cmd(0, 0x56),
        LcdMessage::Cmd(0, 0x6c),
        LcdMessage::Wait(250_000),
        LcdMessage::Cmd(0, 0x38),
        LcdMessage::Cmd(0, 0x0c),
    ]
}

/// Clearing the display.
pub open spec fn clear_messages() -> Seq<LcdMessage> {
    seq![LcdMessage::Cmd(0, 0x01), LcdMessage::Wait(2000)]
}

/// Moving to the start of line 1.
pub open spec fn first_line_messages() -> Seq<LcdMessage> {
    seq![LcdMessage::Cmd(0, 0x02), LcdMessage::Wait(2000)]
}

/// Moving to the start of line 2.
pub open spec fn second_line_messages() -> Seq<LcdMessage> {
    seq![LcdMessage::Cmd(0, 0xc0), LcdMessage::Wait(2000)]
}

/// The cursor and messages after writing character `c` at `cur`: past the
/// end of a line the cursor first moves to the start of the other line.
pub open spec fn char_step(cur: LcdCursor, c: u8) -> (LcdCursor, Seq<LcdMessage>) {
    let written = seq![LcdMessage::Char(c), LcdMessage::Wait(50)];
    if cur.col + 1 > LINE_WIDTH {
        if cur.row == 2 {
            (LcdCursor { col: 0, row: 1 }, first_line_messages() + written)
        } else {
            (LcdCursor { col: 0, row: 2 }, second_line_messages() + written)
        }
    } else {
        (LcdCursor { col: (cur.col + 1) as u8, row: cur.row }, written)
    }
}

/// The cursor and messages after writing the bytes `s` in order from `cur`.
pub open spec fn text_steps(cur: LcdCursor, s: Seq<u8>) -> (LcdCursor, Seq<LcdMessage>)
    decreases s.len(),
{
    if s.len() == 0 {
        (cur, seq![])
    } else {
        let (mid, before) = text_steps(cur, s.drop_last());
        let (last, more) = char_step(mid, s.last());
        (last, before + more)
    }
}

/// The start-up commands.
pub fn init_sequence() -> (r: Vec<LcdMessage>)
    ensures
        r@ == init_messages(),
{
    let r = vec![
        LcdMessage::Cmd(0, 0x38),
        LcdMessage::Cmd(0, 0x39),
        LcdMessage::Cmd(0, 0x14),
        LcdMessage::Cmd(0, 0x70),
        LcdMessage::Cmd(0, 0x56),
        LcdMessage::Cmd(0, 0x6c),
        LcdMessage::Wait(250_000),
        LcdMessage::Cmd(0, 0x38),
        LcdMessage::Cmd(0, 0x0c),
    ];
    assert(r@ =~= init_messages());
    r
}

/// Clearing the display.
pub fn clear_sequence() -> (r: Vec<LcdMessage>)
    ensures
        r@ == clear_messages(),
{
    let r = vec![LcdMessage::Cmd(0, 0x01), LcdMessage::Wait(2000)];
    assert(r@ =~= clear_messages());
    r
}

/// Clearing the display, then ending the writer.
pub fn shutdown_sequence() -> (r: Vec<LcdMessage>)
    ensures
        r@ == clear_messages().push(LcdMessage::Stop),
{
    let mut r = clear_sequence();
    r.push(LcdMessage::Stop);
    r
}

impl LcdCursor {
    /// The cursor stays within a line and on line 1 or 2.
    pub open spec fn wf(&self) -> bool {
        self.col <= LINE_WIDTH && (self.row == 1 || self.row == 2)
    }

    /// Start of line 1.
    pub fn new() -> (r: LcdCursor)
        ensures
            r.wf(),
            r == (LcdCursor { col: 0, row: 1 }),
    {
        LcdCursor { col: 0, row: 1 }
    }

    pub fn first_line_head(&mut self) -> (r: Vec<LcdMessage>)
        ensures
            *final(self) == (LcdCursor { col: 0, row: 1 }),
            r@ == first_line_messages(),
    {
        self.col = 0;
        self.row = 1;
        let r = vec![LcdMessage::Cmd(0, 0x02), LcdMessage::Wait(2000)];
        assert(r@ =~= first_line_messages());
        r
    }

    pub fn second_line_head(&mut self) -> (r: Vec<LcdMessage>)
        ensures
            *final(self) == (LcdCursor { col: 0, row: 2 }),
            r@ == second_line_messages(),
    {
        self.col = 0;
        self.row = 2;
        let r = vec![LcdMessage::Cmd(0, 0xc0), LcdMessage::Wait(2000)];
        assert(r@ =~= second_line_messages());
        r
    }

    /// The messages that write `c`, moving to the other line first when the
    /// current one is full.
    pub fn push_char(&mut self, c: u8) -> (r: Vec<LcdMessage>)
        requires
            old(self).wf(),
        ensures
            final(self).wf(),
            (*final(self), r@) == char_step(*old(self), c),
    {
        let mut r: Vec<LcdMessage> = if self.col + 1 > LINE_WIDTH {
            if self.row == 2 {
                self.first_line_head()
            } else {
                self.second_line_head()
            }
        } else {
            self.col = self.col + 1;
            Vec::new()
        };
        r.push(LcdMessage::Char(c));
        r.push(LcdMessage::Wait(50));
        proof {
            let (_, msgs) = char_step(*old(self), c);
            assert(r@ =~= msgs);
        }
        r
    }

    /// The messages that write the bytes of `s` in order.
    pub fn push_str(&mut self, s: &[u8]) -> (r: Vec<LcdMessage>)
        requires
            old(self).wf(),
        ensures
            final(self).wf(),
            (*final(self), r@) == text_steps(*old(self), s@),
    {
        let ghost start = *self;
        let mut out: Vec<LcdMessage> = Vec::new();
        let mut i: usize = 0;
        while i < s.len()
            invariant
                i <= s@.len(),
                self.wf(),
                (*self, out@) == text_steps(start, s@.take(i as int)),
            decreases s@.len() - i,
        {
            let more = self.push_char(s[i]);
            let ghost before = out@;
            let mut k: usize = 0;
            while k < more.len()
                invariant
                    k <= more@.len(),
                    out@ == before + more@.take(k as int),
                decreases more@.len() - k,
            {
                out.push(more[k]);
                k = k + 1;
                assert(out@ =~= before + more@.take(k as int));
            }
            proof {
                assert(more@.take(k as int) =~= more@);
                let t = s@.take(i + 1);
                assert(t.drop_last() =~= s@.take(i as int));
                assert(t.last() == s@[i as int]);
            }
            i = i + 1;
        }
        assert(s@.take(i as int) =~= s@);
        out
    }
}

} // verus!
