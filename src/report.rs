//! Text for decoded frames: one line per frame, bytes in hexadecimal.
use crate::types::IrPulseBytes;
use itertools::Itertools;
use vstd::prelude::*;
use vstd::string::StringExecFns;

verus! {

/// Digit `d` in base 16, upper case.
pub open spec fn hex_digit(d: int) -> char {
    seq!['0', '1', '2', '3', '4', '5', '6', '7', '8', '9', 'A', 'B', 'C', 'D', 'E', 'F'][d]
}

/// `b` as `0x` and two upper-case hexadecimal digits.
pub open spec fn hex_byte(b: u8) -> Seq<char> {
    seq!['0', 'x', hex_digit(b as int / 16), hex_digit(b as int % 16)]
}

/// `n` in decimal, without leading zeros.
pub open spec fn decimal(n: nat) -> Seq<char>
    decreases n,
{
    if n < 10 {
        seq![hex_digit(n as int)]
    } else {
        decimal(n / 10).push(hex_digit((n % 10) as int))
    }
}

/// The texts of `parts` with `sep` between each two.
pub open spec fn joined(parts: Seq<Seq<char>>, sep: Seq<char>) -> Seq<char>
    decreases parts.len(),
{
    if parts.len() == 0 {
        seq![]
    } else if parts.len() == 1 {
        parts[0]
    } else {
        joined(parts.drop_last(), sep) + sep + parts.last()
    }
}

/// The bytes of a frame, or the mark of a repeat frame.
pub open spec fn frame_body(frame: Seq<u8>) -> Seq<char> {
    if frame.len() == 0 {
        seq!['R', 'e', 'p', 'e', 'a', 't', '\n']
    } else {
        joined(frame.map_values(|b: u8| hex_byte(b)), seq![',', ' '])
    }
}

/// The line for frame `frame` at index `i`, counted from 1.
pub open spec fn frame_line(i: int, frame: Seq<u8>) -> Seq<char> {
    seq!['F', 'r', 'a', 'm', 'e', ' ', '#'] + decimal((i + 1) as nat) + seq![' '] + frame_body(frame)
}

/// All frames, one line each.
pub open spec fn frames_text(frames: Seq<Seq<u8>>) -> Seq<char> {
    joined(Seq::new(frames.len(), |i: int| frame_line(i, frames[i])), seq!['\n'])
}

/// The texts of the strings of `parts`.
pub open spec fn texts(parts: Seq<String>) -> Seq<Seq<char>> {
    parts.map_values(|s: String| s@)
}

/// Relies on `Itertools::join`: the first item, then for each further item
/// the separator and the item.
#[verifier::external_body]
fn join_texts(parts: &Vec<String>, sep: &str) -> (r: String)
    ensures
        r@ == joined(texts(parts@), sep@),
{
    parts.iter().join(sep)
}

/// Digit `d` in base 16 as a one-character text.
fn digit_text(d: u8) -> (r: &'static str)
    requires
        d < 16,
    ensures
        r@ == seq![hex_digit(d as int)],
{
    proof {
        reveal_strlit("0");
        assert("0"@ =~= seq!['0']);
        reveal_strlit("1");
        assert("1"@ =~= seq!['1']);
        reveal_strlit("2");
        assert("2"@ =~= seq!['2']);
        reveal_strlit("3");
        assert("3"@ =~= seq!['3']);
        reveal_strlit("4");
        assert("4"@ =~= seq!['4']);
        reveal_strlit("5");
        assert("5"@ =~= seq!['5']);
        reveal_strlit("6");
        assert("6"@ =~= seq!['6']);
        reveal_strlit("7");
        assert("7"@ =~= seq!['7']);
        reveal_strlit("8");
        assert("8"@ =~= seq!['8']);
        reveal_strlit("9");
        assert("9"@ =~= seq!['9']);
        reveal_strlit("A");
        assert("A"@ =~= seq!['A']);
        reveal_strlit("B");
        assert("B"@ =~= seq!['B']);
        reveal_strlit("C");
        assert("C"@ =~= seq!['C']);
        reveal_strlit("D");
        assert("D"@ =~= seq!['D']);
        reveal_strlit("E");
        assert("E"@ =~= seq!['E']);
        reveal_strlit("F");
        assert("F"@ =~= seq!['F']);
    }
    match d {
        0 => "0",
        1 => "1",
        2 => "2",
        3 => "3",
        4 => "4",
        5 => "5",
        6 => "6",
        7 => "7",
        8 => "8",
        9 => "9",
        10 => "A",
        11 => "B",
        12 => "C",
        13 => "D",
        14 => "E",
        _ => "F",
    }
}

/// `b` as `0x` and two upper-case hexadecimal digits.
fn format_hex_byte(b: u8) -> (r: String)
    ensures
        r@ == hex_byte(b),
{
    proof {
        reveal_strlit("0x");
        assert("0x"@ =~= seq!['0', 'x']);
    }
    let mut r = String::from_str("0x");
    r.append(digit_text(b / 16));
    r.append(digit_text(b % 16));
    assert(r@ =~= hex_byte(b));
    r
}

/// `n` in decimal.
fn format_decimal(n: usize) -> (r: String)
    ensures
        r@ == decimal(n as nat),
    decreases n,
{
    if n < 10 {
        String::from_str(digit_text(n as u8))
    } else {
        let mut r = format_decimal(n / 10);
        r.append(digit_text((n % 10) as u8));
        assert(r@ =~= decimal(n as nat));
        r
    }
}

fn frame_text(i: usize, frame: &Vec<u8>) -> (r: String)
    requires
        i < usize::MAX,
    ensures
        r@ == frame_line(i as int, frame@),
{
    proof {
        reveal_strlit("Frame #");
        reveal_strlit(" ");
        reveal_strlit("Repeat\n");
        reveal_strlit(", ");
    }
    let mut line = String::from_str("Frame #");
    assert(line@ =~= seq!['F', 'r', 'a', 'm', 'e', ' ', '#']);
    line.append(format_decimal(i + 1).as_str());
    line.append(" ");
    let ghost head = line@;
    assert(head =~= seq!['F', 'r', 'a', 'm', 'e', ' ', '#'] + decimal((i + 1) as nat) + seq![' ']);
    if frame.len() == 0 {
        line.append("Repeat\n");
        assert(line@ =~= head + frame_body(frame@));
    } else {
        let mut parts: Vec<String> = Vec::new();
        let mut k: usize = 0;
        while k < frame.len()
            invariant
                k <= frame@.len(),
                texts(parts@) == frame@.take(k as int).map_values(|b: u8| hex_byte(b)),
            decreases frame@.len() - k,
        {
            let ghost before = parts@;
            let h = format_hex_byte(frame[k]);
            parts.push(h);
            assert(texts(parts@) =~= texts(before).push(hex_byte(frame@[k as int])));
            assert(frame@.take(k + 1).map_values(|b: u8| hex_byte(b)) =~= frame@.take(k as int).map_values(
                |b: u8| hex_byte(b),
            ).push(hex_byte(frame@[k as int])));
            k = k + 1;
        }
        assert(frame@.take(k as int) =~= frame@);
        assert(texts(parts@) =~= frame@.map_values(|b: u8| hex_byte(b)));
        let joined_bytes = join_texts(&parts, ", ");
        assert(", "@ =~= seq![',', ' ']);
        line.append(joined_bytes.as_str());
        assert(line@ =~= head + frame_body(frame@));
    }
    assert(line@ =~= frame_line(i as int, frame@));
    line
}

impl IrPulseBytes {
    /// One line per frame: `Frame #n` and its bytes as `0xAB, 0xCD`, or
    /// `Repeat` for an empty frame; lines are separated by a newline.
    pub fn to_string(&self) -> (r: String)
        ensures
            r@ == frames_text(self@),
    {
        let mut lines: Vec<String> = Vec::new();
        let mut i: usize = 0;
        while i < self.0.len()
            invariant
                i <= self.0@.len(),
                texts(lines@) == Seq::new(i as nat, |j: int| frame_line(j, self@[j])),
            decreases self.0@.len() - i,
        {
            let ghost before = lines@;
            let line = frame_text(i, &self.0[i]);
            lines.push(line);
            assert(texts(lines@) =~= texts(before).push(frame_line(i as int, self@[i as int])));
            i = i + 1;
            assert(texts(lines@) =~= Seq::new(i as nat, |j: int| frame_line(j, self@[j])));
        }
        proof {
            reveal_strlit("\n");
        }
        let r = join_texts(&lines, "\n");
        assert("\n"@ =~= seq!['\n']);
        assert(texts(lines@) =~= Seq::new(self@.len(), |j: int| frame_line(j, self@[j])));
        r
    }
}

} // verus!
