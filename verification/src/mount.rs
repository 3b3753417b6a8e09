//! Mount preparation: the device fallback list for an indexed partition and
//! the trial that walks it.
//!
//! The mount syscall itself is outside work. Here stand the decisions: which
//! device nodes to try and in what order, when to give up, and which error
//! to report then — the one from the last attempted device.
use vstd::prelude::*;

use crate::messages::Color;
use crate::messages::ConsoleLine;
use crate::messages::line_mount_error;
use crate::messages::mount_error_text;

verus! {

/// The character for one decimal digit.
pub open spec fn digit_char(d: int) -> char {
    if d == 0 {
        '0'
    } else if d == 1 {
        '1'
    } else if d == 2 {
        '2'
    } else if d == 3 {
        '3'
    } else if d == 4 {
        '4'
    } else if d == 5 {
        '5'
    } else if d == 6 {
        '6'
    } else if d == 7 {
        '7'
    } else if d == 8 {
        '8'
    } else {
        '9'
    }
}

/// The decimal rendering of a non-negative integer, without leading zeros.
pub open spec fn decimal_of(n: int) -> Seq<char>
    decreases n,
{
    if n < 10 {
        seq![digit_char(n)]
    } else {
        decimal_of(n / 10).push(digit_char(n % 10))
    }
}

/// One decimal digit as a string.
fn digit_str(d: u8) -> (r: &'static str)
    requires
        d < 10,
    ensures
        r@ =~= seq![digit_char(d as int)],
{
    proof {
        reveal_strlit("0");
        reveal_strlit("1");
        reveal_strlit("2");
        reveal_strlit("3");
        reveal_strlit("4");
        reveal_strlit("5");
        reveal_strlit("6");
        reveal_strlit("7");
        reveal_strlit("8");
        reveal_strlit("9");
    }
    match d {
        0 => "0",
        1 => "1",
        2 => "2",
        3 => "3",
        4 => "4",
        5 => "5",
        6 => "6",
        7 => "7",
        8 => "8",
        _ => "9",
    }
}

/// Render a partition index as decimal text.
pub fn u8_to_decimal(n: u8) -> (r: String)
    ensures
        r@ == decimal_of(n as int),
{
    let ghost x: int = n as int;
    if n < 10 {
        let s = String::from_str(digit_str(n));
        proof {
            assert(s@ =~= decimal_of(x));
        }
        s
    } else if n < 100 {
        let q = n / 10;
        let r0 = n % 10;
        let s = String::from_str(digit_str(q)).concat(digit_str(r0));
        proof {
            assert(decimal_of(x / 10) =~= seq![digit_char(x / 10)]);
            assert(s@ =~= decimal_of(x));
        }
        s
    } else {
        let q2 = n / 100;
        let t = (n / 10) % 10;
        let r0 = n % 10;
        let s = String::from_str(digit_str(q2)).concat(digit_str(t)).concat(digit_str(r0));
        proof {
            vstd::arithmetic::div_mod::lemma_div_denominator(x, 10, 10);
            assert(x / 10 / 10 == x / 100);
            assert(decimal_of(x / 100) =~= seq![digit_char(x / 100)]);
            assert(decimal_of(x / 10) =~= seq![digit_char(x / 100), digit_char(x / 10 % 10)]);
            assert(s@ =~= decimal_of(x));
        }
        s
    }
}

/// The device nodes tried for an indexed partition, in fallback order:
/// the SD card, then the first SATA disk, then the first virtio disk.
pub open spec fn device_candidates_spec(part: int) -> Seq<Seq<char>> {
    seq![
        "/dev/mmcblk0p"@ + decimal_of(part),
        "/dev/sda"@ + decimal_of(part),
        "/dev/vda"@ + decimal_of(part),
    ]
}

/// Build the fallback list of device nodes for a 1-based partition index.
pub fn device_candidates(part_index: u8) -> (v: Vec<String>)
    ensures
        v.deep_view() == device_candidates_spec(part_index as int),
{
    let digits = u8_to_decimal(part_index);
    let mut v: Vec<String> = Vec::new();
    v.push(String::from_str("/dev/mmcblk0p").concat(digits.as_str()));
    v.push(String::from_str("/dev/sda").concat(digits.as_str()));
    v.push(String::from_str("/dev/vda").concat(digits.as_str()));
    proof {
        assert(v.deep_view() =~= device_candidates_spec(part_index as int));
    }
    v
}

/// Where a mount trial stands: how many candidates were attempted, and the
/// error of the last attempt that failed.
pub struct MountTrial {
    pub attempted: usize,
    pub last_err: Option<String>,
}

/// The error text reported when every candidate failed. An empty candidate
/// list leaves no error to show.
pub open spec fn exhausted_text(point: Seq<char>, last_err: Option<Seq<char>>) -> Seq<char> {
    match last_err {
        Option::Some(e) => mount_error_text(point, e),
        Option::None => mount_error_text(point, "unknown error (this shouldn't happen)"@),
    }
}

/// What the caller must do next with a mount trial.
pub enum MountCommand {
    /// Attempt a mount of this candidate (an index into the fallback list).
    Attempt(usize),
    /// Every candidate failed: emit this line and halt.
    GiveUp(ConsoleLine),
}

/// Start a mount trial: nothing attempted, no error seen.
pub fn mount_trial_begin() -> (t: MountTrial)
    ensures
        t.attempted == 0,
        t.last_err is None,
{
    MountTrial { attempted: 0, last_err: Option::None }
}

/// Decide the next move: attempt the next candidate while one is left,
/// otherwise give up with the last attempt's error.
pub fn mount_trial_decide(t: &MountTrial, n_candidates: usize, point: &str) -> (c: MountCommand)
    ensures
        t.attempted < n_candidates ==> c == (MountCommand::Attempt(t.attempted)),
        t.attempted >= n_candidates ==> {
            &&& c is GiveUp
            &&& c->GiveUp_0@ == (Color::Red, exhausted_text(point@, t.last_err.deep_view()))
        },
{
    if t.attempted < n_candidates {
        MountCommand::Attempt(t.attempted)
    } else {
        match &t.last_err {
            Option::Some(e) => MountCommand::GiveUp(line_mount_error(point, e.as_str())),
            Option::None => MountCommand::GiveUp(
                line_mount_error(point, "unknown error (this shouldn't happen)"),
            ),
        }
    }
}

/// Record one failed attempt: the trial moves to the next candidate and
/// keeps this error as the one to report should every candidate fail.
pub fn mount_trial_absorb(t: MountTrial, err: String) -> (r: MountTrial)
    requires
        t.attempted < usize::MAX,
    ensures
        r.attempted == t.attempted + 1,
        r.last_err.deep_view() == Option::Some(err@),
{
    MountTrial { attempted: t.attempted + 1, last_err: Option::Some(err) }
}

} // verus!
