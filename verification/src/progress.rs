//! Progress of an agent's task: a fraction between zero and one, held in
//! millionths, and its decimal text.

use vstd::prelude::*;
use vstd::string::*;

verus! {

/// The number of millionths in a finished task.
pub const PROGRESS_SCALE: u32 = 1_000_000;

/// Fractional digits that a progress value can need.
pub const PROGRESS_DIGITS: u32 = 6;

/// How far a task has come: `value()` millionths of the whole, never more
/// than [`PROGRESS_SCALE`].
#[derive(Clone, Copy, Debug)]
pub struct TaskProgress {
    millionths: u32,
}

/// The decimal digit `d` as a character; `'0'` beyond nine.
pub open spec fn digit_char(d: nat) -> char {
    if d == 1 {
        '1'
    } else if d == 2 {
        '2'
    } else if d == 3 {
        '3'
    } else if d == 4 {
        '4'
    } else if d == 5 {
        '5'
    } else if d == 6 {
        '6'
    } else if d == 7 {
        '7'
    } else if d == 8 {
        '8'
    } else if d == 9 {
        '9'
    } else {
        '0'
    }
}

/// The last `width` decimal digits of `n`, most significant first, padded
/// with zeros on the left.
pub open spec fn padded_digits(n: nat, width: nat) -> Seq<char>
    decreases width,
{
    if width == 0 {
        Seq::empty()
    } else {
        padded_digits(n / 10, (width - 1) as nat).push(digit_char(n % 10))
    }
}

/// `n` without its trailing decimal zeros, as long as `width` allows.
pub open spec fn trimmed_value(n: nat, width: nat) -> nat
    decreases width,
{
    if width > 0 && n % 10 == 0 {
        trimmed_value(n / 10, (width - 1) as nat)
    } else {
        n
    }
}

/// The digits left of `width` after the trailing zeros of `n` are dropped.
pub open spec fn trimmed_width(n: nat, width: nat) -> nat
    decreases width,
{
    if width > 0 && n % 10 == 0 {
        trimmed_width(n / 10, (width - 1) as nat)
    } else {
        width
    }
}

/// The decimal text of `millionths / 1_000_000`: `"0"`, `"1"`, or `"0."`
/// followed by the fractional digits up to the last one that is not zero.
pub open spec fn progress_text(millionths: nat) -> Seq<char> {
    if millionths == 0 {
        seq!['0']
    } else if millionths >= PROGRESS_SCALE {
        seq!['1']
    } else {
        seq!['0', '.'] + padded_digits(
            trimmed_value(millionths, PROGRESS_DIGITS as nat),
            trimmed_width(millionths, PROGRESS_DIGITS as nat),
        )
    }
}

/// The text of one decimal digit.
fn digit_str(d: u32) -> (s: &'static str)
    requires
        d < 10,
    ensures
        s@ == seq![digit_char(d as nat)],
{
    proof {
        reveal_strlit("0");
        reveal_strlit("1");
        reveal_strlit("2");
        reveal_strlit("3");
        reveal_strlit("4");
        reveal_strlit("5");
        reveal_strlit("6");
        reveal_strlit("7");
        reveal_strlit("8");
        reveal_strlit("9");
    }
    let s = if d == 0 {
        "0"
    } else if d == 1 {
        "1"
    } else if d == 2 {
        "2"
    } else if d == 3 {
        "3"
    } else if d == 4 {
        "4"
    } else if d == 5 {
        "5"
    } else if d == 6 {
        "6"
    } else if d == 7 {
        "7"
    } else if d == 8 {
        "8"
    } else {
        "9"
    };
    s
}

/// Appends the last `width` digits of `n` to `out`.
fn push_padded(out: &mut String, n: u32, width: u32)
    ensures
        final(out)@ == old(out)@ + padded_digits(n as nat, width as nat),
    decreases width,
{
    if width == 0 {
    } else {
        push_padded(out, n / 10, width - 1);
        let d = digit_str(n % 10);
        out.append(d);
    }
}

impl TaskProgress {
    #[verifier::type_invariant]
    spec fn in_range(self) -> bool {
        self.millionths <= PROGRESS_SCALE
    }

    /// The progress in millionths of the whole.
    pub closed spec fn value(self) -> nat {
        self.millionths as nat
    }

    /// The progress of `millionths` parts in a million; `None` where that is
    /// more than the whole.
    pub fn new(millionths: u32) -> (p: Option<TaskProgress>)
        ensures
            p is Some <==> millionths <= PROGRESS_SCALE,
            p is Some ==> p.unwrap().value() == millionths,
    {
        if millionths <= PROGRESS_SCALE {
            Some(TaskProgress { millionths })
        } else {
            None
        }
    }

    /// The progress in millionths of the whole.
    pub fn millionths(&self) -> (m: u32)
        ensures
            m == self.value(),
            m <= PROGRESS_SCALE,
    {
        proof {
            use_type_invariant(self);
        }
        self.millionths
    }

    /// The progress as decimal text, such as `0.5`.
    pub fn render(&self) -> (text: String)
        ensures
            text@ == progress_text(self.value()),
    {
        proof {
            use_type_invariant(self);
            reveal_strlit("0");
            reveal_strlit("1");
            reveal_strlit("0.");
        }
        if self.millionths == 0 {
            let text = String::from_str("0");
            text
        } else if self.millionths >= PROGRESS_SCALE {
            let text = String::from_str("1");
            text
        } else {
            let mut rest: u32 = self.millionths;
            let mut width: u32 = PROGRESS_DIGITS;
            while width > 0 && rest % 10 == 0
                invariant
                    width <= PROGRESS_DIGITS,
                    trimmed_value(rest as nat, width as nat) == trimmed_value(
                        self.millionths as nat,
                        PROGRESS_DIGITS as nat,
                    ),
                    trimmed_width(rest as nat, width as nat) == trimmed_width(
                        self.millionths as nat,
                        PROGRESS_DIGITS as nat,
                    ),
                decreases width,
            {
                rest = rest / 10;
                width = width - 1;
            }
            let mut text = String::from_str("0.");
            push_padded(&mut text, rest, width);
            text
        }
    }
}

} // verus!
