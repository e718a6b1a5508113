//! Timesteps: the finite, ordered sequence of days that a run walks through.
//!
//! Dates are day numbers in the proleptic Gregorian calendar, January 1 of the
//! year 1 being day 1.
use vstd::prelude::*;
use vstd::arithmetic::div_mod::lemma_fundamental_div_mod_converse;
use vstd::std_specs::iter::IteratorSpec;
use chrono::Datelike;
use chrono::NaiveDate;
use crate::error::PywrError;

verus! {

/// The position of a timestep in its sequence.
pub type TimestepIndex = usize;

/// One step of a run: the day on which it starts, its position in the
/// sequence, and how many days it lasts.
#[derive(Clone, Copy, Debug, PartialEq, Eq)]
pub struct Timestep {
    pub date: i64,
    pub index: TimestepIndex,
    pub duration: i64,
}

impl Timestep {
    /// The length of the timestep in days.
    pub fn days(&self) -> (days: i64)
        ensures
            days == self.duration,
    {
        self.duration
    }
}

/// `c` is one of the ten ASCII digits.
pub open spec fn is_digit(c: char) -> bool {
    '0' <= c && c <= '9'
}

/// `c` is a plus or a minus sign.
pub open spec fn is_sign(c: char) -> bool {
    c == '+' || c == '-'
}

/// At place `i` of `text` stands a sign, and ten digits follow it.
pub open spec fn long_number_at(text: Seq<char>, i: int) -> bool {
    &&& 0 <= i
    &&& i + 10 < text.len()
    &&& is_sign(text[i])
    &&& forall|j: int| i < j <= i + 10 ==> is_digit(#[trigger] text[j])
}

/// Somewhere in `text` a sign is followed by ten digits or more.
///
/// A year is read with any number of digits where it has a sign, and with
/// four at most where it has none. A text without such a number therefore
/// holds no year beyond nine digits.
pub open spec fn has_long_number(text: Seq<char>) -> bool {
    exists|i: int| long_number_at(text, i)
}

/// Whether somewhere in `text` a sign is followed by ten digits or more.
pub fn holds_long_number(text: &str) -> (yes: bool)
    ensures
        yes == has_long_number(text@),
{
    broadcast use {vstd::string::axiom_spec_iter, vstd::string::next_postcondition};

    let mut chars = text.chars();
    // The number of characters read, the place at which the digits read last
    // begin, whether a sign stands before them, and how many they are.
    let ghost mut k: int = 0;
    let ghost mut begin: int = 0;
    let mut signed: bool = false;
    let mut run: usize = 0;
    loop
        invariant_except_break
            0 <= begin <= k <= text@.len(),
            chars.remaining() == text@.skip(k),
            forall|j: int| begin <= j < k ==> is_digit(#[trigger] text@[j]),
            run < 10,
            signed ==> begin >= 1 && is_sign(text@[begin - 1]) && run == k - begin,
            !signed ==> begin == 0 || (!is_sign(text@[begin - 1]) && !is_digit(text@[begin - 1])),
            forall|i: int| i + 10 < k ==> !long_number_at(text@, i),
        ensures
            has_long_number(text@) <==> run == 10,
        decreases text@.len() - k,
    {
        let next = chars.next();
        match next {
            None => {
                assert(run != 10);
                assert(!has_long_number(text@)) by {
                    assert forall|i: int| !long_number_at(text@, i) by {}
                }
                break ;
            },
            Some(c) => {
                assert(c == text@[k]);
                assert(text@.skip(k).drop_first() =~= text@.skip(k + 1));
                if c == '+' || c == '-' {
                    signed = true;
                    run = 0;
                    proof {
                        begin = k + 1;
                    }
                } else if c >= '0' && c <= '9' {
                    if signed {
                        run = run + 1;
                        if run == 10 {
                            assert(long_number_at(text@, begin - 1));
                            break ;
                        }
                    }
                } else {
                    signed = false;
                    run = 0;
                    proof {
                        begin = k + 1;
                    }
                }
                proof {
                    k = k + 1;
                }
            },
        }
    }
    run == 10
}

/// What `chrono` reads from `date` under the format `format`: the day number of
/// the date, or `None` where the text is not a date in that format.
pub uninterp spec fn parsed_day_number(date: Seq<char>, format: Seq<char>) -> Option<int>;

/// Reads a date with `chrono::NaiveDate::parse_from_str` and gives its day
/// number, as `chrono::Datelike::num_days_from_ce` counts it. Nothing is
/// claimed of the outcome but that it depends on the two texts alone.
///
/// A year at either end of the 32-bit range makes the outside function
/// overflow, and only a signed number of ten digits or more can be read as
/// such a year: texts that hold one are left out.
#[verifier::external_body]
fn parse_day_number(date: &str, format: &str) -> (day: Option<i32>)
    requires
        !has_long_number(date@),
    ensures
        day matches Some(d) ==> parsed_day_number(date@, format@) == Some(d as int),
        day is None ==> parsed_day_number(date@, format@) is None,
{
    match NaiveDate::parse_from_str(date, format) {
        Ok(parsed) => Some(parsed.num_days_from_ce()),
        Err(_) => None,
    }
}

/// The generator of a run's timesteps: every `step` days from `start`, as long
/// as `end` is not passed.
#[derive(Clone, Copy, Debug, PartialEq, Eq)]
pub struct Timestepper {
    start: i32,
    end: i32,
    step: i64,
}

impl Timestepper {
    /// The day number of the first timestep.
    pub closed spec fn start(&self) -> int {
        self.start as int
    }

    /// The last day number on which a timestep may start.
    pub closed spec fn end(&self) -> int {
        self.end as int
    }

    /// The number of days from one timestep to the next.
    pub closed spec fn step(&self) -> int {
        self.step as int
    }

    /// A step is at least one day long.
    pub closed spec fn wf(&self) -> bool {
        self.step >= 1
    }

    /// How many timesteps there are.
    pub open spec fn count(&self) -> nat {
        if self.start() > self.end() {
            0
        } else {
            ((self.end() - self.start()) / self.step() + 1) as nat
        }
    }

    /// The timestep at position `i`.
    pub open spec fn timestep_at(&self, i: int) -> Timestep {
        Timestep {
            date: (self.start() + i * self.step()) as i64,
            index: i as usize,
            duration: self.step() as i64,
        }
    }

    /// The timestepper from the date `start` to the date `end`, both read in
    /// the format `format`, with `step_days` days to a step. A text that is no
    /// date in that format is refused, and so is a text in which a sign is
    /// followed by ten digits or more: no date that can be held has such a
    /// year.
    pub fn new(start: &str, end: &str, format: &str, step_days: i64) -> (r: Result<
        Timestepper,
        PywrError,
    >)
        requires
            step_days >= 1,
        ensures
            has_long_number(start@) || has_long_number(end@) ==> r == Err::<
                Timestepper,
                PywrError,
            >(PywrError::InvalidDate),
            !has_long_number(start@) && !has_long_number(end@) ==> match (
                parsed_day_number(start@, format@),
                parsed_day_number(end@, format@),
            ) {
                (Some(s), Some(e)) => r is Ok && r->Ok_0.wf() && r->Ok_0.start() == s
                    && r->Ok_0.end() == e && r->Ok_0.step() == step_days,
                _ => r == Err::<Timestepper, PywrError>(PywrError::InvalidDate),
            },
    {
        if holds_long_number(start) || holds_long_number(end) {
            return Err(PywrError::InvalidDate);
        }
        match parse_day_number(start, format) {
            Some(first) => match parse_day_number(end, format) {
                Some(last) => Ok(Self::from_day_numbers(first, last, step_days)),
                None => Err(PywrError::InvalidDate),
            },
            None => Err(PywrError::InvalidDate),
        }
    }

    /// The timestepper from day `start` to day `end`, with `step_days` days to
    /// a step.
    pub fn from_day_numbers(start: i32, end: i32, step_days: i64) -> (timestepper: Timestepper)
        requires
            step_days >= 1,
        ensures
            timestepper.wf(),
            timestepper.start() == start,
            timestepper.end() == end,
            timestepper.step() == step_days,
    {
        Timestepper { start, end, step: step_days }
    }

    /// The timesteps in order: the first starts on the first day, each next
    /// one a step later, and none after the last day. Their positions count
    /// from zero.
    pub fn timesteps(&self) -> (timesteps: Vec<Timestep>)
        requires
            self.wf(),
        ensures
            timesteps.len() == self.count(),
            forall|i: int|
                0 <= i < timesteps.len() ==> #[trigger] timesteps[i] == self.timestep_at(i),
    {
        let mut timesteps: Vec<Timestep> = Vec::new();
        if self.start > self.end {
            return timesteps;
        }
        let last: i64 = self.end as i64;
        let mut current: i64 = self.start as i64;
        assert(timesteps.len() * self.step == 0) by (nonlinear_arith)
            requires
                timesteps.len() == 0,
        ;
        loop
            invariant_except_break
                self.wf(),
                last == self.end,
                self.start <= current <= last,
                current == self.start + timesteps.len() * self.step,
                forall|i: int|
                    0 <= i < timesteps.len() ==> #[trigger] timesteps[i] == self.timestep_at(i),
            ensures
                timesteps.len() == self.count(),
                forall|i: int|
                    0 <= i < timesteps.len() ==> #[trigger] timesteps[i] == self.timestep_at(i),
            decreases last - current,
        {
            let index: usize = timesteps.len();
            timesteps.push(Timestep { date: current, index, duration: self.step });
            if self.step > last - current {
                proof {
                    let span = self.end - self.start;
                    let rest = last - current;
                    assert(span == self.step * index + rest) by (nonlinear_arith)
                        requires
                            current == self.start + index * self.step,
                            rest == last - current,
                            span == self.end - self.start,
                            last == self.end,
                    ;
                    lemma_fundamental_div_mod_converse(
                        span as int,
                        self.step as int,
                        index as int,
                        rest as int,
                    );
                }
                break ;
            }
            assert(current + self.step == self.start + (index + 1) * self.step)
                by (nonlinear_arith)
                requires
                    current == self.start + index * self.step,
            ;
            current = current + self.step;
        }
        timesteps
    }
}

} // verus!
