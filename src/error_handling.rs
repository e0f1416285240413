//! Recoverable errors and `Option` chaining, a value checked on
//! construction, and the decisions of a number-guessing game.
use vstd::prelude::*;
use vstd::string::StrSliceExecFns;
use rand::Rng;

verus! {

/// The smallest number the game picks or accepts.
pub const LOWEST: i32 = 1;

/// The largest number the game picks or accepts.
pub const HIGHEST: i32 = 100;

/// The first line of `s`: the characters before the first newline, without
/// a carriage return just before that newline; `None` when `s` is empty.
pub open spec fn first_line(s: Seq<char>) -> Option<Seq<char>> {
    if s.len() == 0 {
        None
    } else if exists|i: int| 0 <= i < s.len() && s[i] == '\n' {
        let i = choose|i: int| 0 <= i < s.len() && s[i] == '\n' && forall|j: int| 0 <= j < i ==> s[j] != '\n';
        if i > 0 && s[i - 1] == '\r' {
            Some(s.subrange(0, i - 1))
        } else {
            Some(s.subrange(0, i))
        }
    } else {
        Some(s)
    }
}

/// The last character of the first line of `text`, if that line has one.
pub fn last_char_of_first_line(text: &str) -> (r: Option<char>)
    ensures
        r == (match first_line(text@) {
            Some(line) => if line.len() > 0 {
                Some(line.last())
            } else {
                None::<char>
            },
            None => None::<char>,
        }),
{
    let n = text.unicode_len();
    if n == 0 {
        return None;
    }
    let mut i: usize = 0;
    while i < n
        invariant
            n == text@.len(),
            i <= n,
            forall|j: int| 0 <= j < i ==> text@[j] != '\n',
        decreases n - i,
    {
        if text.get_char(i) == '\n' {
            proof {
                let s = text@;
                let k = choose|k: int| 0 <= k < s.len() && s[k] == '\n' && forall|j: int| 0 <= j < k ==> s[j] != '\n';
                assert(k == i) by {
                    if k < i {
                    } else if k > i {
                        assert(s[i as int] == '\n');
                    }
                }
            }
            let end = if i > 0 && text.get_char(i - 1) == '\r' {
                i - 1
            } else {
                i
            };
            if end == 0 {
                return None;
            }
            return Some(text.get_char(end - 1));
        }
        i = i + 1;
    }
    Some(text.get_char(n - 1))
}

/// A number from `LOWEST` to `HIGHEST`.
pub struct Guess {
    value: i32,
}

impl Guess {
    pub closed spec fn spec_value(&self) -> i32 {
        self.value
    }

    /// Wraps `value`, which must lie from `LOWEST` to `HIGHEST`.
    pub fn new(value: i32) -> (r: Guess)
        requires
            LOWEST <= value <= HIGHEST,
        ensures
            r.spec_value() == value,
    {
        Guess { value }
    }

    /// The number held.
    pub fn value(&self) -> (r: i32)
        ensures
            r == self.spec_value(),
            LOWEST <= r <= HIGHEST,
    {
        proof {
            use_type_invariant(self);
        }
        self.value
    }
}

impl Guess {
    #[verifier::type_invariant]
    spec fn in_range(&self) -> bool {
        LOWEST <= self.value <= HIGHEST
    }
}

/// How a guess compares with the secret number.
#[derive(Clone, Copy, Debug, PartialEq, Eq, Structural)]
pub enum Verdict {
    /// The guess lies outside the range the secret is drawn from.
    OutOfRange,
    TooSmall,
    TooBig,
    Win,
}

/// Relies on `rand::Rng::gen_range` on the thread's generator: the value lies
/// in the inclusive range it is given, which must not be empty.
#[verifier::external_body]
fn random_in(low: i32, high: i32) -> (r: i32)
    requires
        low <= high,
    ensures
        low <= r <= high,
{
    rand::thread_rng().gen_range(low..=high)
}

/// A round of the guessing game: the secret number to find.
pub struct Game {
    secret: i32,
}

impl Game {
    pub closed spec fn spec_secret(&self) -> i32 {
        self.secret
    }

    /// A game whose secret is drawn at random from `LOWEST` to `HIGHEST`.
    pub fn start() -> (r: Game)
        ensures
            LOWEST <= r.spec_secret() <= HIGHEST,
    {
        Game { secret: random_in(LOWEST, HIGHEST) }
    }

    /// A game with a chosen secret.
    pub fn with_secret(secret: i32) -> (r: Game)
        requires
            LOWEST <= secret <= HIGHEST,
        ensures
            r.spec_secret() == secret,
    {
        Game { secret }
    }

    /// Judges a guess: out of range first, then against the secret.
    pub fn judge(&self, guess: i32) -> (r: Verdict)
        ensures
            r == (if guess < LOWEST || guess > HIGHEST {
                Verdict::OutOfRange
            } else if guess < self.spec_secret() {
                Verdict::TooSmall
            } else if guess > self.spec_secret() {
                Verdict::TooBig
            } else {
                Verdict::Win
            }),
    {
        if guess < LOWEST || guess > HIGHEST {
            Verdict::OutOfRange
        } else if guess < self.secret {
            Verdict::TooSmall
        } else if guess > self.secret {
            Verdict::TooBig
        } else {
            Verdict::Win
        }
    }

    /// Judges a guess that is known to be in range.
    pub fn judge_guess(&self, guess: &Guess) -> (r: Verdict)
        ensures
            r == (if guess.spec_value() < self.spec_secret() {
                Verdict::TooSmall
            } else if guess.spec_value() > self.spec_secret() {
                Verdict::TooBig
            } else {
                Verdict::Win
            }),
    {
        self.judge(guess.value())
    }
}

} // verus!
