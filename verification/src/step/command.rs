//! Command steps: running shell commands in order, with a wait and a retry on rate limits.

use vstd::arithmetic::power2::{lemma_pow2_strictly_increases, lemma_pow2_unfold, pow2};
use vstd::prelude::*;

use crate::text::{contains, decimal, decimal_of, has};

verus! {

/// Result of executing a command step.
#[derive(Debug)]
pub struct CommandResult {
    pub success: bool,
    pub stderr: String,
}

// ---------------------------------------------------------------------------
// Rate limits
// ---------------------------------------------------------------------------

/// What `str::to_lowercase` makes of a text.
pub uninterp spec fn lowercase(s: Seq<char>) -> Seq<char>;

/// `str::to_lowercase` maps a text to its lower case by the rules of Unicode; the result
/// depends on the text alone.
#[verifier::external_body]
pub(crate) fn to_lowercase(s: &str) -> (r: String)
    ensures
        r@ == lowercase(s@),
{
    s.to_lowercase()
}

/// A text in lower case speaks of a rate limit.
pub open spec fn speaks_of_rate_limit(lower: Seq<char>) -> bool {
    ||| contains(lower, "rate limit"@)
    ||| contains(lower, "429"@)
    ||| contains(lower, "too many requests"@)
    ||| contains(lower, "ratelimit"@)
}

/// Whether a text in lower case speaks of a rate limit.
pub fn mentions_rate_limit(lower: &str) -> (r: bool)
    ensures
        r == speaks_of_rate_limit(lower@),
{
    has(lower, "rate limit") || has(lower, "429") || has(lower, "too many requests") || has(
        lower,
        "ratelimit",
    )
}

/// Return true if `stderr` indicates a rate-limit error.
pub fn is_rate_limited(stderr: &str) -> (r: bool)
    ensures
        r == speaks_of_rate_limit(lowercase(stderr@)),
{
    let lower = to_lowercase(stderr);
    mentions_rate_limit(lower.as_str())
}

// ---------------------------------------------------------------------------
// Backoff
// ---------------------------------------------------------------------------

/// The seconds to wait before the given attempt: two, doubled with each further attempt, and
/// sixty at most.
pub open spec fn backoff(attempt: nat) -> nat {
    let n: nat = if attempt < 1 {
        1
    } else {
        attempt
    };
    if pow2(n) < 60 {
        pow2(n)
    } else {
        60
    }
}

/// Exponential backoff in seconds: 2s base, 60s cap.
pub fn calculate_backoff(attempt: usize) -> (r: u64)
    ensures
        r == backoff(attempt as nat),
{
    let n: usize = if attempt < 1 {
        1
    } else {
        attempt
    };
    let mut secs: u64 = 2;
    let mut i: usize = 1;
    proof {
        lemma_pow2_unfold(1);
        vstd::arithmetic::power2::lemma2_to64();
    }
    while i < n
        invariant
            1 <= i <= n,
            secs == pow2(i as nat),
            secs < 60,
            n == (if attempt < 1 {
                1
            } else {
                attempt as int
            }),
        decreases n - i,
    {
        proof {
            lemma_pow2_unfold((i + 1) as nat);
        }
        secs = secs * 2;
        i += 1;
        if secs >= 60 {
            proof {
                if i < n {
                    lemma_pow2_strictly_increases(i as nat, n as nat);
                }
            }
            return 60;
        }
    }
    secs
}

/// Waiting never gets shorter with a further attempt, and stays between two and sixty seconds.
pub proof fn law_backoff_grows_to_its_cap(a: nat, b: nat)
    requires
        a <= b,
    ensures
        2 <= backoff(a) <= backoff(b) <= 60,
{
    let m: nat = if a < 1 {
        1
    } else {
        a
    };
    let n: nat = if b < 1 {
        1
    } else {
        b
    };
    vstd::arithmetic::power2::lemma2_to64();
    if 1 < m {
        lemma_pow2_strictly_increases(1, m);
    }
    if m < n {
        lemma_pow2_strictly_increases(m, n);
    }
}

// ---------------------------------------------------------------------------
// Retries
// ---------------------------------------------------------------------------

/// A wait before another attempt.
#[derive(Debug)]
pub struct Retry {
    /// The number of retries so far, this one included.
    pub attempts: usize,
    /// The seconds to wait.
    pub delay_secs: u64,
    /// What to tell the user.
    pub notice: String,
}

/// What the user is told before a retry.
pub open spec fn retry_notice(attempts: nat, max_retries: nat) -> Seq<char> {
    "Rate limit detected. Retrying in "@ + decimal(backoff(attempts)) + ".0s... ("@ + decimal(
        attempts,
    ) + "/"@ + decimal(max_retries) + ")"@
}

/// Decides on a retry after a failed attempt: there is one exactly if the failure was a rate
/// limit and a retry is left.
pub fn plan_retry(limited: bool, attempts: usize, max_retries: usize) -> (r: Option<Retry>)
    ensures
        match r {
            Some(retry) => {
                &&& limited
                &&& attempts < max_retries
                &&& retry.attempts == attempts + 1
                &&& retry.delay_secs == backoff((attempts + 1) as nat)
                &&& retry.notice@ == retry_notice((attempts + 1) as nat, max_retries as nat)
            },
            None => !limited || attempts >= max_retries,
        },
{
    if !limited || attempts >= max_retries {
        return None;
    }
    let attempts: usize = attempts + 1;
    let delay_secs = calculate_backoff(attempts);
    let mut notice = "Rate limit detected. Retrying in ".to_owned();
    notice.append(decimal_of(delay_secs).as_str());
    notice.append(".0s... (");
    notice.append(decimal_of(attempts as u64).as_str());
    notice.append("/");
    notice.append(decimal_of(max_retries as u64).as_str());
    notice.append(")");
    Some(Retry { attempts, delay_secs, notice })
}

// ---------------------------------------------------------------------------
// Command lists
// ---------------------------------------------------------------------------

/// Where the run of a command list stands.
#[derive(Debug)]
pub struct CommandRun {
    /// The number of commands.
    pub total: usize,
    /// How often a command may be retried.
    pub max_retries: usize,
    /// The command that runs next.
    pub index: usize,
    /// The retries of that command so far.
    pub attempts: usize,
}

/// How the run of a command list begins.
#[derive(Debug)]
pub enum CommandStart {
    /// There is no command to run; this is the result of the list.
    Nothing(CommandResult),
    /// Run the command at `index`.
    Run(CommandRun),
}

/// What follows the execution of one command.
#[derive(Debug)]
pub enum CommandNext {
    /// Run the command at `index`.
    Run,
    /// Wait, then run the command at `index` once more.
    RetryAfter(Retry),
    /// All is done; the last result is the result of the list.
    Done,
}

impl CommandRun {
    /// The indices stay within their bounds.
    pub open spec fn wf(self) -> bool {
        self.index <= self.total && self.attempts <= self.max_retries
    }

    /// The executions that can still follow.
    pub open spec fn fuel(self) -> int {
        (self.total - self.index) * (self.max_retries + 1) - self.attempts
    }

    /// The start of a run of `total` commands.
    pub fn start(total: usize, max_retries: usize) -> (r: Self)
        ensures
            r.wf(),
            r == (CommandRun { total, max_retries, index: 0, attempts: 0 }),
    {
        CommandRun { total, max_retries, index: 0, attempts: 0 }
    }

    /// How the run of `total` commands begins. An empty list succeeds and says nothing.
    pub fn begin(total: usize, max_retries: usize) -> (r: CommandStart)
        ensures
            match r {
                CommandStart::Nothing(result) => {
                    &&& total == 0
                    &&& result.success
                    &&& result.stderr@ == ""@
                },
                CommandStart::Run(run) => {
                    &&& total > 0
                    &&& run.wf()
                    &&& run == (CommandRun { total, max_retries, index: 0, attempts: 0 })
                },
            },
    {
        if total == 0 {
            CommandStart::Nothing(CommandResult { success: true, stderr: "".to_owned() })
        } else {
            CommandStart::Run(CommandRun::start(total, max_retries))
        }
    }

    /// What has to follow an execution of the command at `index` that succeeded or not, and
    /// failed for a rate limit or not: the state after it, and the next thing to do.
    ///
    /// A success leads on to the next command, a rate limit to a retry while one is left, and
    /// any other failure ends the list.
    pub open spec fn follows(
        self,
        success: bool,
        limited: bool,
        after: CommandRun,
        next: CommandNext,
    ) -> bool {
        &&& after.total == self.total
        &&& after.max_retries == self.max_retries
        &&& match next {
            CommandNext::Run => {
                &&& success
                &&& self.index + 1 < self.total
                &&& after.index == self.index + 1
                &&& after.attempts == 0
            },
            CommandNext::RetryAfter(retry) => {
                &&& !success
                &&& limited
                &&& self.attempts < self.max_retries
                &&& after.index == self.index
                &&& after.attempts == self.attempts + 1
                &&& retry.attempts == self.attempts + 1
                &&& retry.delay_secs == backoff((self.attempts + 1) as nat)
                &&& retry.notice@ == retry_notice(
                    (self.attempts + 1) as nat,
                    self.max_retries as nat,
                )
            },
            CommandNext::Done => if success {
                &&& self.index + 1 == self.total
                &&& after.index == self.total
                &&& after.attempts == 0
            } else {
                &&& !limited || self.attempts >= self.max_retries
                &&& after == self
            },
        }
    }

    /// Decides what follows an execution of the command at `index`.
    pub fn follow(&mut self, success: bool, limited: bool) -> (r: CommandNext)
        requires
            old(self).wf(),
            old(self).index < old(self).total,
        ensures
            final(self).wf(),
            old(self).follows(success, limited, *final(self), r),
            // Every execution that is followed by another one uses up fuel.
            !(r is Done) ==> 0 < final(self).fuel() < old(self).fuel(),
    {
        if success {
            self.index += 1;
            self.attempts = 0;
            proof {
                let m = self.max_retries + 1;
                let left = self.total - self.index;
                assert((left + 1) * m == left * m + m) by (nonlinear_arith);
                assert(left >= 1 ==> left * m >= m) by (nonlinear_arith)
                    requires
                        m >= 1,
                ;
            }
            if self.index < self.total {
                CommandNext::Run
            } else {
                CommandNext::Done
            }
        } else {
            match plan_retry(limited, self.attempts, self.max_retries) {
                Some(retry) => {
                    self.attempts = retry.attempts;
                    proof {
                        let m = self.max_retries + 1;
                        let left = self.total - self.index;
                        assert(left * m >= m) by (nonlinear_arith)
                            requires
                                m >= 1,
                                left >= 1,
                        ;
                    }
                    CommandNext::RetryAfter(retry)
                },
                None => CommandNext::Done,
            }
        }
    }

    /// Decides what follows an execution of the command at `index` with the given result.
    pub fn feed(&mut self, result: &CommandResult) -> (r: CommandNext)
        requires
            old(self).wf(),
            old(self).index < old(self).total,
        ensures
            final(self).wf(),
            old(self).follows(
                result.success,
                speaks_of_rate_limit(lowercase(result.stderr@)),
                *final(self),
                r,
            ),
            !(r is Done) ==> 0 < final(self).fuel() < old(self).fuel(),
    {
        let limited = is_rate_limited(result.stderr.as_str());
        self.follow(result.success, limited)
    }
}

} // verus!
