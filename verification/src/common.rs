//! Shared utilities: small integer helpers, text uppercasing, and the
//! tagged log-line formatter used by every domain object.

use vstd::prelude::*;

verus! {

/// The larger of two values.
pub fn max(a: i32, b: i32) -> (r: i32)
    ensures
        r == if a > b { a } else { b },
{
    if a > b {
        a
    } else {
        b
    }
}

/// The smaller of two values.
pub fn min(a: i32, b: i32) -> (r: i32)
    ensures
        r == if a < b { a } else { b },
{
    if a < b {
        a
    } else {
        b
    }
}

/// The uppercase form of a text, as `str::to_uppercase` defines it.
/// The mapping is a fixed function of the characters alone; it is left
/// abstract here and named by `upper_of`.
pub uninterp spec fn upper_of(s: Seq<char>) -> Seq<char>;

/// Relies on str::to_uppercase: the result is a fixed function of the
/// input characters alone (no locale is consulted).
#[verifier::external_body]
fn uppercase(s: &str) -> (r: String)
    ensures
        r@ == upper_of(s@),
{
    s.to_uppercase()
}

/// Uppercases a text.
pub fn to_upper(s: &str) -> (r: String)
    ensures
        r@ == upper_of(s@),
{
    uppercase(s)
}

/// A console log line: the timestamp and the logger's prefix in brackets,
/// then the message.
pub open spec fn line_spec(timestamp: Seq<char>, prefix: Seq<char>, message: Seq<char>) -> Seq<
    char,
> {
    "["@ + timestamp + "] ["@ + prefix + "] "@ + message
}

/// A tagging log sink. It owns only its prefix; emitting the formatted
/// line to the console is left to the embedding.
pub struct Logger {
    prefix: String,
}

impl Logger {
    /// The prefix every line of this logger carries.
    pub closed spec fn prefix_spec(self) -> Seq<char> {
        self.prefix@
    }

    pub fn new(prefix: &str) -> (r: Self)
        ensures
            r.prefix_spec() == prefix@,
    {
        Logger { prefix: prefix.to_owned() }
    }

    /// Formats one log line from an already-obtained timestamp.
    pub fn line(&self, timestamp: &str, message: &str) -> (r: String)
        ensures
            r@ == line_spec(timestamp@, self.prefix_spec(), message@),
    {
        let mut out = String::new();
        out.append("[");
        out.append(timestamp);
        out.append("] [");
        out.append(self.prefix.as_str());
        out.append("] ");
        out.append(message);
        proof {
            assert(out@ =~= line_spec(timestamp@, self.prefix_spec(), message@));
        }
        out
    }

    /// Relies on chrono's Local::now and its format method: renders the
    /// current local time. The result depends on the clock, so nothing is
    /// claimed of it.
    #[verifier::external_body]
    fn current_timestamp() -> String {
        chrono::Local::now().format("%Y-%m-%d %H:%M:%S").to_string()
    }

    /// Formats a log line stamped with the current time. The embedding
    /// prints the returned line.
    pub fn log(&self, message: &str) -> (r: String)
        ensures
            exists|ts: Seq<char>| r@ == line_spec(ts, self.prefix_spec(), message@),
    {
        let ts = Self::current_timestamp();
        let out = self.line(ts.as_str(), message);
        proof {
            assert(out@ == line_spec(ts@, self.prefix_spec(), message@));
        }
        out
    }

    /// Formats an owned message, as `log` does.
    pub fn logf(&self, message: String) -> (r: String)
        ensures
            exists|ts: Seq<char>| r@ == line_spec(ts, self.prefix_spec(), message@),
    {
        self.log(message.as_str())
    }
}

} // verus!
