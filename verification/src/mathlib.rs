//! The calculator domain object: the arithmetic operations exposed across
//! the boundary.

use crate::common::Logger;
use vstd::prelude::*;

verus! {

/// The factorial the calculator computes: `n!` for `n >= 2`, and 1 for
/// every smaller argument (negative ones included).
pub open spec fn fact(n: int) -> int
    decreases n,
{
    if n <= 1 {
        1
    } else {
        n * fact(n - 1)
    }
}

/// Factorials are at least 1.
proof fn lemma_fact_pos(n: int)
    ensures
        fact(n) >= 1,
    decreases n,
{
    if n > 1 {
        lemma_fact_pos(n - 1);
        assert(n * fact(n - 1) >= n) by (nonlinear_arith)
            requires
                n >= 2,
                fact(n - 1) >= 1,
        ;
    }
}

/// Factorials grow with their argument.
proof fn lemma_fact_monotone(m: int, n: int)
    requires
        m <= n,
    ensures
        fact(m) <= fact(n),
    decreases n - m,
{
    if m < n {
        lemma_fact_monotone(m, n - 1);
        lemma_fact_pos(n - 1);
        if n > 1 {
            assert(n * fact(n - 1) >= fact(n - 1)) by (nonlinear_arith)
                requires
                    n >= 2,
                    fact(n - 1) >= 1,
            ;
        }
    }
}

/// Every factorial up to 20! fits in a 64-bit signed result.
proof fn lemma_fact_fits(n: int)
    requires
        n <= 20,
    ensures
        1 <= fact(n) <= 2432902008176640000,
{
    lemma_fact_pos(n);
    lemma_fact_monotone(n, 20);
    assert(fact(1) == 1);
    assert(fact(2) == 2);
    assert(fact(3) == 6);
    assert(fact(4) == 24);
    assert(fact(5) == 120);
    assert(fact(6) == 720);
    assert(fact(7) == 5040);
    assert(fact(8) == 40320);
    assert(fact(9) == 362880);
    assert(fact(10) == 3628800);
    assert(fact(11) == 39916800);
    assert(fact(12) == 479001600);
    assert(fact(13) == 6227020800);
    assert(fact(14) == 87178291200);
    assert(fact(15) == 1307674368000);
    assert(fact(16) == 20922789888000);
    assert(fact(17) == 355687428096000);
    assert(fact(18) == 6402373705728000);
    assert(fact(19) == 121645100408832000);
    assert(fact(20) == 2432902008176640000);
}

/// A calculator instance. It owns only its log sink; every operation is a
/// pure function of its arguments.
pub struct Calculator {
    logger: Logger,
}

impl Calculator {
    /// The prefix the calculator's log sink tags lines with.
    pub closed spec fn logger_prefix(self) -> Seq<char> {
        self.logger.prefix_spec()
    }

    pub fn new() -> (r: Self)
        ensures
            r.logger_prefix() == "MathLib"@,
    {
        Calculator { logger: Logger::new("MathLib") }
    }

    /// The sum of the two arguments.
    pub fn add(&self, a: i32, b: i32) -> (r: i32)
        requires
            i32::MIN <= a + b <= i32::MAX,
        ensures
            r == a + b,
    {
        a + b
    }

    /// The product of the two arguments.
    pub fn multiply(&self, a: i32, b: i32) -> (r: i32)
        requires
            i32::MIN <= a * b <= i32::MAX,
        ensures
            r == a * b,
    {
        a * b
    }

    /// The factorial of the argument; arguments above 20 are excluded, as
    /// their factorial does not fit the 64-bit result.
    pub fn factorial(&self, n: i32) -> (r: i64)
        requires
            n <= 20,
        ensures
            r == fact(n as int),
    {
        if n <= 1 {
            return 1;
        }
        let mut acc: i64 = 1;
        let mut i: i32 = 1;
        while i < n
            invariant
                1 <= i <= n <= 20,
                acc == fact(i as int),
            decreases n - i,
        {
            proof {
                lemma_fact_fits(i + 1);
                assert(fact(i + 1) == (i + 1) * fact(i as int));
                assert(acc * (i + 1) == fact(i + 1)) by (nonlinear_arith)
                    requires
                        acc == fact(i as int),
                        fact(i + 1) == (i + 1) * fact(i as int),
                ;
            }
            i += 1;
            acc = acc * (i as i64);
        }
        acc
    }

    /// The largest of the three arguments.
    pub fn max_of_three(&self, a: i32, b: i32, c: i32) -> (r: i32)
        ensures
            r >= a && r >= b && r >= c,
            r == a || r == b || r == c,
    {
        crate::common::max(crate::common::max(a, b), c)
    }
}

} // verus!
