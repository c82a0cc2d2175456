use vstd::prelude::*;

verus! {

/// The mathematical value computed by the benchmark workload: a Fibonacci
/// sequence that starts at 1, 1.
pub open spec fn spec_fib(n: nat) -> nat
    decreases n,
{
    if n == 0 {
        1
    } else if n == 1 {
        1
    } else {
        spec_fib((n - 1) as nat) + spec_fib((n - 2) as nat)
    }
}

pub proof fn lemma_fib_monotonic(m: nat, n: nat)
    requires
        m <= n,
    ensures
        spec_fib(m) <= spec_fib(n),
    decreases n,
{
    if n > 1 && m < n {
        lemma_fib_monotonic(m, (n - 1) as nat);
    }
}

/// CPU benchmark workload: the n-th element of the 1,1,2,3,... sequence.
pub fn fibonacci(n: u32) -> (r: u32)
    requires
        spec_fib(n as nat) <= u32::MAX,
    ensures
        r == spec_fib(n as nat),
    decreases n,
{
    if n == 0 {
        1
    } else if n == 1 {
        1
    } else {
        proof {
            lemma_fib_monotonic((n - 1) as nat, n as nat);
            lemma_fib_monotonic((n - 2) as nat, n as nat);
        }
        fibonacci(n - 1) + fibonacci(n - 2)
    }
}

/// Runs the workload once for every count below `loops`, keeping the last
/// result, exactly as the timed benchmark does.
pub fn fibonacci_loop(loops: &u32) -> (r: u32)
    requires
        *loops == 0 || spec_fib((*loops - 1) as nat) <= u32::MAX,
    ensures
        r == if *loops == 0 {
            0u32 as nat
        } else {
            spec_fib((*loops - 1) as nat)
        },
{
    let mut result: u32 = 0;
    let mut n: u32 = 0;
    while n < *loops
        invariant
            n <= *loops,
            *loops == 0 || spec_fib((*loops - 1) as nat) <= u32::MAX,
            result == if n == 0 {
                0u32 as nat
            } else {
                spec_fib((n - 1) as nat)
            },
        decreases *loops - n,
    {
        proof {
            lemma_fib_monotonic(n as nat, (*loops - 1) as nat);
        }
        result = fibonacci(n);
        n = n + 1;
    }
    result
}

/// Mathematical model of `ClientBenchmark`.
pub ghost struct ClientBenchmarkV {
    pub mt_2_result: int,
    pub mt_4_result: int,
    pub mt_8_result: int,
    pub st_result: int,
}

/// Benchmark outcome: seconds of wall time per unit of work for the two-,
/// four- and eight-way multi-threaded runs and the single-threaded run, in
/// hundredths of a second (lower is faster).  Timing the runs is the
/// binary's job; the library carries and scores the resulting ratios.
#[derive(Clone, Copy, Debug)]
pub struct ClientBenchmark {
    mt_2_result: u32,
    mt_4_result: u32,
    mt_8_result: u32,
    st_result: u32,
}

impl View for ClientBenchmark {
    type V = ClientBenchmarkV;

    closed spec fn view(&self) -> ClientBenchmarkV {
        ClientBenchmarkV {
            mt_2_result: self.mt_2_result as int,
            mt_4_result: self.mt_4_result as int,
            mt_8_result: self.mt_8_result as int,
            st_result: self.st_result as int,
        }
    }
}

impl ClientBenchmark {
    pub fn new(mt_2_result: u32, mt_4_result: u32, mt_8_result: u32, st_result: u32) -> (r:
        ClientBenchmark)
        ensures
            r@.mt_2_result == mt_2_result,
            r@.mt_4_result == mt_4_result,
            r@.mt_8_result == mt_8_result,
            r@.st_result == st_result,
    {
        ClientBenchmark { mt_2_result, mt_4_result, mt_8_result, st_result }
    }

    pub fn mt_2_result(&self) -> (r: u32)
        ensures
            r == self@.mt_2_result,
    {
        self.mt_2_result
    }

    pub fn mt_4_result(&self) -> (r: u32)
        ensures
            r == self@.mt_4_result,
    {
        self.mt_4_result
    }

    pub fn mt_8_result(&self) -> (r: u32)
        ensures
            r == self@.mt_8_result,
    {
        self.mt_8_result
    }

    pub fn st_result(&self) -> (r: u32)
        ensures
            r == self@.st_result,
    {
        self.st_result
    }
}

} // verus!
