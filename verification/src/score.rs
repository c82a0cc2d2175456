use crate::db_statistics::{obs_well_formed, DbStatistics, DbStatisticsV};
use vstd::prelude::*;

verus! {

/// A score is the integer returned by `partial_score` divided by this
/// constant: the nine factors contribute denominators of 10^4, 10^4 and
/// seven times 10^2.
pub const SCORE_DENOM: u128 = 10000000000000000000000;

/// CPU- and memory-usage factor, in ten-thousandths: the percentage's
/// hundredths value itself, floored at 0.01 exactly when it is zero.
pub open spec fn usage_factor(v: int) -> int {
    if v == 0 {
        100
    } else {
        v
    }
}

/// Benchmark factor, in hundredths: one minus the ratio, floored at 0.01
/// when that is zero or below (a ratio of a second or more per unit).
pub open spec fn bench_factor(r: int) -> int {
    if 100 - r <= 0 {
        1
    } else {
        100 - r
    }
}

/// Load-average factor, in hundredths: the load average itself, floored at
/// 0.01 when it is zero or below.
pub open spec fn load_factor(l: int) -> int {
    if l <= 0 {
        1
    } else {
        l
    }
}

/// The score of one observation, scaled by `SCORE_DENOM`: the product of
/// the nine clamped factors and the uptime in seconds.
pub open spec fn spec_partial_score(s: DbStatisticsV) -> int {
    usage_factor(s.cpu_usage) * usage_factor(s.mem_usage) * bench_factor(s.mt_2_result)
        * bench_factor(s.mt_4_result) * bench_factor(s.mt_8_result) * bench_factor(s.st_result)
        * load_factor(s.sys_load_average_fifteen) * load_factor(s.sys_load_average_five)
        * load_factor(s.sys_load_average_one) * s.sys_uptime
}

/// The proof-of-computation total of a history: the sum of the scores of
/// the observations not yet counted toward a proof.
pub open spec fn spec_total_score(ss: Seq<DbStatisticsV>) -> int
    decreases ss.len(),
{
    if ss.len() == 0 {
        0
    } else {
        spec_total_score(ss.drop_last()) + if ss.last().used_for_proof {
            0
        } else {
            spec_partial_score(ss.last())
        }
    }
}

pub open spec fn all_well_formed(ss: Seq<DbStatisticsV>) -> bool {
    forall|i: int| 0 <= i < ss.len() ==> obs_well_formed(#[trigger] ss[i])
}

proof fn lemma_mul_le(a: int, b: int, ab: int, bb: int)
    by (nonlinear_arith)
    requires
        0 <= a <= ab,
        0 <= b <= bb,
    ensures
        0 <= a * b <= ab * bb,
{
}

/// Every factor of a well-formed observation lies between 1 and its scale's
/// cap, so the product is positive and fits well under 2^128.
pub proof fn lemma_partial_score_bounds(s: DbStatisticsV)
    requires
        obs_well_formed(s),
    ensures
        s.sys_uptime >= 1 ==> spec_partial_score(s) >= 1,
        spec_partial_score(s) >= 0,
        spec_partial_score(s) <= 100000000000000000000000000000000000000,
{
    let u1 = usage_factor(s.cpu_usage);
    let u2 = usage_factor(s.mem_usage);
    let f2 = bench_factor(s.mt_2_result);
    let f4 = bench_factor(s.mt_4_result);
    let f8 = bench_factor(s.mt_8_result);
    let fs = bench_factor(s.st_result);
    let l15 = load_factor(s.sys_load_average_fifteen);
    let l5 = load_factor(s.sys_load_average_five);
    let l1 = load_factor(s.sys_load_average_one);
    let up = s.sys_uptime;
    assert(1 <= u1 <= 10000 && 1 <= u2 <= 10000);
    assert(1 <= f2 <= 100 && 1 <= f4 <= 100 && 1 <= f8 <= 100 && 1 <= fs <= 100);
    assert(1 <= l15 <= 10000 && 1 <= l5 <= 10000 && 1 <= l1 <= 10000);
    lemma_mul_le(u1, u2, 10000, 10000);
    lemma_mul_le(u1 * u2, f2, 100000000, 100);
    lemma_mul_le(u1 * u2 * f2, f4, 10000000000, 100);
    lemma_mul_le(u1 * u2 * f2 * f4, f8, 1000000000000, 100);
    lemma_mul_le(u1 * u2 * f2 * f4 * f8, fs, 100000000000000, 100);
    lemma_mul_le(u1 * u2 * f2 * f4 * f8 * fs, l15, 10000000000000000, 10000);
    lemma_mul_le(u1 * u2 * f2 * f4 * f8 * fs * l15, l5, 100000000000000000000, 10000);
    lemma_mul_le(u1 * u2 * f2 * f4 * f8 * fs * l15 * l5, l1, 1000000000000000000000000, 10000);
    lemma_mul_le(
        u1 * u2 * f2 * f4 * f8 * fs * l15 * l5 * l1,
        up,
        10000000000000000000000000000,
        10000000000,
    );
    assert(up >= 1 ==> spec_partial_score(s) >= 1) by (nonlinear_arith)
        requires
            u1 >= 1,
            u2 >= 1,
            f2 >= 1,
            f4 >= 1,
            f8 >= 1,
            fs >= 1,
            l15 >= 1,
            l5 >= 1,
            l1 >= 1,
            spec_partial_score(s) == u1 * u2 * f2 * f4 * f8 * fs * l15 * l5 * l1 * up,
    ;
}

/// The score of one observation, exactly: `spec_partial_score` of its
/// model, scaled by `SCORE_DENOM`.
#[verifier::rlimit(100)]
#[verifier::spinoff_prover]
pub fn partial_score(s: &DbStatistics) -> (r: u128)
    requires
        obs_well_formed(s@),
    ensures
        r == spec_partial_score(s@),
{
    let u1: u128 = if s.cpu_usage() == 0 {
        100
    } else {
        s.cpu_usage() as u128
    };
    let u2: u128 = if s.mem_usage() == 0 {
        100
    } else {
        s.mem_usage() as u128
    };
    let f2: u128 = if s.mt_2_result() >= 100 {
        1
    } else {
        100 - (s.mt_2_result() as u128)
    };
    let f4: u128 = if s.mt_4_result() >= 100 {
        1
    } else {
        100 - (s.mt_4_result() as u128)
    };
    let f8: u128 = if s.mt_8_result() >= 100 {
        1
    } else {
        100 - (s.mt_8_result() as u128)
    };
    let fs: u128 = if s.st_result() >= 100 {
        1
    } else {
        100 - (s.st_result() as u128)
    };
    let l15: u128 = if s.sys_load_average_fifteen() == 0 {
        1
    } else {
        s.sys_load_average_fifteen() as u128
    };
    let l5: u128 = if s.sys_load_average_five() == 0 {
        1
    } else {
        s.sys_load_average_five() as u128
    };
    let l1: u128 = if s.sys_load_average_one() == 0 {
        1
    } else {
        s.sys_load_average_one() as u128
    };
    let up: u128 = s.sys_uptime() as u128;
    proof {
        assert(u1 == usage_factor(s@.cpu_usage));
        assert(u2 == usage_factor(s@.mem_usage));
        assert(f2 == bench_factor(s@.mt_2_result));
        assert(f4 == bench_factor(s@.mt_4_result));
        assert(f8 == bench_factor(s@.mt_8_result));
        assert(fs == bench_factor(s@.st_result));
        assert(l15 == load_factor(s@.sys_load_average_fifteen));
        assert(l5 == load_factor(s@.sys_load_average_five));
        assert(l1 == load_factor(s@.sys_load_average_one));
    }
    proof {
        lemma_mul_le(u1 as int, u2 as int, 10000, 10000);
    }
    let a1: u128 = u1 * u2;
    proof {
        lemma_mul_le(a1 as int, f2 as int, 100000000, 100);
    }
    let a2: u128 = a1 * f2;
    proof {
        lemma_mul_le(a2 as int, f4 as int, 10000000000, 100);
    }
    let a3: u128 = a2 * f4;
    proof {
        lemma_mul_le(a3 as int, f8 as int, 1000000000000, 100);
    }
    let a4: u128 = a3 * f8;
    proof {
        lemma_mul_le(a4 as int, fs as int, 100000000000000, 100);
    }
    let a5: u128 = a4 * fs;
    proof {
        lemma_mul_le(a5 as int, l15 as int, 10000000000000000, 10000);
    }
    let a6: u128 = a5 * l15;
    proof {
        lemma_mul_le(a6 as int, l5 as int, 100000000000000000000, 10000);
    }
    let a7: u128 = a6 * l5;
    proof {
        lemma_mul_le(a7 as int, l1 as int, 1000000000000000000000000, 10000);
    }
    let a8: u128 = a7 * l1;
    proof {
        lemma_mul_le(a8 as int, up as int, 10000000000000000000000000000, 10000000000);
    }
    a8 * up
}

proof fn lemma_mul_strict_right(x: int, y: int, c: int)
    by (nonlinear_arith)
    requires
        x > y >= 0,
        c >= 1,
    ensures
        x * c > y * c,
{
}

proof fn lemma_mul_strict_left(p: int, a: int, b: int)
    by (nonlinear_arith)
    requires
        p >= 1,
        a > b >= 0,
    ensures
        p * a > p * b,
{
}

proof fn lemma_factor_floors(s: DbStatisticsV)
    requires
        obs_well_formed(s),
    ensures
        usage_factor(s.cpu_usage) >= 1,
        usage_factor(s.mem_usage) >= 1,
        bench_factor(s.mt_2_result) >= 1,
        bench_factor(s.mt_4_result) >= 1,
        bench_factor(s.mt_8_result) >= 1,
        bench_factor(s.st_result) >= 1,
        load_factor(s.sys_load_average_fifteen) >= 1,
        load_factor(s.sys_load_average_five) >= 1,
        load_factor(s.sys_load_average_one) >= 1,
{
}

/// Scoring rewards faster benchmarks strictly: with every other field
/// fixed, a smaller two-way ratio gives a strictly larger score, provided
/// the factor was not floored (ratio below one second per unit) and the
/// uptime is not zero.
pub proof fn lemma_score_mt_2_monotonic(a: DbStatisticsV, b: DbStatisticsV)
    requires
        obs_well_formed(a),
        b == (DbStatisticsV { mt_2_result: b.mt_2_result, ..a }),
        0 <= b.mt_2_result < a.mt_2_result < 100,
        a.sys_uptime >= 1,
    ensures
        spec_partial_score(b) > spec_partial_score(a),
{
    lemma_factor_floors(a);
    let p = usage_factor(a.cpu_usage) * usage_factor(a.mem_usage);
    lemma_mul_le(usage_factor(a.cpu_usage), usage_factor(a.mem_usage), 10000, 10000);
    assert(p >= 1) by (nonlinear_arith)
        requires
            usage_factor(a.cpu_usage) >= 1,
            usage_factor(a.mem_usage) >= 1,
            p == usage_factor(a.cpu_usage) * usage_factor(a.mem_usage),
    ;
    lemma_mul_strict_left(p, bench_factor(b.mt_2_result), bench_factor(a.mt_2_result));
    lemma_mul_strict_right(
        p * bench_factor(b.mt_2_result),
        p * bench_factor(a.mt_2_result),
        bench_factor(a.mt_4_result),
    );
    lemma_mul_strict_right(
        p * bench_factor(b.mt_2_result) * bench_factor(a.mt_4_result),
        p * bench_factor(a.mt_2_result) * bench_factor(a.mt_4_result),
        bench_factor(a.mt_8_result),
    );
    lemma_mul_strict_right(
        p * bench_factor(b.mt_2_result) * bench_factor(a.mt_4_result) * bench_factor(a.mt_8_result),
        p * bench_factor(a.mt_2_result) * bench_factor(a.mt_4_result) * bench_factor(a.mt_8_result),
        bench_factor(a.st_result),
    );
    lemma_mul_strict_right(
        p * bench_factor(b.mt_2_result) * bench_factor(a.mt_4_result) * bench_factor(a.mt_8_result)
            * bench_factor(a.st_result),
        p * bench_factor(a.mt_2_result) * bench_factor(a.mt_4_result) * bench_factor(a.mt_8_result)
            * bench_factor(a.st_result),
        load_factor(a.sys_load_average_fifteen),
    );
    lemma_mul_strict_right(
        p * bench_factor(b.mt_2_result) * bench_factor(a.mt_4_result) * bench_factor(a.mt_8_result)
            * bench_factor(a.st_result) * load_factor(a.sys_load_average_fifteen),
        p * bench_factor(a.mt_2_result) * bench_factor(a.mt_4_result) * bench_factor(a.mt_8_result)
            * bench_factor(a.st_result) * load_factor(a.sys_load_average_fifteen),
        load_factor(a.sys_load_average_five),
    );
    lemma_mul_strict_right(
        p * bench_factor(b.mt_2_result) * bench_factor(a.mt_4_result) * bench_factor(a.mt_8_result)
            * bench_factor(a.st_result) * load_factor(a.sys_load_average_fifteen) * load_factor(
            a.sys_load_average_five,
        ),
        p * bench_factor(a.mt_2_result) * bench_factor(a.mt_4_result) * bench_factor(a.mt_8_result)
            * bench_factor(a.st_result) * load_factor(a.sys_load_average_fifteen) * load_factor(
            a.sys_load_average_five,
        ),
        load_factor(a.sys_load_average_one),
    );
    lemma_mul_strict_right(
        p * bench_factor(b.mt_2_result) * bench_factor(a.mt_4_result) * bench_factor(a.mt_8_result)
            * bench_factor(a.st_result) * load_factor(a.sys_load_average_fifteen) * load_factor(
            a.sys_load_average_five,
        ) * load_factor(a.sys_load_average_one),
        p * bench_factor(a.mt_2_result) * bench_factor(a.mt_4_result) * bench_factor(a.mt_8_result)
            * bench_factor(a.st_result) * load_factor(a.sys_load_average_fifteen) * load_factor(
            a.sys_load_average_five,
        ) * load_factor(a.sys_load_average_one),
        a.sys_uptime,
    );
}

/// As `lemma_score_mt_2_monotonic`, for the four-way ratio.
pub proof fn lemma_score_mt_4_monotonic(a: DbStatisticsV, b: DbStatisticsV)
    requires
        obs_well_formed(a),
        b == (DbStatisticsV { mt_4_result: b.mt_4_result, ..a }),
        0 <= b.mt_4_result < a.mt_4_result < 100,
        a.sys_uptime >= 1,
    ensures
        spec_partial_score(b) > spec_partial_score(a),
{
    lemma_factor_floors(a);
    let p = usage_factor(a.cpu_usage) * usage_factor(a.mem_usage) * bench_factor(a.mt_2_result);
    assert(p >= 1) by (nonlinear_arith)
        requires
            usage_factor(a.cpu_usage) >= 1,
            usage_factor(a.mem_usage) >= 1,
            bench_factor(a.mt_2_result) >= 1,
            p == usage_factor(a.cpu_usage) * usage_factor(a.mem_usage) * bench_factor(
                a.mt_2_result,
            ),
    ;
    lemma_mul_strict_left(p, bench_factor(b.mt_4_result), bench_factor(a.mt_4_result));
    lemma_mul_strict_right(
        p * bench_factor(b.mt_4_result),
        p * bench_factor(a.mt_4_result),
        bench_factor(a.mt_8_result),
    );
    lemma_mul_strict_right(
        p * bench_factor(b.mt_4_result) * bench_factor(a.mt_8_result),
        p * bench_factor(a.mt_4_result) * bench_factor(a.mt_8_result),
        bench_factor(a.st_result),
    );
    lemma_mul_strict_right(
        p * bench_factor(b.mt_4_result) * bench_factor(a.mt_8_result) * bench_factor(a.st_result),
        p * bench_factor(a.mt_4_result) * bench_factor(a.mt_8_result) * bench_factor(a.st_result),
        load_factor(a.sys_load_average_fifteen),
    );
    lemma_mul_strict_right(
        p * bench_factor(b.mt_4_result) * bench_factor(a.mt_8_result) * bench_factor(a.st_result)
            * load_factor(a.sys_load_average_fifteen),
        p * bench_factor(a.mt_4_result) * bench_factor(a.mt_8_result) * bench_factor(a.st_result)
            * load_factor(a.sys_load_average_fifteen),
        load_factor(a.sys_load_average_five),
    );
    lemma_mul_strict_right(
        p * bench_factor(b.mt_4_result) * bench_factor(a.mt_8_result) * bench_factor(a.st_result)
            * load_factor(a.sys_load_average_fifteen) * load_factor(a.sys_load_average_five),
        p * bench_factor(a.mt_4_result) * bench_factor(a.mt_8_result) * bench_factor(a.st_result)
            * load_factor(a.sys_load_average_fifteen) * load_factor(a.sys_load_average_five),
        load_factor(a.sys_load_average_one),
    );
    lemma_mul_strict_right(
        p * bench_factor(b.mt_4_result) * bench_factor(a.mt_8_result) * bench_factor(a.st_result)
            * load_factor(a.sys_load_average_fifteen) * load_factor(a.sys_load_average_five)
            * load_factor(a.sys_load_average_one),
        p * bench_factor(a.mt_4_result) * bench_factor(a.mt_8_result) * bench_factor(a.st_result)
            * load_factor(a.sys_load_average_fifteen) * load_factor(a.sys_load_average_five)
            * load_factor(a.sys_load_average_one),
        a.sys_uptime,
    );
}

/// As `lemma_score_mt_2_monotonic`, for the eight-way ratio.
pub proof fn lemma_score_mt_8_monotonic(a: DbStatisticsV, b: DbStatisticsV)
    requires
        obs_well_formed(a),
        b == (DbStatisticsV { mt_8_result: b.mt_8_result, ..a }),
        0 <= b.mt_8_result < a.mt_8_result < 100,
        a.sys_uptime >= 1,
    ensures
        spec_partial_score(b) > spec_partial_score(a),
{
    lemma_factor_floors(a);
    let p = usage_factor(a.cpu_usage) * usage_factor(a.mem_usage) * bench_factor(a.mt_2_result)
        * bench_factor(a.mt_4_result);
    assert(p >= 1) by (nonlinear_arith)
        requires
            usage_factor(a.cpu_usage) >= 1,
            usage_factor(a.mem_usage) >= 1,
            bench_factor(a.mt_2_result) >= 1,
            bench_factor(a.mt_4_result) >= 1,
            p == usage_factor(a.cpu_usage) * usage_factor(a.mem_usage) * bench_factor(
                a.mt_2_result,
            ) * bench_factor(a.mt_4_result),
    ;
    lemma_mul_strict_left(p, bench_factor(b.mt_8_result), bench_factor(a.mt_8_result));
    lemma_mul_strict_right(
        p * bench_factor(b.mt_8_result),
        p * bench_factor(a.mt_8_result),
        bench_factor(a.st_result),
    );
    lemma_mul_strict_right(
        p * bench_factor(b.mt_8_result) * bench_factor(a.st_result),
        p * bench_factor(a.mt_8_result) * bench_factor(a.st_result),
        load_factor(a.sys_load_average_fifteen),
    );
    lemma_mul_strict_right(
        p * bench_factor(b.mt_8_result) * bench_factor(a.st_result) * load_factor(
            a.sys_load_average_fifteen,
        ),
        p * bench_factor(a.mt_8_result) * bench_factor(a.st_result) * load_factor(
            a.sys_load_average_fifteen,
        ),
        load_factor(a.sys_load_average_five),
    );
    lemma_mul_strict_right(
        p * bench_factor(b.mt_8_result) * bench_factor(a.st_result) * load_factor(
            a.sys_load_average_fifteen,
        ) * load_factor(a.sys_load_average_five),
        p * bench_factor(a.mt_8_result) * bench_factor(a.st_result) * load_factor(
            a.sys_load_average_fifteen,
        ) * load_factor(a.sys_load_average_five),
        load_factor(a.sys_load_average_one),
    );
    lemma_mul_strict_right(
        p * bench_factor(b.mt_8_result) * bench_factor(a.st_result) * load_factor(
            a.sys_load_average_fifteen,
        ) * load_factor(a.sys_load_average_five) * load_factor(a.sys_load_average_one),
        p * bench_factor(a.mt_8_result) * bench_factor(a.st_result) * load_factor(
            a.sys_load_average_fifteen,
        ) * load_factor(a.sys_load_average_five) * load_factor(a.sys_load_average_one),
        a.sys_uptime,
    );
}

/// As `lemma_score_mt_2_monotonic`, for the single-thread ratio.
pub proof fn lemma_score_st_monotonic(a: DbStatisticsV, b: DbStatisticsV)
    requires
        obs_well_formed(a),
        b == (DbStatisticsV { st_result: b.st_result, ..a }),
        0 <= b.st_result < a.st_result < 100,
        a.sys_uptime >= 1,
    ensures
        spec_partial_score(b) > spec_partial_score(a),
{
    lemma_factor_floors(a);
    let p = usage_factor(a.cpu_usage) * usage_factor(a.mem_usage) * bench_factor(a.mt_2_result)
        * bench_factor(a.mt_4_result) * bench_factor(a.mt_8_result);
    assert(p >= 1) by (nonlinear_arith)
        requires
            usage_factor(a.cpu_usage) >= 1,
            usage_factor(a.mem_usage) >= 1,
            bench_factor(a.mt_2_result) >= 1,
            bench_factor(a.mt_4_result) >= 1,
            bench_factor(a.mt_8_result) >= 1,
            p == usage_factor(a.cpu_usage) * usage_factor(a.mem_usage) * bench_factor(
                a.mt_2_result,
            ) * bench_factor(a.mt_4_result) * bench_factor(a.mt_8_result),
    ;
    lemma_mul_strict_left(p, bench_factor(b.st_result), bench_factor(a.st_result));
    lemma_mul_strict_right(
        p * bench_factor(b.st_result),
        p * bench_factor(a.st_result),
        load_factor(a.sys_load_average_fifteen),
    );
    lemma_mul_strict_right(
        p * bench_factor(b.st_result) * load_factor(a.sys_load_average_fifteen),
        p * bench_factor(a.st_result) * load_factor(a.sys_load_average_fifteen),
        load_factor(a.sys_load_average_five),
    );
    lemma_mul_strict_right(
        p * bench_factor(b.st_result) * load_factor(a.sys_load_average_fifteen) * load_factor(
            a.sys_load_average_five,
        ),
        p * bench_factor(a.st_result) * load_factor(a.sys_load_average_fifteen) * load_factor(
            a.sys_load_average_five,
        ),
        load_factor(a.sys_load_average_one),
    );
    lemma_mul_strict_right(
        p * bench_factor(b.st_result) * load_factor(a.sys_load_average_fifteen) * load_factor(
            a.sys_load_average_five,
        ) * load_factor(a.sys_load_average_one),
        p * bench_factor(a.st_result) * load_factor(a.sys_load_average_fifteen) * load_factor(
            a.sys_load_average_five,
        ) * load_factor(a.sys_load_average_one),
        a.sys_uptime,
    );
}

} // verus!
