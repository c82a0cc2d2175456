use crate::db::{entries_unique, Db, DbEntry, DbEntryV};
use crate::db_record::{DbRecord, DbRecordV};
use crate::db_statistics::{obs_in_range, obs_well_formed, DbStatistics, DbStatisticsV};
use vstd::prelude::*;
use vstd::string::StrSliceExecFns;

verus! {

// ---------------------------------------------------------------------
// The snapshot byte format, as mathematics.  Integers are eight bytes,
// least significant first; characters are their scalar value in four
// bytes; a string is its character count followed by its characters; a
// sequence is its length followed by its elements.
// ---------------------------------------------------------------------

pub open spec fn enc_u64(v: u64) -> Seq<u8> {
    seq![
        (v & 0xff) as u8,
        ((v >> 8) & 0xff) as u8,
        ((v >> 16) & 0xff) as u8,
        ((v >> 24) & 0xff) as u8,
        ((v >> 32) & 0xff) as u8,
        ((v >> 40) & 0xff) as u8,
        ((v >> 48) & 0xff) as u8,
        ((v >> 56) & 0xff) as u8,
    ]
}

pub open spec fn enc_u32(v: u32) -> Seq<u8> {
    seq![
        (v & 0xff) as u8,
        ((v >> 8) & 0xff) as u8,
        ((v >> 16) & 0xff) as u8,
        ((v >> 24) & 0xff) as u8,
    ]
}

pub open spec fn enc_char(c: char) -> Seq<u8> {
    enc_u32(c as u32)
}

pub open spec fn enc_chars(s: Seq<char>) -> Seq<u8>
    decreases s.len(),
{
    if s.len() == 0 {
        Seq::empty()
    } else {
        enc_chars(s.drop_last()) + enc_char(s.last())
    }
}

pub open spec fn enc_str(s: Seq<char>) -> Seq<u8> {
    enc_u64(s.len() as u64) + enc_chars(s)
}

pub proof fn lemma_enc_chars_len(s: Seq<char>)
    ensures
        enc_chars(s).len() == 4 * s.len(),
    decreases s.len(),
{
    if s.len() > 0 {
        lemma_enc_chars_len(s.drop_last());
    }
}

proof fn lemma_enc_chars_step(s: Seq<char>, i: int)
    requires
        0 <= i < s.len(),
    ensures
        enc_chars(s.take(i + 1)) == enc_chars(s.take(i)) + enc_char(s[i]),
{
    assert(s.take(i + 1).drop_last() =~= s.take(i));
    assert(s.take(i + 1).last() == s[i]);
}

/// `b` holds `s` starting at `pos`.
pub open spec fn starts_with_at(b: Seq<u8>, pos: int, s: Seq<u8>) -> bool {
    0 <= pos && pos + s.len() <= b.len() && b.subrange(pos, pos + s.len()) == s
}

proof fn lemma_split(b: Seq<u8>, pos: int, x: Seq<u8>, y: Seq<u8>)
    requires
        starts_with_at(b, pos, x + y),
    ensures
        starts_with_at(b, pos, x),
        starts_with_at(b, pos + x.len(), y),
{
    let xy = x + y;
    assert forall|k: int| 0 <= k < x.len() implies b.subrange(pos, pos + x.len())[k] == x[k] by {
        assert(b[pos + k] == b.subrange(pos, pos + xy.len())[k]);
        assert(xy[k] == x[k]);
    }
    assert(b.subrange(pos, pos + x.len()) =~= x);
    assert forall|k: int|
        0 <= k < y.len() implies b.subrange(pos + x.len(), pos + x.len() + y.len())[k] == y[k] by {
        assert(b[pos + x.len() + k] == b.subrange(pos, pos + xy.len())[x.len() + k]);
        assert(xy[x.len() + k] == y[k]);
    }
    assert(b.subrange(pos + x.len(), pos + x.len() + y.len()) =~= y);
}

// ---------------------------------------------------------------------
// Writers: each appends exactly the encoding of its value.
// ---------------------------------------------------------------------

fn write_u64(out: &mut Vec<u8>, v: u64)
    ensures
        final(out)@ == old(out)@ + enc_u64(v),
{
    proof {
        assert((v & 0xff) < 256 && ((v >> 8) & 0xff) < 256 && ((v >> 16) & 0xff) < 256 && ((v
            >> 24) & 0xff) < 256 && ((v >> 32) & 0xff) < 256 && ((v >> 40) & 0xff) < 256 && ((v
            >> 48) & 0xff) < 256 && ((v >> 56) & 0xff) < 256) by (bit_vector);
    }
    out.push((v & 0xff) as u8);
    out.push(((v >> 8) & 0xff) as u8);
    out.push(((v >> 16) & 0xff) as u8);
    out.push(((v >> 24) & 0xff) as u8);
    out.push(((v >> 32) & 0xff) as u8);
    out.push(((v >> 40) & 0xff) as u8);
    out.push(((v >> 48) & 0xff) as u8);
    out.push(((v >> 56) & 0xff) as u8);
    proof {
        assert(final(out)@ =~= old(out)@ + enc_u64(v));
    }
}

fn write_u32(out: &mut Vec<u8>, v: u32)
    ensures
        final(out)@ == old(out)@ + enc_u32(v),
{
    proof {
        assert((v & 0xff) < 256 && ((v >> 8) & 0xff) < 256 && ((v >> 16) & 0xff) < 256 && ((v
            >> 24) & 0xff) < 256) by (bit_vector);
    }
    out.push((v & 0xff) as u8);
    out.push(((v >> 8) & 0xff) as u8);
    out.push(((v >> 16) & 0xff) as u8);
    out.push(((v >> 24) & 0xff) as u8);
    proof {
        assert(final(out)@ =~= old(out)@ + enc_u32(v));
    }
}

fn write_str(out: &mut Vec<u8>, s: &str)
    ensures
        final(out)@ == old(out)@ + enc_str(s@),
{
    let n = s.unicode_len();
    write_u64(out, n as u64);
    let mut i: usize = 0;
    proof {
        assert(enc_chars(s@.take(0)) =~= Seq::<u8>::empty());
        assert(out@ =~= old(out)@ + enc_u64(n as u64) + enc_chars(s@.take(0)));
    }
    while i < n
        invariant
            i <= n,
            n == s@.len(),
            out@ == old(out)@ + enc_u64(n as u64) + enc_chars(s@.take(i as int)),
        decreases n - i,
    {
        let c = s.get_char(i);
        proof {
            lemma_enc_chars_step(s@, i as int);
        }
        write_u32(out, c as u32);
        i += 1;
    }
    proof {
        assert(s@.take(n as int) =~= s@);
        assert(old(out)@ + enc_u64(n as u64) + enc_chars(s@) =~= old(out)@ + enc_str(s@));
    }
}

// ---------------------------------------------------------------------
// Readers: whenever the bytes at `pos` hold the encoding of a value, the
// reader returns exactly that value and stops exactly after it.
// ---------------------------------------------------------------------

fn read_u64(bytes: &Vec<u8>, pos: usize) -> (r: Option<(u64, usize)>)
    ensures
        forall|w: u64|
            #[trigger] starts_with_at(bytes@, pos as int, enc_u64(w)) ==> r == Some(
                (w, (pos + 8) as usize),
            ),
        r is Some ==> pos + 8 <= bytes@.len() && r.unwrap().1 == pos + 8,
{
    if bytes.len() < 8 || pos > bytes.len() - 8 {
        return None;
    }
    let b0 = bytes[pos];
    let b1 = bytes[pos + 1];
    let b2 = bytes[pos + 2];
    let b3 = bytes[pos + 3];
    let b4 = bytes[pos + 4];
    let b5 = bytes[pos + 5];
    let b6 = bytes[pos + 6];
    let b7 = bytes[pos + 7];
    let v: u64 = (b0 as u64) | ((b1 as u64) << 8) | ((b2 as u64) << 16) | ((b3 as u64) << 24) | ((
    b4 as u64) << 32) | ((b5 as u64) << 40) | ((b6 as u64) << 48) | ((b7 as u64) << 56);
    proof {
        assert forall|w: u64| #[trigger]
            starts_with_at(bytes@, pos as int, enc_u64(w)) implies v == w by {
            assert(bytes@.subrange(pos as int, pos as int + 8)[0] == b0);
            assert(bytes@.subrange(pos as int, pos as int + 8)[1] == b1);
            assert(bytes@.subrange(pos as int, pos as int + 8)[2] == b2);
            assert(bytes@.subrange(pos as int, pos as int + 8)[3] == b3);
            assert(bytes@.subrange(pos as int, pos as int + 8)[4] == b4);
            assert(bytes@.subrange(pos as int, pos as int + 8)[5] == b5);
            assert(bytes@.subrange(pos as int, pos as int + 8)[6] == b6);
            assert(bytes@.subrange(pos as int, pos as int + 8)[7] == b7);
            assert(v == w) by (bit_vector)
                requires
                    b0 == (w & 0xff) as u8,
                    b1 == ((w >> 8) & 0xff) as u8,
                    b2 == ((w >> 16) & 0xff) as u8,
                    b3 == ((w >> 24) & 0xff) as u8,
                    b4 == ((w >> 32) & 0xff) as u8,
                    b5 == ((w >> 40) & 0xff) as u8,
                    b6 == ((w >> 48) & 0xff) as u8,
                    b7 == ((w >> 56) & 0xff) as u8,
                    v == (b0 as u64) | ((b1 as u64) << 8) | ((b2 as u64) << 16) | ((b3 as u64)
                        << 24) | ((b4 as u64) << 32) | ((b5 as u64) << 40) | ((b6 as u64) << 48) | (
                    (b7 as u64) << 56),
            ;
        }
    }
    Some((v, pos + 8))
}

fn read_u32(bytes: &Vec<u8>, pos: usize) -> (r: Option<(u32, usize)>)
    ensures
        forall|w: u32|
            #[trigger] starts_with_at(bytes@, pos as int, enc_u32(w)) ==> r == Some(
                (w, (pos + 4) as usize),
            ),
        r is Some ==> pos + 4 <= bytes@.len() && r.unwrap().1 == pos + 4,
{
    if bytes.len() < 4 || pos > bytes.len() - 4 {
        return None;
    }
    let b0 = bytes[pos];
    let b1 = bytes[pos + 1];
    let b2 = bytes[pos + 2];
    let b3 = bytes[pos + 3];
    let v: u32 = (b0 as u32) | ((b1 as u32) << 8) | ((b2 as u32) << 16) | ((b3 as u32) << 24);
    proof {
        assert forall|w: u32| #[trigger]
            starts_with_at(bytes@, pos as int, enc_u32(w)) implies v == w by {
            assert(bytes@.subrange(pos as int, pos as int + 4)[0] == b0);
            assert(bytes@.subrange(pos as int, pos as int + 4)[1] == b1);
            assert(bytes@.subrange(pos as int, pos as int + 4)[2] == b2);
            assert(bytes@.subrange(pos as int, pos as int + 4)[3] == b3);
            assert(v == w) by (bit_vector)
                requires
                    b0 == (w & 0xff) as u8,
                    b1 == ((w >> 8) & 0xff) as u8,
                    b2 == ((w >> 16) & 0xff) as u8,
                    b3 == ((w >> 24) & 0xff) as u8,
                    v == (b0 as u32) | ((b1 as u32) << 8) | ((b2 as u32) << 16) | ((b3 as u32)
                        << 24),
            ;
        }
    }
    Some((v, pos + 4))
}

/// A value that `char::from_u32` accepts: below the surrogate range or
/// between it and the last code point.
pub open spec fn is_unicode_scalar(x: u32) -> bool {
    x < 0xD800 || (0xE000 <= x && x < 0x110000)
}

/// Relies on char::from_u32: it succeeds exactly on Unicode scalar values
/// and returns the character with that scalar value.
#[verifier::external_body]
fn char_from_u32(x: u32) -> (r: Option<char>)
    ensures
        r is Some <==> is_unicode_scalar(x),
        r is Some ==> r.unwrap() as u32 == x,
{
    char::from_u32(x)
}

/// Relies on String::push appending one character.
#[verifier::external_body]
fn string_push(s: &mut String, c: char)
    ensures
        final(s)@ == old(s)@.push(c),
{
    s.push(c);
}

/// A string whose length the format can carry.
pub open spec fn str_bounded(s: Seq<char>) -> bool {
    s.len() <= u64::MAX
}

fn read_str(bytes: &Vec<u8>, pos: usize) -> (r: Option<(String, usize)>)
    ensures
        forall|s: Seq<char>|
            str_bounded(s) && #[trigger] starts_with_at(bytes@, pos as int, enc_str(s)) ==> r
                is Some && r.unwrap().0@ == s && r.unwrap().1 == pos + enc_str(s).len(),
        r is Some ==> pos <= r.unwrap().1 <= bytes@.len(),
{
    let (n64, p) = match read_u64(bytes, pos) {
        Some(x) => x,
        None => {
            proof {
                assert forall|s: Seq<char>|
                    str_bounded(s) && #[trigger] starts_with_at(
                        bytes@,
                        pos as int,
                        enc_str(s),
                    ) implies false by {
                    lemma_split(bytes@, pos as int, enc_u64(s.len() as u64), enc_chars(s));
                }
            }
            return None;
        },
    };
    proof {
        assert forall|s: Seq<char>|
            str_bounded(s) && #[trigger] starts_with_at(
                bytes@,
                pos as int,
                enc_str(s),
            ) implies s.len() == n64 && starts_with_at(bytes@, pos + 8, enc_chars(s)) by {
            lemma_split(bytes@, pos as int, enc_u64(s.len() as u64), enc_chars(s));
        }
    }
    if n64 > ((bytes.len() - p) as u64) / 4 {
        proof {
            assert forall|s: Seq<char>|
                str_bounded(s) && #[trigger] starts_with_at(
                    bytes@,
                    pos as int,
                    enc_str(s),
                ) implies false by {
                lemma_enc_chars_len(s);
            }
        }
        return None;
    }
    let n = n64 as usize;
    proof {
        assert(4 * ((bytes@.len() - p) / 4) <= bytes@.len() - p) by (nonlinear_arith);
        assert(p + 4 * (n as int) <= bytes@.len());
    }
    let mut out = String::new();
    let mut i: usize = 0;
    let mut q: usize = p;
    proof {
        assert forall|s: Seq<char>|
            str_bounded(s) && #[trigger] starts_with_at(
                bytes@,
                pos as int,
                enc_str(s),
            ) implies starts_with_at(bytes@, p + 4 * 0, enc_chars(s.skip(0))) && out@ == s.take(0)
            && s.len() == n by {
            assert(s.skip(0) =~= s);
            assert(out@ =~= s.take(0));
        }
    }
    while i < n
        invariant
            i <= n,
            n == n64,
            out@.len() == i,
            p == pos + 8,
            q == p + 4 * (i as int),
            p + 4 * (n as int) <= bytes@.len(),
            forall|s: Seq<char>|
                str_bounded(s) && #[trigger] starts_with_at(bytes@, pos as int, enc_str(s))
                    ==> s.len() == n && starts_with_at(
                    bytes@,
                    p + 4 * i,
                    enc_chars(s.skip(i as int)),
                ) && out@ == s.take(i as int),
        decreases n - i,
    {
        let (x, p2) = match read_u32(bytes, q) {
            Some(x) => x,
            None => {
                proof {
                    assert forall|s: Seq<char>|
                        str_bounded(s) && #[trigger] starts_with_at(
                            bytes@,
                            pos as int,
                            enc_str(s),
                        ) implies false by {
                        lemma_chars_skip_head(s, i as int);
                        lemma_split(
                            bytes@,
                            p + 4 * i,
                            enc_char(s[i as int]),
                            enc_chars(s.skip(i as int + 1)),
                        );
                    }
                }
                return None;
            },
        };
        let c = match char_from_u32(x) {
            Some(c) => c,
            None => {
                proof {
                    assert forall|s: Seq<char>|
                        str_bounded(s) && #[trigger] starts_with_at(
                            bytes@,
                            pos as int,
                            enc_str(s),
                        ) implies false by {
                        lemma_chars_skip_head(s, i as int);
                        lemma_split(
                            bytes@,
                            p + 4 * i,
                            enc_char(s[i as int]),
                            enc_chars(s.skip(i as int + 1)),
                        );
                        let cc = s[i as int];
                        assert(is_unicode_scalar(cc as u32)) by {
                            lemma_char_is_scalar(cc);
                        }
                    }
                }
                return None;
            },
        };
        string_push(&mut out, c);
        proof {
            assert forall|s: Seq<char>|
                str_bounded(s) && #[trigger] starts_with_at(
                    bytes@,
                    pos as int,
                    enc_str(s),
                ) implies starts_with_at(bytes@, p + 4 * (i + 1), enc_chars(s.skip(i as int + 1)))
                && out@ == s.take(i as int + 1) by {
                lemma_chars_skip_head(s, i as int);
                lemma_split(
                    bytes@,
                    p + 4 * i,
                    enc_char(s[i as int]),
                    enc_chars(s.skip(i as int + 1)),
                );
                let cc = s[i as int];
                lemma_char_is_scalar(cc);
                assert(c as u32 == cc as u32);
                lemma_char_injective(c, cc);
                assert(out@ =~= s.take(i as int + 1));
            }
        }
        i += 1;
        q = p2;
    }
    proof {
        assert forall|s: Seq<char>|
            str_bounded(s) && #[trigger] starts_with_at(
                bytes@,
                pos as int,
                enc_str(s),
            ) implies out@ == s && pos + enc_str(s).len() == q by {
            assert(s.take(i as int) =~= s);
            lemma_enc_chars_len(s);
        }
    }
    Some((out, q))
}

proof fn lemma_enc_chars_head(t: Seq<char>)
    requires
        t.len() > 0,
    ensures
        enc_chars(t) == enc_char(t[0]) + enc_chars(t.drop_first()),
    decreases t.len(),
{
    if t.len() == 1 {
        assert(t.drop_last() =~= Seq::<char>::empty());
        assert(t.drop_first() =~= Seq::<char>::empty());
        assert(enc_chars(t) =~= enc_char(t[0]) + enc_chars(t.drop_first()));
    } else {
        lemma_enc_chars_head(t.drop_last());
        assert(t.drop_last()[0] == t[0]);
        assert(t.drop_last().drop_first() =~= t.drop_first().drop_last());
        assert(t.drop_first().last() == t.last());
        assert(enc_chars(t.drop_first()) == enc_chars(t.drop_first().drop_last()) + enc_char(
            t.drop_first().last(),
        ));
        assert(enc_chars(t) =~= enc_char(t[0]) + enc_chars(t.drop_first()));
    }
}

/// The encoding of a string's tail starts with the next character's
/// encoding.
proof fn lemma_chars_skip_head(s: Seq<char>, i: int)
    requires
        0 <= i < s.len(),
    ensures
        enc_chars(s.skip(i)) == enc_char(s[i]) + enc_chars(s.skip(i + 1)),
{
    lemma_enc_chars_head(s.skip(i));
    assert(s.skip(i)[0] == s[i]);
    assert(s.skip(i).drop_first() =~= s.skip(i + 1));
}

proof fn lemma_char_is_scalar(c: char)
    ensures
        is_unicode_scalar(c as u32),
{
    assert(c as u32 == c as int);
    assert((c as int) < 0xD800 || ((c as int) >= 0xE000 && (c as int) < 0x110000));
}

proof fn lemma_char_injective(a: char, b: char)
    requires
        a as u32 == b as u32,
    ensures
        a == b,
{
    assert(a as int == b as int);
    assert(a == b);
}


// ---------------------------------------------------------------------
// Observations, records, entries.
// ---------------------------------------------------------------------

/// The numeric fields of an observation, in storage order, as the 64-bit
/// values the format carries.
pub open spec fn obs_nums(v: DbStatisticsV) -> Seq<u64> {
    seq![
        v.cpu_count as u64,
        v.cpu_idle as u64,
        v.cpu_interrupt as u64,
        v.cpu_nice as u64,
        v.cpu_system as u64,
        v.cpu_usage as u64,
        v.cpu_user as u64,
        v.mem_free as u64,
        v.mem_usage as u64,
        v.mem_total as u64,
        v.mt_2_result as u64,
        v.mt_4_result as u64,
        v.mt_8_result as u64,
        v.st_result as u64,
        v.sys_load_average_fifteen as u64,
        v.sys_load_average_five as u64,
        v.sys_load_average_one as u64,
        v.sys_uptime as u64,
        v.timestamp as u64,
        if v.used_for_proof {
            1u64
        } else {
            0u64
        },
    ]
}

pub open spec fn enc_u64_seq(vs: Seq<u64>) -> Seq<u8>
    decreases vs.len(),
{
    if vs.len() == 0 {
        Seq::empty()
    } else {
        enc_u64_seq(vs.drop_last()) + enc_u64(vs.last())
    }
}

pub open spec fn enc_obs(v: DbStatisticsV) -> Seq<u8> {
    enc_str(v.blockchain_hash) + (enc_str(v.id) + enc_u64_seq(obs_nums(v)))
}

pub open spec fn enc_obs_seq(ss: Seq<DbStatisticsV>) -> Seq<u8>
    decreases ss.len(),
{
    if ss.len() == 0 {
        Seq::empty()
    } else {
        enc_obs_seq(ss.drop_last()) + enc_obs(ss.last())
    }
}

pub open spec fn enc_record(v: DbRecordV) -> Seq<u8> {
    enc_str(v.public_key) + (enc_u64(v.statistics.len() as u64) + enc_obs_seq(v.statistics))
}

pub open spec fn enc_entry(v: DbEntryV) -> Seq<u8> {
    enc_str(v.host_id) + enc_record(v.record)
}

pub open spec fn enc_entry_seq(es: Seq<DbEntryV>) -> Seq<u8>
    decreases es.len(),
{
    if es.len() == 0 {
        Seq::empty()
    } else {
        enc_entry_seq(es.drop_last()) + enc_entry(es.last())
    }
}

/// The whole store, uncompressed: the entry count, then each entry.
pub open spec fn spec_snapshot(es: Seq<DbEntryV>) -> Seq<u8> {
    enc_u64(es.len() as u64) + enc_entry_seq(es)
}

/// An observation the format represents exactly: its numbers fit their
/// machine types, its strings are of encodable length, and it is within
/// the scoring bounds every stored observation satisfies.
pub open spec fn obs_valid(v: DbStatisticsV) -> bool {
    obs_in_range(v) && obs_well_formed(v) && str_bounded(v.blockchain_hash) && str_bounded(v.id)
}

pub open spec fn record_valid(v: DbRecordV) -> bool {
    &&& str_bounded(v.public_key)
    &&& v.statistics.len() <= u64::MAX
    &&& forall|i: int| 0 <= i < v.statistics.len() ==> obs_valid(#[trigger] v.statistics[i])
}

/// An entry sequence the snapshot format represents exactly.
pub open spec fn snapshot_valid(es: Seq<DbEntryV>) -> bool {
    &&& es.len() <= u64::MAX
    &&& entries_unique(es)
    &&& forall|i: int|
        0 <= i < es.len() ==> str_bounded((#[trigger] es[i]).host_id) && record_valid(es[i].record)
}

// Sequence decomposition lemmas shared by the writers and readers.

proof fn lemma_u64_seq_len(vs: Seq<u64>)
    ensures
        enc_u64_seq(vs).len() == 8 * vs.len(),
    decreases vs.len(),
{
    if vs.len() > 0 {
        lemma_u64_seq_len(vs.drop_last());
    }
}

proof fn lemma_u64_seq_step(vs: Seq<u64>, i: int)
    requires
        0 <= i < vs.len(),
    ensures
        enc_u64_seq(vs.take(i + 1)) == enc_u64_seq(vs.take(i)) + enc_u64(vs[i]),
{
    assert(vs.take(i + 1).drop_last() =~= vs.take(i));
    assert(vs.take(i + 1).last() == vs[i]);
}

proof fn lemma_u64_seq_head(t: Seq<u64>)
    requires
        t.len() > 0,
    ensures
        enc_u64_seq(t) == enc_u64(t[0]) + enc_u64_seq(t.drop_first()),
    decreases t.len(),
{
    if t.len() == 1 {
        assert(t.drop_last() =~= Seq::<u64>::empty());
        assert(t.drop_first() =~= Seq::<u64>::empty());
        assert(enc_u64_seq(t) =~= enc_u64(t[0]) + enc_u64_seq(t.drop_first()));
    } else {
        lemma_u64_seq_head(t.drop_last());
        assert(t.drop_last()[0] == t[0]);
        assert(t.drop_last().drop_first() =~= t.drop_first().drop_last());
        assert(t.drop_first().last() == t.last());
        assert(enc_u64_seq(t.drop_first()) == enc_u64_seq(t.drop_first().drop_last()) + enc_u64(
            t.drop_first().last(),
        ));
        assert(enc_u64_seq(t) =~= enc_u64(t[0]) + enc_u64_seq(t.drop_first()));
    }
}

proof fn lemma_u64_seq_skip_head(vs: Seq<u64>, i: int)
    requires
        0 <= i < vs.len(),
    ensures
        enc_u64_seq(vs.skip(i)) == enc_u64(vs[i]) + enc_u64_seq(vs.skip(i + 1)),
{
    lemma_u64_seq_head(vs.skip(i));
    assert(vs.skip(i)[0] == vs[i]);
    assert(vs.skip(i).drop_first() =~= vs.skip(i + 1));
}

proof fn lemma_obs_seq_step(ss: Seq<DbStatisticsV>, i: int)
    requires
        0 <= i < ss.len(),
    ensures
        enc_obs_seq(ss.take(i + 1)) == enc_obs_seq(ss.take(i)) + enc_obs(ss[i]),
{
    assert(ss.take(i + 1).drop_last() =~= ss.take(i));
    assert(ss.take(i + 1).last() == ss[i]);
}

proof fn lemma_obs_seq_head(t: Seq<DbStatisticsV>)
    requires
        t.len() > 0,
    ensures
        enc_obs_seq(t) == enc_obs(t[0]) + enc_obs_seq(t.drop_first()),
    decreases t.len(),
{
    if t.len() == 1 {
        assert(t.drop_last() =~= Seq::<DbStatisticsV>::empty());
        assert(t.drop_first() =~= Seq::<DbStatisticsV>::empty());
        assert(enc_obs_seq(t) =~= enc_obs(t[0]) + enc_obs_seq(t.drop_first()));
    } else {
        lemma_obs_seq_head(t.drop_last());
        assert(t.drop_last()[0] == t[0]);
        assert(t.drop_last().drop_first() =~= t.drop_first().drop_last());
        assert(t.drop_first().last() == t.last());
        assert(enc_obs_seq(t.drop_first()) == enc_obs_seq(t.drop_first().drop_last()) + enc_obs(
            t.drop_first().last(),
        ));
        assert(enc_obs_seq(t) =~= enc_obs(t[0]) + enc_obs_seq(t.drop_first()));
    }
}

proof fn lemma_obs_seq_skip_head(ss: Seq<DbStatisticsV>, i: int)
    requires
        0 <= i < ss.len(),
    ensures
        enc_obs_seq(ss.skip(i)) == enc_obs(ss[i]) + enc_obs_seq(ss.skip(i + 1)),
{
    lemma_obs_seq_head(ss.skip(i));
    assert(ss.skip(i)[0] == ss[i]);
    assert(ss.skip(i).drop_first() =~= ss.skip(i + 1));
}

proof fn lemma_entry_seq_step(es: Seq<DbEntryV>, i: int)
    requires
        0 <= i < es.len(),
    ensures
        enc_entry_seq(es.take(i + 1)) == enc_entry_seq(es.take(i)) + enc_entry(es[i]),
{
    assert(es.take(i + 1).drop_last() =~= es.take(i));
    assert(es.take(i + 1).last() == es[i]);
}

proof fn lemma_entry_seq_head(t: Seq<DbEntryV>)
    requires
        t.len() > 0,
    ensures
        enc_entry_seq(t) == enc_entry(t[0]) + enc_entry_seq(t.drop_first()),
    decreases t.len(),
{
    if t.len() == 1 {
        assert(t.drop_last() =~= Seq::<DbEntryV>::empty());
        assert(t.drop_first() =~= Seq::<DbEntryV>::empty());
        assert(enc_entry_seq(t) =~= enc_entry(t[0]) + enc_entry_seq(t.drop_first()));
    } else {
        lemma_entry_seq_head(t.drop_last());
        assert(t.drop_last()[0] == t[0]);
        assert(t.drop_last().drop_first() =~= t.drop_first().drop_last());
        assert(t.drop_first().last() == t.last());
        assert(enc_entry_seq(t.drop_first()) == enc_entry_seq(t.drop_first().drop_last())
            + enc_entry(t.drop_first().last()));
        assert(enc_entry_seq(t) =~= enc_entry(t[0]) + enc_entry_seq(t.drop_first()));
    }
}

proof fn lemma_entry_seq_skip_head(es: Seq<DbEntryV>, i: int)
    requires
        0 <= i < es.len(),
    ensures
        enc_entry_seq(es.skip(i)) == enc_entry(es[i]) + enc_entry_seq(es.skip(i + 1)),
{
    lemma_entry_seq_head(es.skip(i));
    assert(es.skip(i)[0] == es[i]);
    assert(es.skip(i).drop_first() =~= es.skip(i + 1));
}

// Writers for the composite values.

fn write_u64_vec(out: &mut Vec<u8>, vs: &Vec<u64>)
    ensures
        final(out)@ == old(out)@ + enc_u64_seq(vs@),
{
    let mut i: usize = 0;
    proof {
        assert(enc_u64_seq(vs@.take(0)) =~= Seq::<u8>::empty());
        assert(out@ =~= old(out)@ + enc_u64_seq(vs@.take(0)));
    }
    while i < vs.len()
        invariant
            i <= vs@.len(),
            out@ == old(out)@ + enc_u64_seq(vs@.take(i as int)),
        decreases vs@.len() - i,
    {
        proof {
            lemma_u64_seq_step(vs@, i as int);
        }
        write_u64(out, vs[i]);
        i += 1;
    }
    proof {
        assert(vs@.take(vs@.len() as int) =~= vs@);
    }
}

fn write_obs(out: &mut Vec<u8>, s: &DbStatistics)
    ensures
        final(out)@ == old(out)@ + enc_obs(s@),
{
    write_str(out, s.blockchain_hash().as_str());
    write_str(out, s.id().as_str());
    let mut nums: Vec<u64> = Vec::new();
    nums.push(s.cpu_count() as u64);
    nums.push(s.cpu_idle() as u64);
    nums.push(s.cpu_interrupt() as u64);
    nums.push(s.cpu_nice() as u64);
    nums.push(s.cpu_system() as u64);
    nums.push(s.cpu_usage() as u64);
    nums.push(s.cpu_user() as u64);
    nums.push(s.mem_free());
    nums.push(s.mem_usage() as u64);
    nums.push(s.mem_total());
    nums.push(s.mt_2_result() as u64);
    nums.push(s.mt_4_result() as u64);
    nums.push(s.mt_8_result() as u64);
    nums.push(s.st_result() as u64);
    nums.push(s.sys_load_average_fifteen() as u64);
    nums.push(s.sys_load_average_five() as u64);
    nums.push(s.sys_load_average_one() as u64);
    nums.push(s.sys_uptime());
    nums.push(s.timestamp());
    nums.push(if s.used_for_proof() {
        1
    } else {
        0
    });
    proof {
        s.lemma_view_in_range();
        assert(nums@ =~= obs_nums(s@));
    }
    write_u64_vec(out, &nums);
    proof {
        assert(final(out)@ =~= old(out)@ + enc_obs(s@));
    }
}

fn write_record(out: &mut Vec<u8>, r: &DbRecord)
    ensures
        final(out)@ == old(out)@ + enc_record(r@),
{
    write_str(out, r.public_key().as_str());
    let statistics = r.statistics();
    write_u64(out, statistics.len() as u64);
    let ghost mid = out@;
    let mut i: usize = 0;
    proof {
        assert(enc_obs_seq(r@.statistics.take(0)) =~= Seq::<u8>::empty());
        assert(out@ =~= mid + enc_obs_seq(r@.statistics.take(0)));
    }
    while i < statistics.len()
        invariant
            i <= statistics@.len(),
            statistics@.len() == r@.statistics.len(),
            forall|j: int| 0 <= j < statistics@.len() ==> (#[trigger] statistics@[j])@
                == r@.statistics[j],
            out@ == mid + enc_obs_seq(r@.statistics.take(i as int)),
        decreases statistics@.len() - i,
    {
        proof {
            lemma_obs_seq_step(r@.statistics, i as int);
        }
        write_obs(out, &statistics[i]);
        i += 1;
    }
    proof {
        assert(r@.statistics.take(r@.statistics.len() as int) =~= r@.statistics);
        assert(final(out)@ =~= old(out)@ + enc_record(r@));
    }
}

/// The uncompressed snapshot of a store's entries.
pub fn encode_db(db: &Db) -> (r: Vec<u8>)
    ensures
        r@ == spec_snapshot(db.entries_view()),
{
    let entries = db.entries();
    let mut out: Vec<u8> = Vec::new();
    write_u64(&mut out, entries.len() as u64);
    let ghost mid = out@;
    let ghost ev = db.entries_view();
    let mut i: usize = 0;
    proof {
        assert(enc_entry_seq(ev.take(0)) =~= Seq::<u8>::empty());
        assert(out@ =~= mid + enc_entry_seq(ev.take(0)));
    }
    while i < entries.len()
        invariant
            i <= entries@.len(),
            entries@.len() == ev.len(),
            forall|j: int| 0 <= j < entries@.len() ==> (#[trigger] entries@[j])@ == ev[j],
            out@ == mid + enc_entry_seq(ev.take(i as int)),
        decreases entries@.len() - i,
    {
        proof {
            lemma_entry_seq_step(ev, i as int);
        }
        write_str(&mut out, entries[i].host_id.as_str());
        write_record(&mut out, &entries[i].record);
        i += 1;
    }
    proof {
        assert(ev.take(ev.len() as int) =~= ev);
        assert(out@ =~= spec_snapshot(ev));
    }
    out
}


// ---------------------------------------------------------------------
// Readers for the composite values.
// ---------------------------------------------------------------------

fn read_u64_vec(bytes: &Vec<u8>, pos: usize, n: usize) -> (r: Option<(Vec<u64>, usize)>)
    ensures
        forall|vs: Seq<u64>|
            vs.len() == n && #[trigger] starts_with_at(bytes@, pos as int, enc_u64_seq(vs)) ==> r
                is Some && r.unwrap().0@ == vs && r.unwrap().1 == pos + 8 * (n as int),
        r is Some ==> pos <= r.unwrap().1 <= bytes@.len() && r.unwrap().0@.len() == n,
{
    if pos > bytes.len() {
        return None;
    }
    let mut acc: Vec<u64> = Vec::new();
    let mut i: usize = 0;
    let mut q: usize = pos;
    proof {
        assert forall|vs: Seq<u64>|
            vs.len() == n && #[trigger] starts_with_at(
                bytes@,
                pos as int,
                enc_u64_seq(vs),
            ) implies acc@ == vs.take(0) && starts_with_at(
            bytes@,
            pos as int,
            enc_u64_seq(vs.skip(0)),
        ) by {
            assert(vs.skip(0) =~= vs);
            assert(acc@ =~= vs.take(0));
        }
    }
    while i < n
        invariant
            i <= n,
            acc@.len() == i,
            pos <= q <= bytes@.len(),
            forall|vs: Seq<u64>|
                vs.len() == n && #[trigger] starts_with_at(bytes@, pos as int, enc_u64_seq(vs))
                    ==> acc@ == vs.take(i as int) && q == pos + 8 * (i as int) && starts_with_at(
                    bytes@,
                    q as int,
                    enc_u64_seq(vs.skip(i as int)),
                ),
        decreases n - i,
    {
        let (x, q2) = match read_u64(bytes, q) {
            Some(v) => v,
            None => {
                proof {
                    assert forall|vs: Seq<u64>|
                        vs.len() == n && #[trigger] starts_with_at(
                            bytes@,
                            pos as int,
                            enc_u64_seq(vs),
                        ) implies false by {
                        lemma_u64_seq_skip_head(vs, i as int);
                        lemma_split(
                            bytes@,
                            q as int,
                            enc_u64(vs[i as int]),
                            enc_u64_seq(vs.skip(i as int + 1)),
                        );
                    }
                }
                return None;
            },
        };
        acc.push(x);
        proof {
            assert forall|vs: Seq<u64>|
                vs.len() == n && #[trigger] starts_with_at(
                    bytes@,
                    pos as int,
                    enc_u64_seq(vs),
                ) implies acc@ == vs.take(i as int + 1) && q2 == pos + 8 * (i as int + 1)
                && starts_with_at(bytes@, q2 as int, enc_u64_seq(vs.skip(i as int + 1))) by {
                lemma_u64_seq_skip_head(vs, i as int);
                lemma_split(
                    bytes@,
                    q as int,
                    enc_u64(vs[i as int]),
                    enc_u64_seq(vs.skip(i as int + 1)),
                );
                assert(acc@ =~= vs.take(i as int + 1));
            }
        }
        i += 1;
        q = q2;
    }
    proof {
        assert forall|vs: Seq<u64>|
            vs.len() == n && #[trigger] starts_with_at(
                bytes@,
                pos as int,
                enc_u64_seq(vs),
            ) implies acc@ == vs by {
            assert(vs.take(n as int) =~= vs);
        }
    }
    Some((acc, q))
}

fn read_obs(bytes: &Vec<u8>, pos: usize) -> (r: Option<(DbStatistics, usize)>)
    ensures
        forall|ov: DbStatisticsV|
            obs_valid(ov) && #[trigger] starts_with_at(bytes@, pos as int, enc_obs(ov)) ==> r
                is Some && r.unwrap().0@ == ov && r.unwrap().1 == pos + enc_obs(ov).len(),
        r is Some ==> pos <= r.unwrap().1 <= bytes@.len(),
        r is Some ==> obs_well_formed(r.unwrap().0@),
{
    let (hash, p1) = match read_str(bytes, pos) {
        Some(v) => v,
        None => {
            proof {
                assert forall|ov: DbStatisticsV|
                    obs_valid(ov) && #[trigger] starts_with_at(
                        bytes@,
                        pos as int,
                        enc_obs(ov),
                    ) implies false by {
                    lemma_split(
                        bytes@,
                        pos as int,
                        enc_str(ov.blockchain_hash),
                        enc_str(ov.id) + enc_u64_seq(obs_nums(ov)),
                    );
                }
            }
            return None;
        },
    };
    let (id, p2) = match read_str(bytes, p1) {
        Some(v) => v,
        None => {
            proof {
                assert forall|ov: DbStatisticsV|
                    obs_valid(ov) && #[trigger] starts_with_at(
                        bytes@,
                        pos as int,
                        enc_obs(ov),
                    ) implies false by {
                    lemma_split(
                        bytes@,
                        pos as int,
                        enc_str(ov.blockchain_hash),
                        enc_str(ov.id) + enc_u64_seq(obs_nums(ov)),
                    );
                    lemma_split(
                        bytes@,
                        pos + enc_str(ov.blockchain_hash).len(),
                        enc_str(ov.id),
                        enc_u64_seq(obs_nums(ov)),
                    );
                }
            }
            return None;
        },
    };
    let (nums, p3) = match read_u64_vec(bytes, p2, 20) {
        Some(v) => v,
        None => {
            proof {
                assert forall|ov: DbStatisticsV|
                    obs_valid(ov) && #[trigger] starts_with_at(
                        bytes@,
                        pos as int,
                        enc_obs(ov),
                    ) implies false by {
                    lemma_split(
                        bytes@,
                        pos as int,
                        enc_str(ov.blockchain_hash),
                        enc_str(ov.id) + enc_u64_seq(obs_nums(ov)),
                    );
                    lemma_split(
                        bytes@,
                        pos + enc_str(ov.blockchain_hash).len(),
                        enc_str(ov.id),
                        enc_u64_seq(obs_nums(ov)),
                    );
                    assert(obs_nums(ov).len() == 20);
                }
            }
            return None;
        },
    };
    proof {
        assert forall|ov: DbStatisticsV|
            obs_valid(ov) && #[trigger] starts_with_at(
                bytes@,
                pos as int,
                enc_obs(ov),
            ) implies hash@ == ov.blockchain_hash && id@ == ov.id && nums@ == obs_nums(ov) && p3
            == pos + enc_obs(ov).len() by {
            lemma_u64_seq_len(obs_nums(ov));
            lemma_split(
                bytes@,
                pos as int,
                enc_str(ov.blockchain_hash),
                enc_str(ov.id) + enc_u64_seq(obs_nums(ov)),
            );
            lemma_split(
                bytes@,
                pos + enc_str(ov.blockchain_hash).len(),
                enc_str(ov.id),
                enc_u64_seq(obs_nums(ov)),
            );
            assert(obs_nums(ov).len() == 20);
        }
    }
    if nums[0] > 0xFFFF || nums[1] > 0xFFFFFFFF || nums[2] > 0xFFFFFFFF || nums[3] > 0xFFFFFFFF
        || nums[4] > 0xFFFFFFFF || nums[5] > 0xFFFFFFFF || nums[6] > 0xFFFFFFFF || nums[8]
        > 0xFFFFFFFF || nums[10] > 0xFFFFFFFF || nums[11] > 0xFFFFFFFF || nums[12] > 0xFFFFFFFF
        || nums[13] > 0xFFFFFFFF || nums[14] > 0xFFFFFFFF || nums[15] > 0xFFFFFFFF || nums[16]
        > 0xFFFFFFFF || nums[19] > 1 {
        proof {
            assert forall|ov: DbStatisticsV|
                obs_valid(ov) && #[trigger] starts_with_at(
                    bytes@,
                    pos as int,
                    enc_obs(ov),
                ) implies false by {
                assert(nums@[0] == ov.cpu_count as u64);
            }
        }
        return None;
    }
    let obs = DbStatistics::new(
        hash,
        nums[0] as u16,
        nums[1] as u32,
        nums[2] as u32,
        nums[3] as u32,
        nums[4] as u32,
        nums[5] as u32,
        nums[6] as u32,
        id,
        nums[7],
        nums[8] as u32,
        nums[9],
        nums[10] as u32,
        nums[11] as u32,
        nums[12] as u32,
        nums[13] as u32,
        nums[14] as u32,
        nums[15] as u32,
        nums[16] as u32,
        nums[17],
        nums[18],
        nums[19] == 1,
    );
    if !obs.is_well_formed() {
        proof {
            assert forall|ov: DbStatisticsV|
                obs_valid(ov) && #[trigger] starts_with_at(
                    bytes@,
                    pos as int,
                    enc_obs(ov),
                ) implies false by {
                assert(obs@ == ov);
            }
        }
        return None;
    }
    proof {
        assert forall|ov: DbStatisticsV|
            obs_valid(ov) && #[trigger] starts_with_at(
                bytes@,
                pos as int,
                enc_obs(ov),
            ) implies obs@ == ov by {
            assert(nums@ == obs_nums(ov));
        }
    }
    Some((obs, p3))
}


proof fn lemma_parse_step_obs(bytes: Seq<u8>, base: int, q: int, i: int, ss: Seq<DbStatisticsV>)
    requires
        0 <= i < ss.len(),
        q == base + enc_obs_seq(ss.take(i)).len(),
        starts_with_at(bytes, q, enc_obs_seq(ss.skip(i))),
    ensures
        starts_with_at(bytes, q, enc_obs(ss[i])),
        starts_with_at(bytes, q + enc_obs(ss[i]).len(), enc_obs_seq(ss.skip(i + 1))),
        q + enc_obs(ss[i]).len() == base + enc_obs_seq(ss.take(i + 1)).len(),
{
    lemma_obs_seq_skip_head(ss, i);
    lemma_split(bytes, q, enc_obs(ss[i]), enc_obs_seq(ss.skip(i + 1)));
    lemma_obs_seq_step(ss, i);
}

proof fn lemma_parse_step_entry(bytes: Seq<u8>, base: int, q: int, i: int, es: Seq<DbEntryV>)
    requires
        0 <= i < es.len(),
        q == base + enc_entry_seq(es.take(i)).len(),
        starts_with_at(bytes, q, enc_entry_seq(es.skip(i))),
    ensures
        starts_with_at(bytes, q, enc_str(es[i].host_id)),
        starts_with_at(bytes, q + enc_str(es[i].host_id).len(), enc_record(es[i].record)),
        starts_with_at(bytes, q + enc_entry(es[i]).len(), enc_entry_seq(es.skip(i + 1))),
        q + enc_entry(es[i]).len() == base + enc_entry_seq(es.take(i + 1)).len(),
        enc_entry(es[i]).len() == enc_str(es[i].host_id).len() + enc_record(es[i].record).len(),
{
    lemma_entry_seq_skip_head(es, i);
    lemma_split(bytes, q, enc_entry(es[i]), enc_entry_seq(es.skip(i + 1)));
    lemma_split(bytes, q, enc_str(es[i].host_id), enc_record(es[i].record));
    lemma_entry_seq_step(es, i);
}

#[verifier::rlimit(100)]
#[verifier::spinoff_prover]
fn read_record(bytes: &Vec<u8>, pos: usize) -> (r: Option<(DbRecord, usize)>)
    ensures
        forall|rv: DbRecordV|
            record_valid(rv) && #[trigger] starts_with_at(bytes@, pos as int, enc_record(rv)) ==> r
                is Some && r.unwrap().0@ == rv && r.unwrap().1 == pos + enc_record(rv).len(),
        r is Some ==> pos <= r.unwrap().1 <= bytes@.len(),
        r is Some ==> forall|i: int|
            0 <= i < r.unwrap().0@.statistics.len() ==> obs_well_formed(
                #[trigger] r.unwrap().0@.statistics[i],
            ),
{
    let (pk, p1) = match read_str(bytes, pos) {
        Some(v) => v,
        None => {
            proof {
                assert forall|rv: DbRecordV|
                    record_valid(rv) && #[trigger] starts_with_at(
                        bytes@,
                        pos as int,
                        enc_record(rv),
                    ) implies false by {
                    lemma_split(
                        bytes@,
                        pos as int,
                        enc_str(rv.public_key),
                        enc_u64(rv.statistics.len() as u64) + enc_obs_seq(rv.statistics),
                    );
                }
            }
            return None;
        },
    };
    let (n64, p2) = match read_u64(bytes, p1) {
        Some(v) => v,
        None => {
            proof {
                assert forall|rv: DbRecordV|
                    record_valid(rv) && #[trigger] starts_with_at(
                        bytes@,
                        pos as int,
                        enc_record(rv),
                    ) implies false by {
                    lemma_split(
                        bytes@,
                        pos as int,
                        enc_str(rv.public_key),
                        enc_u64(rv.statistics.len() as u64) + enc_obs_seq(rv.statistics),
                    );
                    lemma_split(
                        bytes@,
                        pos + enc_str(rv.public_key).len(),
                        enc_u64(rv.statistics.len() as u64),
                        enc_obs_seq(rv.statistics),
                    );
                }
            }
            return None;
        },
    };
    proof {
        assert forall|rv: DbRecordV|
            record_valid(rv) && #[trigger] starts_with_at(
                bytes@,
                pos as int,
                enc_record(rv),
            ) implies pk@ == rv.public_key && rv.statistics.len() == n64 && starts_with_at(
            bytes@,
            p2 as int,
            enc_obs_seq(rv.statistics.skip(0)),
        ) by {
            lemma_split(
                bytes@,
                pos as int,
                enc_str(rv.public_key),
                enc_u64(rv.statistics.len() as u64) + enc_obs_seq(rv.statistics),
            );
            lemma_split(
                bytes@,
                pos + enc_str(rv.public_key).len(),
                enc_u64(rv.statistics.len() as u64),
                enc_obs_seq(rv.statistics),
            );
            assert(rv.statistics.skip(0) =~= rv.statistics);
        }
    }
    let mut statistics: Vec<DbStatistics> = Vec::new();
    let mut i: u64 = 0;
    let mut q: usize = p2;
    proof {
        assert forall|rv: DbRecordV|
            record_valid(rv) && #[trigger] starts_with_at(
                bytes@,
                pos as int,
                enc_record(rv),
            ) implies statistics@.map_values(|s: DbStatistics| s@) == rv.statistics.take(0) && p2
            == p2 + enc_obs_seq(rv.statistics.take(0)).len() by {
            assert(statistics@.map_values(|s: DbStatistics| s@) =~= rv.statistics.take(0));
            assert(rv.statistics.take(0) =~= Seq::<DbStatisticsV>::empty());
        }
    }
    while i < n64
        invariant
            i <= n64,
            statistics@.len() == i,
            p2 <= bytes@.len(),
            pos <= q <= bytes@.len(),
            forall|j: int|
                0 <= j < statistics@.len() ==> obs_well_formed((#[trigger] statistics@[j])@),
            forall|rv: DbRecordV|
                record_valid(rv) && #[trigger] starts_with_at(bytes@, pos as int, enc_record(rv))
                    ==> rv.statistics.len() == n64 && statistics@.map_values(|s: DbStatistics| s@)
                    == rv.statistics.take(i as int) && q == p2 + enc_obs_seq(
                    rv.statistics.take(i as int),
                ).len() && starts_with_at(
                    bytes@,
                    q as int,
                    enc_obs_seq(rv.statistics.skip(i as int)),
                ),
        decreases n64 - i,
    {
        let (obs, q2) = match read_obs(bytes, q) {
            Some(v) => v,
            None => {
                proof {
                    assert forall|rv: DbRecordV|
                        record_valid(rv) && #[trigger] starts_with_at(
                            bytes@,
                            pos as int,
                            enc_record(rv),
                        ) implies false by {
                        lemma_parse_step_obs(bytes@, p2 as int, q as int, i as int, rv.statistics);
                    }
                }
                return None;
            },
        };
        statistics.push(obs);
        proof {
            assert forall|rv: DbRecordV|
                record_valid(rv) && #[trigger] starts_with_at(
                    bytes@,
                    pos as int,
                    enc_record(rv),
                ) implies statistics@.map_values(|s: DbStatistics| s@) == rv.statistics.take(
                i as int + 1,
            ) && q2 == p2 + enc_obs_seq(rv.statistics.take(i as int + 1)).len()
                && starts_with_at(bytes@, q2 as int, enc_obs_seq(rv.statistics.skip(i as int + 1)))
                by {
                lemma_parse_step_obs(bytes@, p2 as int, q as int, i as int, rv.statistics);
                assert(statistics@.map_values(|s: DbStatistics| s@) =~= rv.statistics.take(
                    i as int + 1,
                ));
            }
        }
        i += 1;
        q = q2;
    }
    let record = DbRecord::new(pk, statistics);
    proof {
        assert forall|rv: DbRecordV|
            record_valid(rv) && #[trigger] starts_with_at(
                bytes@,
                pos as int,
                enc_record(rv),
            ) implies record@ == rv && q == pos + enc_record(rv).len() by {
            assert(rv.statistics.take(n64 as int) =~= rv.statistics);
            lemma_split(
                bytes@,
                pos as int,
                enc_str(rv.public_key),
                enc_u64(rv.statistics.len() as u64) + enc_obs_seq(rv.statistics),
            );
            assert(record@.public_key == rv.public_key);
            assert(record@.statistics == rv.statistics);
            assert(q == p2 + enc_obs_seq(rv.statistics).len());
            assert(p2 == pos + enc_str(rv.public_key).len() + 8);
            assert(enc_record(rv).len() == enc_str(rv.public_key).len() + 8 + enc_obs_seq(
                rv.statistics,
            ).len());
        }
    }
    Some((record, q))
}


/// Parses an uncompressed snapshot.  Whenever the bytes are exactly the
/// snapshot of a representable entry sequence, that sequence comes back;
/// whatever comes back has unique host identifiers and well-formed
/// observations.
#[verifier::rlimit(100)]
#[verifier::spinoff_prover]
pub fn decode_db(bytes: &Vec<u8>) -> (r: Option<Vec<DbEntry>>)
    ensures
        forall|es: Seq<DbEntryV>|
            snapshot_valid(es) && bytes@ == spec_snapshot(es) ==> r is Some && r.unwrap(
            )@.map_values(|e: DbEntry| e@) == es,
        r is Some ==> entries_unique(r.unwrap()@.map_values(|e: DbEntry| e@)),
        r is Some ==> forall|i: int|
            0 <= i < r.unwrap()@.len() ==> forall|j: int|
                0 <= j < (#[trigger] r.unwrap()@[i])@.record.statistics.len() ==> obs_well_formed(
                    #[trigger] r.unwrap()@[i]@.record.statistics[j],
                ),
{
    proof {
        assert forall|es: Seq<DbEntryV>|
            snapshot_valid(es) && bytes@ == spec_snapshot(es) implies starts_with_at(
            bytes@,
            0,
            enc_u64(es.len() as u64) + enc_entry_seq(es),
        ) by {
            assert(bytes@.subrange(0, bytes@.len() as int) =~= bytes@);
        }
    }
    let (n64, p0) = match read_u64(bytes, 0) {
        Some(v) => v,
        None => {
            proof {
                assert forall|es: Seq<DbEntryV>|
                    snapshot_valid(es) && bytes@ == spec_snapshot(es) implies false by {
                    lemma_split(bytes@, 0, enc_u64(es.len() as u64), enc_entry_seq(es));
                }
            }
            return None;
        },
    };
    proof {
        assert forall|es: Seq<DbEntryV>|
            snapshot_valid(es) && bytes@ == spec_snapshot(es) implies es.len() == n64
            && starts_with_at(bytes@, p0 as int, enc_entry_seq(es.skip(0))) && bytes@.len() == 8
            + enc_entry_seq(es).len() by {
            lemma_split(bytes@, 0, enc_u64(es.len() as u64), enc_entry_seq(es));
            assert(es.skip(0) =~= es);
        }
    }
    let mut entries: Vec<DbEntry> = Vec::new();
    let mut i: u64 = 0;
    let mut q: usize = p0;
    proof {
        assert forall|es: Seq<DbEntryV>|
            snapshot_valid(es) && bytes@ == spec_snapshot(es) implies entries@.map_values(
            |e: DbEntry| e@,
        ) == es.take(0) && q == p0 + enc_entry_seq(es.take(0)).len() by {
            assert(entries@.map_values(|e: DbEntry| e@) =~= es.take(0));
            assert(es.take(0) =~= Seq::<DbEntryV>::empty());
        }
    }
    while i < n64
        invariant
            i <= n64,
            p0 == 8,
            entries@.len() == i,
            q <= bytes@.len(),
            forall|a: int|
                0 <= a < entries@.len() ==> forall|j: int|
                    0 <= j < (#[trigger] entries@[a])@.record.statistics.len() ==> obs_well_formed(
                        #[trigger] entries@[a]@.record.statistics[j],
                    ),
            forall|es: Seq<DbEntryV>|
                snapshot_valid(es) && bytes@ == spec_snapshot(es) ==> es.len() == n64
                    && entries@.map_values(|e: DbEntry| e@) == es.take(i as int) && q == p0
                    + enc_entry_seq(es.take(i as int)).len() && starts_with_at(
                    bytes@,
                    q as int,
                    enc_entry_seq(es.skip(i as int)),
                ) && bytes@.len() == 8 + enc_entry_seq(es).len(),
        decreases n64 - i,
    {
        let (host_id, q1) = match read_str(bytes, q) {
            Some(v) => v,
            None => {
                proof {
                    assert forall|es: Seq<DbEntryV>|
                        snapshot_valid(es) && bytes@ == spec_snapshot(es) implies false by {
                        lemma_parse_step_entry(bytes@, p0 as int, q as int, i as int, es);
                    }
                }
                return None;
            },
        };
        let (record, q2) = match read_record(bytes, q1) {
            Some(v) => v,
            None => {
                proof {
                    assert forall|es: Seq<DbEntryV>|
                        snapshot_valid(es) && bytes@ == spec_snapshot(es) implies false by {
                        lemma_parse_step_entry(bytes@, p0 as int, q as int, i as int, es);
                    }
                }
                return None;
            },
        };
        entries.push(DbEntry { host_id, record });
        proof {
            assert forall|es: Seq<DbEntryV>|
                snapshot_valid(es) && bytes@ == spec_snapshot(es) implies entries@.map_values(
                |e: DbEntry| e@,
            ) == es.take(i as int + 1) && q2 == p0 + enc_entry_seq(es.take(i as int + 1)).len()
                && starts_with_at(bytes@, q2 as int, enc_entry_seq(es.skip(i as int + 1))) by {
                lemma_parse_step_entry(bytes@, p0 as int, q as int, i as int, es);
                assert(entries@.map_values(|e: DbEntry| e@) =~= es.take(i as int + 1));
            }
        }
        i += 1;
        q = q2;
    }
    if q != bytes.len() {
        proof {
            assert forall|es: Seq<DbEntryV>|
                snapshot_valid(es) && bytes@ == spec_snapshot(es) implies false by {
                assert(es.take(n64 as int) =~= es);
            }
        }
        return None;
    }
    let ghost parsed = entries@.map_values(|e: DbEntry| e@);
    let mut a: usize = 0;
    while a < entries.len()
        invariant
            a <= entries@.len(),
            parsed == entries@.map_values(|e: DbEntry| e@),
            forall|es: Seq<DbEntryV>|
                snapshot_valid(es) && bytes@ == spec_snapshot(es) ==> parsed == es,
            forall|x: int, y: int|
                0 <= x < y < entries@.len() && x < a ==> (#[trigger] entries@[x])@.host_id != (
                #[trigger] entries@[y])@.host_id,
        decreases entries@.len() - a,
    {
        let mut b: usize = a + 1;
        while b < entries.len()
            invariant
                a < entries@.len(),
                a < b,
                parsed == entries@.map_values(|e: DbEntry| e@),
                forall|es: Seq<DbEntryV>|
                    snapshot_valid(es) && bytes@ == spec_snapshot(es) ==> parsed == es,
                forall|y: int|
                    a < y < b && y < entries@.len() ==> (#[trigger] entries@[y])@.host_id
                        != entries@[a as int]@.host_id,
            decreases entries@.len() - b,
        {
            if crate::db::str_eq(entries[a].host_id.as_str(), entries[b].host_id.as_str()) {
                proof {
                    assert forall|es: Seq<DbEntryV>|
                        snapshot_valid(es) && bytes@ == spec_snapshot(es) implies false by {
                        assert(parsed[a as int] == entries@[a as int]@);
                        assert(parsed[b as int] == entries@[b as int]@);
                        assert(es[a as int].host_id == es[b as int].host_id);
                    }
                }
                return None;
            }
            b += 1;
        }
        a += 1;
    }
    proof {
        assert(entries_unique(entries@.map_values(|e: DbEntry| e@)));
    }
    Some(entries)
}

/// What lz4_flex's size-prepended frame makes of a byte string.
pub uninterp spec fn lz4_compressed(b: Seq<u8>) -> Seq<u8>;

/// What lz4_flex's size-prepended decompression makes of a byte string:
/// the original bytes for a well-formed frame, nothing otherwise.
pub uninterp spec fn lz4_decompressed(b: Seq<u8>) -> Option<Seq<u8>>;

/// Relies on lz4_flex::compress_prepend_size, and on
/// lz4_flex::decompress_size_prepended inverting it.
#[verifier::external_body]
fn lz4_compress(b: &Vec<u8>) -> (r: Vec<u8>)
    ensures
        r@ == lz4_compressed(b@),
        lz4_decompressed(r@) == Some(b@),
{
    lz4_flex::compress_prepend_size(b)
}

/// Relies on lz4_flex::decompress_size_prepended: the outcome is a
/// function of the compressed bytes alone.
#[verifier::external_body]
fn lz4_decompress(b: &Vec<u8>) -> (r: Option<Vec<u8>>)
    ensures
        r is Some <==> lz4_decompressed(b@) is Some,
        r is Some ==> r.unwrap()@ == lz4_decompressed(b@).unwrap(),
{
    lz4_flex::decompress_size_prepended(b).ok()
}

/// The compressed snapshot of the whole store, as `Db::save` persists it:
/// the byte encoding of every entry, framed by lz4 with a prepended size.
/// Decompressing it gives back exactly `spec_snapshot` of the entries.
pub fn snapshot_db(db: &Db) -> (r: Vec<u8>)
    ensures
        r@ == lz4_compressed(spec_snapshot(db.entries_view())),
        lz4_decompressed(r@) == Some(spec_snapshot(db.entries_view())),
{
    let encoded = encode_db(db);
    lz4_compress(&encoded)
}

/// Restores a store from a compressed snapshot: when the bytes are the
/// snapshot of a representable entry sequence — in particular, whenever
/// they came from `snapshot_db` on a store of protocol-made records — that
/// exact sequence is reinstated and `true` comes back; bytes that do not
/// decompress and parse leave the store untouched and give `false`.
pub fn restore_db(db: &mut Db, compressed: &Vec<u8>) -> (r: bool)
    requires
        old(db).inv(),
    ensures
        final(db).inv(),
        final(db).data_dir_view() == old(db).data_dir_view(),
        forall|es: Seq<DbEntryV>|
            snapshot_valid(es) && lz4_decompressed(compressed@) == Some(spec_snapshot(es)) ==> r
                && final(db).entries_view() == es,
        !r ==> final(db).entries_view() == old(db).entries_view() && final(db).inv() == old(
            db,
        ).inv(),
        r ==> forall|i: int|
            0 <= i < final(db).entries_view().len() ==> forall|j: int|
                0 <= j < (#[trigger] final(db).entries_view()[i]).record.statistics.len()
                    ==> obs_well_formed(#[trigger] final(db).entries_view()[i].record.statistics[j]),
{
    let bytes = match lz4_decompress(compressed) {
        Some(b) => b,
        None => {
            return false;
        },
    };
    let entries = match decode_db(&bytes) {
        Some(e) => e,
        None => {
            return false;
        },
    };
    db.replace_entries(entries);
    true
}

} // verus!
