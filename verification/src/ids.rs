//! Identifier arithmetic: the time-and-counter ids of `gen_id` and the
//! time-and-salt ids given to the records of a vector table.

use vstd::prelude::*;
use vstd::arithmetic::div_mod::{
    lemma_fundamental_div_mod, lemma_fundamental_div_mod_converse, lemma_mod_equivalence,
    lemma_mod_mod, lemma_mod_multiples_vanish, lemma_small_mod,
};

verus! {

/// 2^54: the millisecond readings that a local id can tell apart.
pub open spec fn local_millis_span() -> int {
    0x40_0000_0000_0000
}

/// 2^42: the timestamps that a record id can tell apart.
pub open spec fn record_stamp_span() -> int {
    0x400_0000_0000
}

/// 2^22: the room left for the salt at the bottom of a record id.
pub open spec fn record_salt_span() -> int {
    0x40_0000
}

/// The id built from a millisecond reading and a counter value: the reading
/// sits above ten low bits that hold the counter modulo 1000.
pub open spec fn local_id(millis: int, count: int) -> int {
    (millis % local_millis_span()) * 1024 + count % 1000
}

/// The id of a vector-table record: the timestamp above 22 low bits that
/// hold the low 22 bits of the salt.
pub open spec fn record_id(stamp: int, salt: int) -> int {
    (stamp % record_stamp_span()) * record_salt_span() + salt % record_salt_span()
}

/// The local id of a millisecond reading and a counter value, as machine
/// integers.
pub open spec fn local_id_of(millis: u128, count: u64) -> int {
    local_id(millis as int, count as int)
}

/// The record id of timestamp `millis + offset` and salt `salt`.
pub open spec fn record_id_of(millis: u128, offset: int, salt: u32) -> int {
    record_id(millis + offset, salt as int)
}

/// Keeping only the low 64 bits of a reading changes no local id: the id
/// keeps only its low 54 bits anyway.
pub proof fn lemma_truncated_local_id(millis: u128, count: u64)
    ensures
        local_id((millis % 0x1_0000_0000_0000_0000) as int, count as int) == local_id_of(millis, count),
{
    lemma_mod_mod(millis as int, local_millis_span(), 1024);
    assert(local_millis_span() * 1024 == 0x1_0000_0000_0000_0000);
}

/// Keeping only the low 64 bits of a reading changes no record id of
/// timestamp `reading + offset`: the id keeps only its low 42 bits anyway.
pub proof fn lemma_truncated_record_id(millis: u128, offset: int, salt: u32)
    ensures
        record_id((millis % 0x1_0000_0000_0000_0000) + offset, salt as int) == record_id_of(millis, offset, salt),
{
    let q: int = millis as int / 0x1_0000_0000_0000_0000;
    lemma_fundamental_div_mod(millis as int, 0x1_0000_0000_0000_0000);
    assert(0x1_0000_0000_0000_0000 * q == record_stamp_span() * (0x40_0000 * q)) by (nonlinear_arith);
    lemma_mod_multiples_vanish(-(0x40_0000 * q), millis + offset, record_stamp_span());
    assert((millis % 0x1_0000_0000_0000_0000) + offset == record_stamp_span() * -(0x40_0000 * q) + (millis + offset)) by (nonlinear_arith)
        requires
            millis as int == 0x1_0000_0000_0000_0000 * q + millis as int % 0x1_0000_0000_0000_0000,
            0x1_0000_0000_0000_0000 * q == record_stamp_span() * (0x40_0000 * q),
    ;
}

/// The timestamp field of a record id: the bits above its salt.
pub open spec fn record_stamp_of(id: u64) -> int {
    id as int / record_salt_span()
}

/// The timestamp fields of `ids` run on from `stamp` one by one (modulo 2^42).
pub open spec fn stamps_run_from(ids: Seq<u64>, stamp: int) -> bool {
    forall|i: int| 0 <= i < ids.len() ==> #[trigger] record_stamp_of(ids[i]) == (stamp + i) % record_stamp_span()
}

/// The low 64 bits of a millisecond reading, as `u128 as u64` keeps them.
pub fn truncate_millis(millis: u128) -> (low: u64)
    ensures
        low == millis % 0x1_0000_0000_0000_0000,
{
    let low: u64 = millis as u64;
    assert(low == millis % 0x1_0000_0000_0000_0000) by (bit_vector)
        requires
            low == millis as u64,
    ;
    low
}

/// Puts a millisecond reading and a counter value together into one id:
/// `(millis << 10) | (count % 1000)`.
pub fn compose_local_id(millis: u64, count: u64) -> (id: u64)
    ensures
        id == local_id(millis as int, count as int),
        id % 1024 < 1000,
{
    proof {
        law_local_id_fields(millis as int, count as int);
    }
    let low: u64 = count % 1000;
    let id: u64 = (millis << 10u64) | low;
    assert(((millis << 10u64) | low) == (millis % 0x40_0000_0000_0000) * 1024 + low) by (bit_vector)
        requires
            low < 1000,
    ;
    id
}

/// Puts a timestamp and a random salt together into a record id:
/// `(stamp << 22) | (salt & 0x3F_FFFF)`.
pub fn compose_record_id(stamp: u64, salt: u32) -> (id: u64)
    ensures
        id == record_id(stamp as int, salt as int),
{
    let wide: u64 = salt as u64;
    let low: u64 = wide & 0x3F_FFFFu64;
    let id: u64 = (stamp << 22u64) | low;
    assert(low == wide % 0x40_0000) by (bit_vector)
        requires
            low == wide & 0x3F_FFFFu64,
    ;
    assert(((stamp << 22u64) | low) == (stamp % 0x400_0000_0000) * 0x40_0000 + low) by (bit_vector)
        requires
            low < 0x40_0000,
    ;
    id
}

/// Record ids for the items of one batch: item `i` gets the timestamp
/// `stamp + i` (wrapping around `u64`, as the bits above 2^42 are shifted out
/// anyway) and the salt `salts[i]`.
pub fn batch_record_ids(stamp: u64, salts: &Vec<u32>) -> (ids: Vec<u64>)
    ensures
        ids.len() == salts.len(),
        forall|i: int|
            0 <= i < salts.len() ==> #[trigger] ids[i] == record_id(stamp + i, salts[i] as int),
{
    let n: usize = salts.len();
    let mut ids: Vec<u64> = Vec::new();
    for i in 0..n
        invariant
            n == salts.len(),
            ids.len() == i,
            forall|j: int|
                0 <= j < i ==> #[trigger] ids[j] == record_id(stamp + j, salts[j] as int),
    {
        let k: u64 = i as u64;
        let shifted: u64 = stamp.wrapping_add(k);
        proof {
            lemma_wrapped_stamp(stamp, k, shifted);
        }
        ids.push(compose_record_id(shifted, salts[i]));
    }
    ids
}

/// A wrapped `stamp + k` leaves the same bits below 2^42 as the exact sum.
proof fn lemma_wrapped_stamp(stamp: u64, k: u64, shifted: u64)
    requires
        shifted == (if stamp + k > u64::MAX {
            stamp + k - 0x1_0000_0000_0000_0000
        } else {
            stamp + k
        }),
    ensures
        (shifted as int) % record_stamp_span() == (stamp + k) % record_stamp_span(),
{
    if stamp + k > u64::MAX {
        lemma_mod_multiples_vanish(-0x40_0000, stamp + k, record_stamp_span());
        assert(record_stamp_span() * -0x40_0000 + (stamp + k) == shifted);
    }
}

/// A local id holds the clock reading (modulo 2^54) above its ten low bits,
/// and the counter modulo 1000 in those bits.
pub proof fn law_local_id_fields(millis: int, count: int)
    ensures
        local_id(millis, count) / 1024 == millis % local_millis_span(),
        local_id(millis, count) % 1024 == count % 1000,
        0 <= local_id(millis, count) % 1024 < 1000,
{
    lemma_fundamental_div_mod_converse(
        local_id(millis, count),
        1024,
        millis % local_millis_span(),
        count % 1000,
    );
}

/// Two local ids are equal exactly when their clock readings agree modulo
/// 2^54 and their counters agree modulo 1000: up to 1000 ids taken within one
/// millisecond are all different.
pub proof fn law_local_ids_unique(m1: int, c1: int, m2: int, c2: int)
    ensures
        (local_id(m1, c1) == local_id(m2, c2)) <==> (m1 % local_millis_span() == m2
            % local_millis_span() && c1 % 1000 == c2 % 1000),
{
    law_local_id_fields(m1, c1);
    law_local_id_fields(m2, c2);
}

/// Ids taken with counter values less than 1000 apart never collide,
/// whatever the clock read: of any run of fewer than 1000 consecutive ids
/// from one counter, no two are equal. (Ids 1000 counter steps apart within
/// one millisecond do collide.)
pub proof fn law_local_ids_distinct_within_thousand(m1: int, c1: int, m2: int, c2: int)
    requires
        0 <= c1 < c2 < c1 + 1000,
    ensures
        local_id(m1, c1) != local_id(m2, c2),
{
    law_local_id_fields(m1, c1);
    law_local_id_fields(m2, c2);
    lemma_mod_equivalence(c2, c1, 1000);
    lemma_small_mod((c2 - c1) as nat, 1000);
}

/// A later clock reading (below 2^54 ms) always gives a larger local id,
/// whatever the counters hold.
pub proof fn law_local_ids_follow_clock(m1: int, c1: int, m2: int, c2: int)
    requires
        0 <= m1 < m2 < local_millis_span(),
    ensures
        local_id(m1, c1) < local_id(m2, c2),
{
    lemma_small_mod(m1 as nat, local_millis_span() as nat);
    lemma_small_mod(m2 as nat, local_millis_span() as nat);
    assert(local_id(m1, c1) < m1 * 1024 + 1024);
    assert(m1 * 1024 + 1024 <= m2 * 1024) by (nonlinear_arith)
        requires
            m1 < m2,
    ;
}

/// A record id holds the timestamp (modulo 2^42) above its 22 low bits, and
/// the low 22 bits of the salt in those bits.
pub proof fn law_record_id_fields(stamp: int, salt: int)
    ensures
        record_id(stamp, salt) / record_salt_span() == stamp % record_stamp_span(),
        record_id(stamp, salt) % record_salt_span() == salt % record_salt_span(),
{
    lemma_fundamental_div_mod_converse(
        record_id(stamp, salt),
        record_salt_span(),
        stamp % record_stamp_span(),
        salt % record_salt_span(),
    );
}

/// A later timestamp (below 2^42 ms) always gives a larger record id,
/// whatever the salts: records written in different milliseconds are
/// ordered by time and never collide.
pub proof fn law_record_ids_follow_clock(s1: int, salt1: int, s2: int, salt2: int)
    requires
        0 <= s1 < s2 < record_stamp_span(),
    ensures
        record_id(s1, salt1) < record_id(s2, salt2),
{
    lemma_small_mod(s1 as nat, record_stamp_span() as nat);
    lemma_small_mod(s2 as nat, record_stamp_span() as nat);
    assert(record_id(s1, salt1) < s1 * record_salt_span() + record_salt_span());
    assert(s1 * record_salt_span() + record_salt_span() <= s2 * record_salt_span()) by (nonlinear_arith)
        requires
            s1 < s2,
            record_salt_span() == 0x40_0000,
    ;
}

/// Within one batch of at most 2^42 items, the ids of two different items
/// differ, whatever their salts.
pub proof fn law_batch_ids_distinct(stamp: int, i: int, j: int, salt_i: int, salt_j: int)
    requires
        0 <= i < j,
        j - i < record_stamp_span(),
    ensures
        record_id(stamp + i, salt_i) != record_id(stamp + j, salt_j),
{
    law_record_id_fields(stamp + i, salt_i);
    law_record_id_fields(stamp + j, salt_j);
    lemma_mod_equivalence(stamp + j, stamp + i, record_stamp_span());
    lemma_small_mod((j - i) as nat, record_stamp_span() as nat);
    assert((stamp + j) - (stamp + i) == j - i);
}

} // verus!
