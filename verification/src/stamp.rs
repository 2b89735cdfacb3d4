//! The clock, the process counter and the random salts that ids are made
//! from, and the functions that take them and build the ids.

use std::sync::atomic::AtomicU64;
use std::sync::atomic::Ordering;
use vstd::prelude::*;
use crate::ids::{
    batch_record_ids, compose_local_id, compose_record_id,
    law_batch_ids_distinct, law_local_id_fields, law_record_id_fields, local_millis_span,
    record_salt_span, record_id, record_stamp_of, record_stamp_span,
    stamps_run_from, truncate_millis, local_id_of, record_id_of, lemma_truncated_local_id,
    lemma_truncated_record_id,
};

verus! {

/// The time elapsed since the Unix epoch on the system clock, from
/// `std::time::SystemTime::elapsed` on `UNIX_EPOCH`; `None` where the clock
/// stands before the epoch. Nothing is claimed of the value: it is what the
/// clock reads.
#[verifier::external_body]
fn since_epoch() -> (elapsed: Option<std::time::Duration>) {
    match std::time::UNIX_EPOCH.elapsed() {
        Ok(elapsed) => Some(elapsed),
        Err(_) => None,
    }
}

/// The whole milliseconds of `elapsed`, from `Duration::as_millis`. Nothing
/// is claimed: a `Duration` is opaque here.
#[verifier::external_body]
fn whole_millis(elapsed: &std::time::Duration) -> (millis: u128) {
    elapsed.as_millis()
}

/// `millis` is a reading of the system clock: the whole milliseconds of a
/// time elapsed since the Unix epoch that the clock gave.
pub closed spec fn clock_reading(millis: u128) -> bool {
    exists|elapsed: std::time::Duration|
        #![trigger call_ensures(whole_millis, (&elapsed,), millis)]
        call_ensures(since_epoch, (), Some(elapsed)) && call_ensures(whole_millis, (&elapsed,), millis)
}

/// The system clock was found to stand before the Unix epoch.
pub closed spec fn clock_before_epoch() -> bool {
    call_ensures(since_epoch, (), None::<std::time::Duration>)
}

/// `salt` is a value drawn from the random source.
pub closed spec fn random_draw(salt: u32) -> bool {
    call_ensures(random_u32, (), salt)
}

/// Every salt of `salts` was drawn from the random source.
pub closed spec fn all_drawn(salts: Seq<u32>) -> bool {
    forall|i: int| 0 <= i < salts.len() ==> random_draw(#[trigger] salts[i])
}

/// `count` is a value that the counter gave when it was advanced.
pub closed spec fn counter_step(counter: &AtomicU64, count: u64) -> bool {
    call_ensures(next_count, (counter,), count)
}

/// Milliseconds since the Unix epoch on the system clock; `None` where the
/// clock stands before the epoch.
fn unix_millis() -> (millis: Option<u128>)
    ensures
        millis matches Some(m) ==> clock_reading(m),
        millis is None ==> clock_before_epoch(),
{
    match since_epoch() {
        Some(elapsed) => {
            let m: u128 = whole_millis(&elapsed);
            Some(m)
        },
        None => None,
    }
}

/// A random `u32` from `rand::random`. Nothing is claimed of the value.
#[verifier::external_body]
fn random_u32() -> (salt: u32) {
    rand::random::<u32>()
}

/// Advances the counter by one and gives the value it held.
fn next_count(counter: &AtomicU64) -> (count: u64)
    ensures
        call_ensures(AtomicU64::fetch_add, (counter, 1u64, Ordering::Relaxed), count),
{
    counter.fetch_add(1, Ordering::Relaxed)
}

/// Generates an id from the current time and the process counter `counter`
/// (which it advances by one): the reading in milliseconds above ten low bits
/// that hold the counter modulo 1000, so up to 1000 ids a millisecond differ.
/// `None` exactly where the system clock stands before the Unix epoch; the
/// counter is then left alone.
pub fn gen_id(counter: &AtomicU64) -> (id: Option<u64>)
    ensures
        id matches Some(v) ==> exists|millis: u128, count: u64|
            #![trigger clock_reading(millis), counter_step(counter, count)]
            clock_reading(millis) && counter_step(counter, count) && v == local_id_of(millis, count),
        id matches Some(v) ==> v % 1024 < 1000,
        id is None ==> clock_before_epoch(),
{
    let millis: u128 = match unix_millis() {
        Some(m) => m,
        None => {
            return None;
        },
    };
    let low: u64 = truncate_millis(millis);
    let count: u64 = next_count(counter);
    let id: u64 = compose_local_id(low, count);
    proof {
        lemma_truncated_local_id(millis, count);
        assert(clock_reading(millis));
        assert(counter_step(counter, count));
    }
    Some(id)
}

/// The id for one new record of a vector table: the current time in
/// milliseconds above a 22-bit random salt. `None` exactly where the system
/// clock stands before the Unix epoch.
pub fn new_record_id() -> (id: Option<u64>)
    ensures
        id matches Some(v) ==> exists|millis: u128, salt: u32|
            #![trigger clock_reading(millis), random_draw(salt)]
            clock_reading(millis) && random_draw(salt) && v == record_id_of(millis, 0, salt),
        id is None ==> clock_before_epoch(),
{
    let millis: u128 = match unix_millis() {
        Some(m) => m,
        None => {
            return None;
        },
    };
    let stamp: u64 = truncate_millis(millis);
    let salt: u32 = random_u32();
    let id: u64 = compose_record_id(stamp, salt);
    proof {
        lemma_truncated_record_id(millis, 0, salt);
        assert(clock_reading(millis));
        assert(random_draw(salt));
    }
    Some(id)
}

/// The ids for the `n` new records of one batch: item `i` gets the current
/// time in milliseconds plus `i`, above its own 22-bit random salt. So the
/// timestamps of a batch are consecutive, and the ids of a batch of at most
/// 2^42 items are pairwise different. `None` exactly where the system clock
/// stands before the Unix epoch.
pub fn new_batch_record_ids(n: usize) -> (ids: Option<Vec<u64>>)
    ensures
        ids matches Some(v) ==> v.len() == n,
        ids matches Some(v) ==> exists|millis: u128, salts: Seq<u32>|
            #![trigger clock_reading(millis), all_drawn(salts)]
            clock_reading(millis) && all_drawn(salts) && salts.len() == n && forall|i: int|
                0 <= i < n ==> #[trigger] v@[i] == record_id_of(millis, i, salts[i]),
        ids is None ==> clock_before_epoch(),
        ids matches Some(v) ==> exists|start: int| #[trigger] stamps_run_from(v@, start),
        ids matches Some(v) ==> (n <= record_stamp_span() ==> all_distinct(v@)),
{
    let millis: u128 = match unix_millis() {
        Some(m) => m,
        None => {
            return None;
        },
    };
    let stamp: u64 = truncate_millis(millis);
    let mut salts: Vec<u32> = Vec::new();
    for _i in 0..n
        invariant
            salts.len() == _i,
            all_drawn(salts@),
    {
        let salt: u32 = random_u32();
        proof {
            assert(random_draw(salt));
        }
        salts.push(salt);
        proof {
            assert forall|j: int| 0 <= j < salts@.len() implies random_draw(#[trigger] salts@[j]) by {
                if j < salts@.len() - 1 {
                    assert(salts@[j] == salts@.drop_last()[j]);
                }
            }
        }
    }
    let ids: Vec<u64> = batch_record_ids(stamp, &salts);
    proof {
        lemma_batch_shape(stamp, salts@, ids@);
        assert(stamps_run_from(ids@, stamp as int));
        assert forall|i: int| 0 <= i < n implies #[trigger] ids@[i] == record_id_of(millis, i, salts@[i]) by {
            lemma_truncated_record_id(millis, i, salts@[i]);
        }
        assert(clock_reading(millis));
        assert(all_drawn(salts@));
    }
    assert(exists|start: int| #[trigger] stamps_run_from(ids@, start));
    let result: Option<Vec<u64>> = Some(ids);
    assert(result->0@ == ids@);
    result
}

/// No value occurs twice in `ids`.
pub open spec fn all_distinct(ids: Seq<u64>) -> bool {
    forall|i: int, j: int| 0 <= i < ids.len() && 0 <= j < ids.len() && i != j ==> ids[i] != ids[j]
}

/// What the ids of one batch look like: consecutive timestamps and, for at
/// most 2^42 items, no id twice.
proof fn lemma_batch_shape(stamp: u64, salts: Seq<u32>, ids: Seq<u64>)
    requires
        ids.len() == salts.len(),
        forall|i: int| 0 <= i < salts.len() ==> #[trigger] ids[i] == record_id(stamp + i, salts[i] as int),
    ensures
        stamps_run_from(ids, stamp as int),
        ids.len() <= record_stamp_span() ==> all_distinct(ids),
{
    assert forall|i: int| 0 <= i < ids.len() implies #[trigger] record_stamp_of(ids[i]) == (stamp
        + i) % record_stamp_span() by {
        law_record_id_fields(stamp + i, salts[i] as int);
    }
    if ids.len() <= record_stamp_span() {
        assert forall|i: int, j: int| 0 <= i < ids.len() && 0 <= j < ids.len() && i != j implies ids[i]
            != ids[j] by {
            if i < j {
                law_batch_ids_distinct(stamp as int, i, j, salts[i] as int, salts[j] as int);
            } else {
                law_batch_ids_distinct(stamp as int, j, i, salts[j] as int, salts[i] as int);
            }
        }
    }
}

/// Every id `gen_id` gives is built from the clock reading and the counter
/// value taken during the call: the bits above its ten low bits are the
/// reading in milliseconds modulo 2^54, and the ten low bits the counter value
/// modulo 1000. It gives no id exactly when the clock stands before the Unix
/// epoch.
pub proof fn law_gen_id_reads_clock_and_counter(counter: &AtomicU64, id: Option<u64>)
    requires
        call_ensures(gen_id, (counter,), id),
    ensures
        id matches Some(v) ==> exists|millis: u128, count: u64|
            #![trigger clock_reading(millis), counter_step(counter, count)]
            clock_reading(millis) && counter_step(counter, count) && v as int / 1024 == millis as int
                % local_millis_span() && v as int % 1024 == count as int % 1000,
        id is None ==> clock_before_epoch(),
{
    if let Some(v) = id {
        let (millis, count) = choose|millis: u128, count: u64|
            #![trigger clock_reading(millis), counter_step(counter, count)]
            clock_reading(millis) && counter_step(counter, count) && v == local_id_of(millis, count);
        law_local_id_fields(millis as int, count as int);
    }
}

/// Every record id `new_record_id` gives is built from the clock reading and
/// the salt drawn during the call: the bits above its 22 low bits are the
/// reading in milliseconds modulo 2^42, and the 22 low bits those of the
/// salt. It gives no id exactly when the clock stands before the Unix epoch.
pub proof fn law_record_id_reads_clock_and_salt(id: Option<u64>)
    requires
        call_ensures(new_record_id, (), id),
    ensures
        id matches Some(v) ==> exists|millis: u128, salt: u32|
            #![trigger clock_reading(millis), random_draw(salt)]
            clock_reading(millis) && random_draw(salt) && v as int / record_salt_span() == millis as int
                % record_stamp_span() && v as int % record_salt_span() == salt as int % record_salt_span(),
        id is None ==> clock_before_epoch(),
{
    if let Some(v) = id {
        let (millis, salt) = choose|millis: u128, salt: u32|
            #![trigger clock_reading(millis), random_draw(salt)]
            clock_reading(millis) && random_draw(salt) && v == record_id_of(millis, 0, salt);
        law_record_id_fields(millis as int, salt as int);
    }
}

/// The ids `new_batch_record_ids` gives for `n` records start at the clock
/// reading taken during the call: item `i` holds the reading plus `i`
/// (modulo 2^42) above its 22 low bits, and the low 22 bits of its own drawn
/// salt in them. It gives no ids exactly when the clock stands before the
/// Unix epoch.
pub proof fn law_batch_ids_read_clock_and_salts(n: usize, ids: Option<Vec<u64>>)
    requires
        call_ensures(new_batch_record_ids, (n,), ids),
    ensures
        ids matches Some(v) ==> exists|millis: u128, salts: Seq<u32>|
            #![trigger clock_reading(millis), all_drawn(salts)]
            clock_reading(millis) && all_drawn(salts) && salts.len() == n && v@.len() == n
                && forall|i: int|
                0 <= i < n ==> #[trigger] (v@[i] as int / record_salt_span()) == (millis + i)
                    % record_stamp_span() && v@[i] as int % record_salt_span() == salts[i] as int
                    % record_salt_span(),
        ids is None ==> clock_before_epoch(),
{
    if let Some(v) = ids {
        let (millis, salts) = choose|millis: u128, salts: Seq<u32>|
            #![trigger clock_reading(millis), all_drawn(salts)]
            clock_reading(millis) && all_drawn(salts) && salts.len() == n && forall|i: int|
                0 <= i < n ==> #[trigger] v@[i] == record_id_of(millis, i, salts[i]);
        assert forall|i: int| 0 <= i < n implies #[trigger] (v@[i] as int / record_salt_span()) == (millis + i)
            % record_stamp_span() && v@[i] as int % record_salt_span() == salts[i] as int
            % record_salt_span() by {
            assert(v@[i] == record_id_of(millis, i, salts[i]));
            law_record_id_fields(millis + i, salts[i] as int);
        }
    }
}

} // verus!
