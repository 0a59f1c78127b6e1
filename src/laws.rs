use crate::bytes::{word32, Endian};
use crate::driver::step_output_is;
use crate::driver::StepInput;
use crate::driver::StepOutput;
use crate::error::ConvertError;
use crate::history::{
    history_file,
    history_nodes,
    history_record_at,
    history_steps,
    history_sub_steps,
    history_times,
    HistoryRecord,
};
use crate::temperature::{
    temperature_file,
    temperature_nodes,
    temperature_sub_steps,
    TemperatureRecord,
};
use crate::velocity::{
    velocity_file,
    velocity_nodes,
    velocity_record_at,
    velocity_steps,
    VelocityRecord,
};
use vstd::prelude::*;

verus! {

/// Converting the same input twice gives the same records and the same
/// outcome for every file of the step.
pub proof fn conversion_is_repeatable(
    e: Endian,
    input: StepInput,
    file_step: u32,
    first: StepOutput,
    second: StepOutput,
)
    requires
        step_output_is(e, input, file_step, first),
        step_output_is(e, input, file_step, second),
    ensures
        first.temperature.records@ == second.temperature.records@,
        first.temperature.status == second.temperature.status,
        first.history is Some <==> second.history is Some,
        first.history is Some ==> first.history->Some_0.records@
            == second.history->Some_0.records@ && first.history->Some_0.status
            == second.history->Some_0.status,
        first.velocity is Some <==> second.velocity is Some,
        first.velocity is Some ==> first.velocity->Some_0.records@
            == second.velocity->Some_0.records@ && first.velocity->Some_0.status
            == second.velocity->Some_0.status,
        first.status == second.status,
{
}

/// A node id in a temperature-field file that differs from its position ends
/// the decoding there, with that mismatch and no further record.
pub proof fn temperature_node_mismatch_stops(
    e: Endian,
    s: Seq<u8>,
    p: int,
    step: u32,
    sub: u32,
    dt: u64,
    time: u64,
    i: int,
    n: int,
    acc: Seq<TemperatureRecord>,
)
    requires
        1 <= i <= n,
        p + 36 <= s.len(),
        word32(e, s, p) != i,
    ensures
        temperature_nodes(e, s, p, step, sub, dt, time, i, n, acc) == (
            acc,
            Err::<int, ConvertError>(ConvertError::NodeId { expected: i as u32, found: word32(e, s, p) }),
        ),
{
}

/// A sub-step index in a temperature-field file that differs from its
/// position ends the decoding there, with that mismatch and no further record.
pub proof fn temperature_sub_step_mismatch_stops(
    e: Endian,
    s: Seq<u8>,
    p: int,
    step: u32,
    npts: u32,
    j: int,
    m: int,
    acc: Seq<TemperatureRecord>,
)
    requires
        1 <= j <= m,
        p + 20 <= s.len(),
        word32(e, s, p + 8) != j,
    ensures
        temperature_sub_steps(e, s, p, step, npts, j, m, acc) == (
            acc,
            Err::<(), ConvertError>(ConvertError::SubStep { expected: j as u32, found: word32(e, s, p + 8) }),
        ),
{
}

/// A sub-step index among the declared times of a time-history file that
/// differs from its position ends the decoding there, with that mismatch.
pub proof fn history_time_mismatch_stops(
    e: Endian,
    s: Seq<u8>,
    p: int,
    k: int,
    ntime: int,
    times: Seq<u64>,
)
    requires
        1 <= k <= ntime,
        p + 12 <= s.len(),
        word32(e, s, p) != k,
    ensures
        history_times(e, s, p, k, ntime, times) == (
            times,
            Err::<int, ConvertError>(ConvertError::SubStep { expected: k as u32, found: word32(e, s, p) }),
        ),
{
}

/// A node id in a time-history file that differs from its position ends the
/// decoding there, with that mismatch and no further record.
pub proof fn history_node_mismatch_stops(
    e: Endian,
    s: Seq<u8>,
    p: int,
    c: u32,
    ntime: u32,
    k: u32,
    time: u64,
    i: int,
    n: int,
    acc: Seq<HistoryRecord>,
)
    requires
        1 <= i <= n,
        p + 12 <= s.len(),
        word32(e, s, p) != i,
    ensures
        history_nodes(e, s, p, c, ntime, k, time, i, n, acc) == (
            acc,
            Err::<int, ConvertError>(ConvertError::NodeId { expected: i as u32, found: word32(e, s, p) }),
        ),
{
}

/// A step index in a time-history file that differs from its position ends
/// the decoding there, with that mismatch and no further record.
pub proof fn history_step_mismatch_stops(
    e: Endian,
    s: Seq<u8>,
    p: int,
    n: u32,
    c: int,
    acc: Seq<HistoryRecord>,
)
    requires
        c >= 1,
        p + 8 <= s.len(),
        word32(e, s, p) != c,
    ensures
        history_steps(e, s, p, n, c, acc) == (
            acc,
            Err::<(), ConvertError>(ConvertError::Step { expected: c as u32, found: word32(e, s, p) }),
        ),
{
}

/// A time-history file whose embedded step differs from the step it is named
/// for gives that mismatch and no record.
pub proof fn history_file_step_mismatch_stops(e: Endian, s: Seq<u8>, file_step: u32)
    requires
        s.len() >= 8,
        word32(e, s, 4) != file_step,
    ensures
        history_file(e, s, file_step) == (
            Seq::<HistoryRecord>::empty(),
            Err::<(), ConvertError>(ConvertError::FileStep { expected: file_step, found: word32(e, s, 4) }),
        ),
{
    assert(seq![] =~= Seq::<HistoryRecord>::empty());
}

/// A node id in a velocity file that differs from its position ends the
/// decoding there, with that mismatch and no further record.
pub proof fn velocity_node_mismatch_stops(
    e: Endian,
    s: Seq<u8>,
    p: int,
    c: u32,
    i: int,
    n: int,
    acc: Seq<VelocityRecord>,
)
    requires
        1 <= i <= n,
        p + 4 <= s.len(),
        word32(e, s, p) != i,
    ensures
        velocity_nodes(e, s, p, c, i, n, acc) == (
            acc,
            Err::<int, ConvertError>(ConvertError::NodeId { expected: i as u32, found: word32(e, s, p) }),
        ),
{
}

/// A step index in a velocity file that differs from its position ends the
/// decoding there, with that mismatch and no further record.
pub proof fn velocity_step_mismatch_stops(
    e: Endian,
    s: Seq<u8>,
    p: int,
    n: u32,
    c: int,
    acc: Seq<VelocityRecord>,
)
    requires
        c >= 1,
        p + 4 <= s.len(),
        word32(e, s, p) != c,
    ensures
        velocity_steps(e, s, p, n, c, acc) == (
            acc,
            Err::<(), ConvertError>(ConvertError::Step { expected: c as u32, found: word32(e, s, p) }),
        ),
{
}

/// A temperature-field file that declares no sub-step decodes to no record and
/// no failure.
pub proof fn temperature_without_sub_steps_is_empty(e: Endian, s: Seq<u8>)
    requires
        s.len() >= 12,
        word32(e, s, 0) == 0,
    ensures
        temperature_file(e, s) == (Seq::<TemperatureRecord>::empty(), Ok::<(), ConvertError>(())),
{
    assert(seq![] =~= Seq::<TemperatureRecord>::empty());
}

/// A time-history file of step 0 that says so decodes to no record and no
/// failure.
pub proof fn history_without_steps_is_empty(e: Endian, s: Seq<u8>)
    requires
        s.len() >= 8,
        word32(e, s, 4) == 0,
    ensures
        history_file(e, s, 0) == (Seq::<HistoryRecord>::empty(), Ok::<(), ConvertError>(())),
{
    assert(seq![] =~= Seq::<HistoryRecord>::empty());
}

/// A velocity file that declares no step decodes to no record and no failure.
pub proof fn velocity_without_steps_is_empty(e: Endian, s: Seq<u8>)
    requires
        s.len() >= 8,
        word32(e, s, 0) == 0,
    ensures
        velocity_file(e, s) == (Seq::<VelocityRecord>::empty(), Ok::<(), ConvertError>(())),
{
    assert(seq![] =~= Seq::<VelocityRecord>::empty());
}

/// Every record of `recs` from index `from` on carries the time that `times`
/// declares for its sub-step.
pub open spec fn carries_declared_time(recs: Seq<HistoryRecord>, from: int, times: Seq<u64>) -> bool {
    forall|x: int|
        from <= x < recs.len() ==> 1 <= recs[x].sub_step <= times.len() && recs[x].time
            == times[recs[x].sub_step - 1]
}

/// The node loop of one sub-step keeps the records already decoded and gives
/// each new record that sub-step and its time.
pub proof fn history_nodes_keep_sub_step_time(
    e: Endian,
    s: Seq<u8>,
    p: int,
    c: u32,
    ntime: u32,
    k: u32,
    time: u64,
    i: int,
    n: int,
    acc: Seq<HistoryRecord>,
)
    ensures
        ({
            let r = history_nodes(e, s, p, c, ntime, k, time, i, n, acc).0;
            &&& acc.len() <= r.len()
            &&& r.subrange(0, acc.len() as int) == acc
            &&& forall|x: int|
                acc.len() <= x < r.len() ==> r[x].sub_step == k && r[x].time == time
        }),
    decreases n + 1 - i,
{
    if i <= n && p + 12 <= s.len() && word32(e, s, p) == i && p + 60 <= s.len() {
        let rec = history_record_at(e, s, p, c, ntime, k, time);
        let next = acc.push(rec);
        history_nodes_keep_sub_step_time(e, s, p + 60, c, ntime, k, time, i + 1, n, next);
        let r = history_nodes(e, s, p, c, ntime, k, time, i, n, acc).0;
        assert(r == history_nodes(e, s, p + 60, c, ntime, k, time, i + 1, n, next).0);
        assert(r.subrange(0, acc.len() as int) =~= r.subrange(0, next.len() as int).subrange(
            0,
            acc.len() as int,
        ));
        assert(r[acc.len() as int] == r.subrange(0, next.len() as int)[acc.len() as int]);
    }
}

/// Within one outer step of a time-history file, every record decoded from
/// sub-step `k` on is paired with the time declared for its own sub-step, and
/// the records decoded before are kept.
pub proof fn history_records_carry_declared_times(
    e: Endian,
    s: Seq<u8>,
    p: int,
    c: u32,
    ntime: u32,
    times: Seq<u64>,
    n: u32,
    k: int,
    acc: Seq<HistoryRecord>,
)
    requires
        k >= 1,
        times.len() == ntime,
    ensures
        ({
            let r = history_sub_steps(e, s, p, c, ntime, times, n, k, acc).0;
            &&& acc.len() <= r.len()
            &&& r.subrange(0, acc.len() as int) == acc
            &&& carries_declared_time(r, acc.len() as int, times)
        }),
    decreases ntime + 1 - k,
{
    if k <= ntime {
        let mid = history_nodes(e, s, p, c, ntime, k as u32, times[k - 1], 1, n as int, acc);
        history_nodes_keep_sub_step_time(e, s, p, c, ntime, k as u32, times[k - 1], 1, n as int, acc);
        let m = mid.0;
        if let Ok(q) = mid.1 {
            history_records_carry_declared_times(e, s, q, c, ntime, times, n, k + 1, m);
            let r = history_sub_steps(e, s, q, c, ntime, times, n, k + 1, m).0;
            assert(r.subrange(0, acc.len() as int) =~= r.subrange(0, m.len() as int).subrange(
                0,
                acc.len() as int,
            ));
            assert forall|x: int| acc.len() <= x < m.len() implies r[x] == m[x] by {
                assert(r[x] == r.subrange(0, m.len() as int)[x]);
            }
        }
    }
}

/// The records of `recs` from index `from` on have steps from `c` down to 1,
/// in descending order.
pub open spec fn steps_descend_from(recs: Seq<VelocityRecord>, from: int, c: int) -> bool {
    &&& forall|x: int| from <= x < recs.len() ==> 1 <= #[trigger] recs[x].step <= c
    &&& forall|x: int, y: int| from <= x < y < recs.len() ==> #[trigger] recs[x].step >= #[trigger] recs[y].step
}

/// The node loop of one velocity step keeps the records already decoded and
/// gives each new record that step.
pub proof fn velocity_nodes_keep_step(
    e: Endian,
    s: Seq<u8>,
    p: int,
    c: u32,
    i: int,
    n: int,
    acc: Seq<VelocityRecord>,
)
    ensures
        ({
            let r = velocity_nodes(e, s, p, c, i, n, acc).0;
            &&& acc.len() <= r.len()
            &&& r.subrange(0, acc.len() as int) == acc
            &&& forall|x: int| acc.len() <= x < r.len() ==> r[x].step == c
        }),
    decreases n + 1 - i,
{
    if i <= n && p + 4 <= s.len() && word32(e, s, p) == i && p + 52 <= s.len() {
        let next = acc.push(velocity_record_at(e, s, p, c));
        velocity_nodes_keep_step(e, s, p + 52, c, i + 1, n, next);
        let r = velocity_nodes(e, s, p, c, i, n, acc).0;
        assert(r.subrange(0, acc.len() as int) =~= r.subrange(0, next.len() as int).subrange(
            0,
            acc.len() as int,
        ));
        assert(r[acc.len() as int] == r.subrange(0, next.len() as int)[acc.len() as int]);
    }
}

/// A velocity file's records come out step by step in descending order, from
/// the first step down to 1, after the records decoded before.
pub proof fn velocity_steps_descend(
    e: Endian,
    s: Seq<u8>,
    p: int,
    n: u32,
    c: int,
    acc: Seq<VelocityRecord>,
)
    ensures
        ({
            let r = velocity_steps(e, s, p, n, c, acc).0;
            &&& acc.len() <= r.len()
            &&& r.subrange(0, acc.len() as int) == acc
            &&& steps_descend_from(r, acc.len() as int, c)
        }),
    decreases c,
{
    if c >= 1 && p + 4 <= s.len() && word32(e, s, p) == c {
        let mid = velocity_nodes(e, s, p + 4, c as u32, 1, n as int, acc);
        velocity_nodes_keep_step(e, s, p + 4, c as u32, 1, n as int, acc);
        let m = mid.0;
        if let Ok(q) = mid.1 {
            velocity_steps_descend(e, s, q, n, c - 1, m);
            let r = velocity_steps(e, s, q, n, c - 1, m).0;
            assert(r.subrange(0, acc.len() as int) =~= r.subrange(0, m.len() as int).subrange(
                0,
                acc.len() as int,
            ));
            assert forall|x: int| acc.len() <= x < m.len() implies r[x] == m[x] by {
                assert(r[x] == r.subrange(0, m.len() as int)[x]);
            }
        }
    }
}

} // verus!
