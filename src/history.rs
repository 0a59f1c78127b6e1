use crate::bytes::{read_u32, read_u64, word32, word64, Endian};
use crate::error::{ConvertError, Decoded};
use vstd::prelude::*;

verus! {

/// One node's temperature, position and velocity at one sub-step of one
/// step. Floating-point fields hold their IEEE-754 bit pattern.
#[derive(Clone, Copy, Debug, PartialEq, Eq, Structural)]
pub struct HistoryRecord {
    pub outer_step: u32,
    pub ntime: u32,
    pub sub_step: u32,
    pub time: u64,
    pub node_id: u32,
    pub temperature: u64,
    pub px: u64,
    pub py: u64,
    pub pz: u64,
    pub vx: u64,
    pub vy: u64,
    pub vz: u64,
}

/// Bytes of a node record: id, temperature, position, velocity.
pub open spec fn history_node_len() -> int {
    60
}

/// The record whose node entry starts at `p`, paired with the time declared
/// for its sub-step.
pub open spec fn history_record_at(
    e: Endian,
    s: Seq<u8>,
    p: int,
    c: u32,
    ntime: u32,
    k: u32,
    time: u64,
) -> HistoryRecord {
    HistoryRecord {
        outer_step: c,
        ntime,
        sub_step: k,
        time,
        node_id: word32(e, s, p),
        temperature: word64(e, s, p + 4),
        px: word64(e, s, p + 12),
        py: word64(e, s, p + 20),
        pz: word64(e, s, p + 28),
        vx: word64(e, s, p + 36),
        vy: word64(e, s, p + 44),
        vz: word64(e, s, p + 52),
    }
}

/// Decoding of the declared sub-step times from sub-step `k` (of `ntime`) on,
/// starting at `p`, appending to `times`.
pub open spec fn history_times(e: Endian, s: Seq<u8>, p: int, k: int, ntime: int, times: Seq<u64>) -> (
    Seq<u64>,
    Result<int, ConvertError>,
)
    decreases ntime + 1 - k,
{
    if k > ntime {
        (times, Ok(p))
    } else if p + 12 > s.len() {
        (times, Err(ConvertError::Truncated))
    } else if word32(e, s, p) != k {
        (times, Err(ConvertError::SubStep { expected: k as u32, found: word32(e, s, p) }))
    } else {
        history_times(e, s, p + 12, k + 1, ntime, times.push(word64(e, s, p + 4)))
    }
}

/// Decoding of the node loop of sub-step `k` of step `c` from node `i` (of
/// `n`) on, whose entry starts at `p`, appending to `acc`.
pub open spec fn history_nodes(
    e: Endian,
    s: Seq<u8>,
    p: int,
    c: u32,
    ntime: u32,
    k: u32,
    time: u64,
    i: int,
    n: int,
    acc: Seq<HistoryRecord>,
) -> (Seq<HistoryRecord>, Result<int, ConvertError>)
    decreases n + 1 - i,
{
    if i > n {
        (acc, Ok(p))
    } else if p + 12 > s.len() {
        (acc, Err(ConvertError::Truncated))
    } else if word32(e, s, p) != i {
        (acc, Err(ConvertError::NodeId { expected: i as u32, found: word32(e, s, p) }))
    } else if p + history_node_len() > s.len() {
        (acc, Err(ConvertError::Truncated))
    } else {
        history_nodes(
            e,
            s,
            p + history_node_len(),
            c,
            ntime,
            k,
            time,
            i + 1,
            n,
            acc.push(history_record_at(e, s, p, c, ntime, k, time)),
        )
    }
}

/// Decoding of the sub-steps of step `c` from `k` on, given what the node loop
/// of sub-step `k - 1` gave; `times` are the declared sub-step times.
pub open spec fn history_after_nodes(
    e: Endian,
    s: Seq<u8>,
    c: u32,
    ntime: u32,
    times: Seq<u64>,
    n: u32,
    k: int,
    prev: (Seq<HistoryRecord>, Result<int, ConvertError>),
) -> (Seq<HistoryRecord>, Result<int, ConvertError>)
    decreases ntime + 1 - k, 1int,
{
    match prev.1 {
        Err(x) => (prev.0, Err(x)),
        Ok(p) => history_sub_steps(e, s, p, c, ntime, times, n, k, prev.0),
    }
}

/// Decoding of the sub-steps of step `c` from `k` on, starting at `p`: each
/// node record takes the time declared for its sub-step.
pub open spec fn history_sub_steps(
    e: Endian,
    s: Seq<u8>,
    p: int,
    c: u32,
    ntime: u32,
    times: Seq<u64>,
    n: u32,
    k: int,
    acc: Seq<HistoryRecord>,
) -> (Seq<HistoryRecord>, Result<int, ConvertError>)
    decreases ntime + 1 - k, 0int,
{
    if k > ntime {
        (acc, Ok(p))
    } else {
        history_after_nodes(
            e,
            s,
            c,
            ntime,
            times,
            n,
            k + 1,
            history_nodes(e, s, p, c, ntime, k as u32, times[k - 1], 1, n as int, acc),
        )
    }
}

/// Decoding of the steps from `c - 1` down to 1, given what the sub-steps of
/// step `c` gave.
pub open spec fn history_after_sub_steps(
    e: Endian,
    s: Seq<u8>,
    n: u32,
    c: int,
    prev: (Seq<HistoryRecord>, Result<int, ConvertError>),
) -> (Seq<HistoryRecord>, Result<(), ConvertError>)
    decreases c, 1int,
{
    match prev.1 {
        Err(x) => (prev.0, Err(x)),
        Ok(p) => if c >= 1 {
            history_steps(e, s, p, n, c - 1, prev.0)
        } else {
            (prev.0, Ok(()))
        },
    }
}

/// Decoding of step `c` from its sub-step times on, given what reading those
/// times gave, then of the steps below it.
pub open spec fn history_after_times(
    e: Endian,
    s: Seq<u8>,
    n: u32,
    c: int,
    ntime: u32,
    acc: Seq<HistoryRecord>,
    prev: (Seq<u64>, Result<int, ConvertError>),
) -> (Seq<HistoryRecord>, Result<(), ConvertError>)
    decreases c, 2int,
{
    match prev.1 {
        Err(x) => (acc, Err(x)),
        Ok(p) => history_after_sub_steps(
            e,
            s,
            n,
            c,
            history_sub_steps(e, s, p, c as u32, ntime, prev.0, n, 1, acc),
        ),
    }
}

/// Decoding of the steps from `c` down to 1, the first of which starts at `p`.
pub open spec fn history_steps(
    e: Endian,
    s: Seq<u8>,
    p: int,
    n: u32,
    c: int,
    acc: Seq<HistoryRecord>,
) -> (Seq<HistoryRecord>, Result<(), ConvertError>)
    decreases c, 3int,
{
    if c < 1 {
        (acc, Ok(()))
    } else if p + 8 > s.len() {
        (acc, Err(ConvertError::Truncated))
    } else if word32(e, s, p) != c {
        (acc, Err(ConvertError::Step { expected: c as u32, found: word32(e, s, p) }))
    } else {
        history_after_times(
            e,
            s,
            n,
            c,
            word32(e, s, p + 4),
            acc,
            history_times(e, s, p + 8, 1, word32(e, s, p + 4) as int, seq![]),
        )
    }
}

/// What decoding the time-history file of step `file_step` gives.
pub open spec fn history_file(e: Endian, s: Seq<u8>, file_step: u32) -> (
    Seq<HistoryRecord>,
    Result<(), ConvertError>,
) {
    if s.len() < 8 {
        (seq![], Err(ConvertError::Truncated))
    } else if word32(e, s, 4) != file_step {
        (seq![], Err(ConvertError::FileStep { expected: file_step, found: word32(e, s, 4) }))
    } else {
        history_steps(e, s, 8, word32(e, s, 0), file_step as int, seq![])
    }
}

/// The column header of the text written for a time-history file.
pub fn history_header() -> (r: String)
    ensures
        r@
            == "# current_step, ntime, sub_step, time, node_id, temperature, px, py, pz, vx, vy, vz"@,
{
    "# current_step, ntime, sub_step, time, node_id, temperature, px, py, pz, vx, vy, vz".to_owned()
}

/// Decodes the time-history file of step `file_step`: steps from `file_step`
/// down to 1, each with its declared sub-step times and then one record per
/// sub-step and node, every index checked against its position.
pub fn decode_history(e: Endian, s: &[u8], file_step: u32) -> (r: Decoded<HistoryRecord>)
    ensures
        (r.records@, r.status) == history_file(e, s@, file_step),
{
    let mut out: Vec<HistoryRecord> = Vec::new();
    if s.len() < 8 {
        return Decoded { records: out, status: Err(ConvertError::Truncated) };
    }
    let n = read_u32(e, s, 0);
    let outer = read_u32(e, s, 4);
    if outer != file_step {
        return Decoded {
            records: out,
            status: Err(ConvertError::FileStep { expected: file_step, found: outer }),
        };
    }
    let ghost goal = history_file(e, s@, file_step);
    let mut p: usize = 8;
    let mut c: u32 = outer;
    while c >= 1
        invariant
            p <= s@.len(),
            n == word32(e, s@, 0),
            goal == history_file(e, s@, file_step),
            history_steps(e, s@, p as int, n, c as int, out@) == goal,
        decreases c,
    {
        if s.len() - p < 8 {
            return Decoded { records: out, status: Err(ConvertError::Truncated) };
        }
        let found = read_u32(e, s, p);
        let ntime = read_u32(e, s, p + 4);
        if found != c {
            return Decoded { records: out, status: Err(ConvertError::Step { expected: c, found }) };
        }
        p = p + 8;
        let mut times: Vec<u64> = Vec::new();
        let mut k: u64 = 1;
        while k <= ntime as u64
            invariant
                1 <= k <= ntime as u64 + 1,
                1 <= c,
                times@.len() == k - 1,
                p <= s@.len(),
                n == word32(e, s@, 0),
                goal == history_file(e, s@, file_step),
                history_after_times(
                    e,
                    s@,
                    n,
                    c as int,
                    ntime,
                    out@,
                    history_times(e, s@, p as int, k as int, ntime as int, times@),
                ) == goal,
            decreases ntime as u64 + 1 - k,
        {
            if s.len() - p < 12 {
                return Decoded { records: out, status: Err(ConvertError::Truncated) };
            }
            let sub = read_u32(e, s, p);
            let time = read_u64(e, s, p + 4);
            if sub as u64 != k {
                return Decoded {
                    records: out,
                    status: Err(ConvertError::SubStep { expected: k as u32, found: sub }),
                };
            }
            times.push(time);
            p = p + 12;
            k = k + 1;
        }
        k = 1;
        while k <= ntime as u64
            invariant
                1 <= k <= ntime as u64 + 1,
                1 <= c,
                times@.len() == ntime,
                p <= s@.len(),
                n == word32(e, s@, 0),
                goal == history_file(e, s@, file_step),
                history_after_sub_steps(
                    e,
                    s@,
                    n,
                    c as int,
                    history_sub_steps(e, s@, p as int, c, ntime, times@, n, k as int, out@),
                ) == goal,
            decreases ntime as u64 + 1 - k,
        {
            let time = times[(k - 1) as usize];
            let mut i: u64 = 1;
            while i <= n as u64
                invariant
                    1 <= i <= n as u64 + 1,
                    1 <= k <= ntime as u64,
                    1 <= c,
                    times@.len() == ntime,
                    time == times@[k - 1],
                    p <= s@.len(),
                    n == word32(e, s@, 0),
                    goal == history_file(e, s@, file_step),
                    history_after_sub_steps(
                        e,
                        s@,
                        n,
                        c as int,
                        history_after_nodes(
                            e,
                            s@,
                            c,
                            ntime,
                            times@,
                            n,
                            k + 1,
                            history_nodes(
                                e,
                                s@,
                                p as int,
                                c,
                                ntime,
                                k as u32,
                                time,
                                i as int,
                                n as int,
                                out@,
                            ),
                        ),
                    ) == goal,
                decreases n as u64 + 1 - i,
            {
                if s.len() - p < 12 {
                    return Decoded { records: out, status: Err(ConvertError::Truncated) };
                }
                let id = read_u32(e, s, p);
                let temperature = read_u64(e, s, p + 4);
                if id as u64 != i {
                    return Decoded {
                        records: out,
                        status: Err(ConvertError::NodeId { expected: i as u32, found: id }),
                    };
                }
                if s.len() - p < 60 {
                    return Decoded { records: out, status: Err(ConvertError::Truncated) };
                }
                let px = read_u64(e, s, p + 12);
                let py = read_u64(e, s, p + 20);
                let pz = read_u64(e, s, p + 28);
                let vx = read_u64(e, s, p + 36);
                let vy = read_u64(e, s, p + 44);
                let vz = read_u64(e, s, p + 52);
                out.push(
                    HistoryRecord {
                        outer_step: c,
                        ntime,
                        sub_step: k as u32,
                        time,
                        node_id: id,
                        temperature,
                        px,
                        py,
                        pz,
                        vx,
                        vy,
                        vz,
                    },
                );
                p = p + 60;
                i = i + 1;
            }
            k = k + 1;
        }
        c = c - 1;
    }
    Decoded { records: out, status: Ok(()) }
}

} // verus!
