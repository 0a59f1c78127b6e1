use crate::bytes::{read_u32, read_u64, word32, word64, Endian};
use crate::error::{ConvertError, Decoded};
use vstd::prelude::*;

verus! {

/// One node's temperature in one sub-step. Floating-point fields hold their
/// IEEE-754 bit pattern.
#[derive(Clone, Copy, Debug, PartialEq, Eq, Structural)]
pub struct TemperatureRecord {
    pub current_step: u32,
    pub sub_step: u32,
    pub dt: u64,
    pub time: u64,
    pub node_id: u32,
    pub px: u64,
    pub py: u64,
    pub pz: u64,
    pub temperature: u64,
}

/// Bytes of the file header: sub-step count, step, point count.
pub open spec fn temperature_header_len() -> int {
    12
}

/// Bytes of a sub-step header: `dt`, sub-step index, time.
pub open spec fn sub_step_header_len() -> int {
    20
}

/// Bytes of a node record: id, position, temperature.
pub open spec fn temperature_node_len() -> int {
    36
}

/// The record whose node entry starts at `p`.
pub open spec fn temperature_record_at(
    e: Endian,
    s: Seq<u8>,
    p: int,
    step: u32,
    sub: u32,
    dt: u64,
    time: u64,
) -> TemperatureRecord {
    TemperatureRecord {
        current_step: step,
        sub_step: sub,
        dt,
        time,
        node_id: word32(e, s, p),
        px: word64(e, s, p + 4),
        py: word64(e, s, p + 12),
        pz: word64(e, s, p + 20),
        temperature: word64(e, s, p + 28),
    }
}

/// Decoding of the node loop of one sub-step from node `i` (of `n`) on, whose
/// entry starts at `p`, appending to `acc`: the records, and the position after
/// the loop or the failure.
pub open spec fn temperature_nodes(
    e: Endian,
    s: Seq<u8>,
    p: int,
    step: u32,
    sub: u32,
    dt: u64,
    time: u64,
    i: int,
    n: int,
    acc: Seq<TemperatureRecord>,
) -> (Seq<TemperatureRecord>, Result<int, ConvertError>)
    decreases n + 1 - i,
{
    if i > n {
        (acc, Ok(p))
    } else if p + temperature_node_len() > s.len() {
        (acc, Err(ConvertError::Truncated))
    } else if word32(e, s, p) != i {
        (acc, Err(ConvertError::NodeId { expected: i as u32, found: word32(e, s, p) }))
    } else {
        temperature_nodes(
            e,
            s,
            p + temperature_node_len(),
            step,
            sub,
            dt,
            time,
            i + 1,
            n,
            acc.push(temperature_record_at(e, s, p, step, sub, dt, time)),
        )
    }
}

/// Decoding of the sub-steps from `j` (of `m`) on, given what the node loop of
/// sub-step `j - 1` gave.
pub open spec fn temperature_after_nodes(
    e: Endian,
    s: Seq<u8>,
    step: u32,
    npts: u32,
    j: int,
    m: int,
    prev: (Seq<TemperatureRecord>, Result<int, ConvertError>),
) -> (Seq<TemperatureRecord>, Result<(), ConvertError>)
    decreases m + 1 - j, 1int,
{
    match prev.1 {
        Err(x) => (prev.0, Err(x)),
        Ok(p) => temperature_sub_steps(e, s, p, step, npts, j, m, prev.0),
    }
}

/// Decoding of the sub-steps from `j` (of `m`) on, whose header starts at `p`.
pub open spec fn temperature_sub_steps(
    e: Endian,
    s: Seq<u8>,
    p: int,
    step: u32,
    npts: u32,
    j: int,
    m: int,
    acc: Seq<TemperatureRecord>,
) -> (Seq<TemperatureRecord>, Result<(), ConvertError>)
    decreases m + 1 - j, 0int,
{
    if j > m {
        (acc, Ok(()))
    } else if p + sub_step_header_len() > s.len() {
        (acc, Err(ConvertError::Truncated))
    } else if word32(e, s, p + 8) != j {
        (acc, Err(ConvertError::SubStep { expected: j as u32, found: word32(e, s, p + 8) }))
    } else {
        temperature_after_nodes(
            e,
            s,
            step,
            npts,
            j + 1,
            m,
            temperature_nodes(
                e,
                s,
                p + sub_step_header_len(),
                step,
                j as u32,
                word64(e, s, p),
                word64(e, s, p + 12),
                1,
                npts as int,
                acc,
            ),
        )
    }
}

/// What decoding a temperature-field file gives.
pub open spec fn temperature_file(e: Endian, s: Seq<u8>) -> (
    Seq<TemperatureRecord>,
    Result<(), ConvertError>,
) {
    if s.len() < temperature_header_len() {
        (seq![], Err(ConvertError::Truncated))
    } else {
        temperature_sub_steps(
            e,
            s,
            temperature_header_len(),
            word32(e, s, 4),
            word32(e, s, 8),
            1,
            word32(e, s, 0) as int,
            seq![],
        )
    }
}

/// The column header of the text written for a temperature-field file.
pub fn temperature_header() -> (r: String)
    ensures
        r@ == "# current_step, sub_step, dt, time, node_id, px, py, pz, temperature"@,
{
    "# current_step, sub_step, dt, time, node_id, px, py, pz, temperature".to_owned()
}

/// Decodes a temperature-field file: per sub-step its `dt`, index and time,
/// then one record per node, every index checked against its position.
pub fn decode_temperature(e: Endian, s: &[u8]) -> (r: Decoded<TemperatureRecord>)
    ensures
        (r.records@, r.status) == temperature_file(e, s@),
{
    let mut out: Vec<TemperatureRecord> = Vec::new();
    if s.len() < 12 {
        return Decoded { records: out, status: Err(ConvertError::Truncated) };
    }
    let m = read_u32(e, s, 0);
    let step = read_u32(e, s, 4);
    let npts = read_u32(e, s, 8);
    let ghost goal = temperature_file(e, s@);
    let mut p: usize = 12;
    let mut j: u64 = 1;
    while j <= m as u64
        invariant
            1 <= j <= m as u64 + 1,
            p <= s@.len(),
            s@.len() >= 12,
            m == word32(e, s@, 0),
            step == word32(e, s@, 4),
            npts == word32(e, s@, 8),
            goal == temperature_file(e, s@),
            temperature_sub_steps(e, s@, p as int, step, npts, j as int, m as int, out@)
                == goal,
        decreases m as u64 + 1 - j,
    {
        if s.len() - p < 20 {
            return Decoded { records: out, status: Err(ConvertError::Truncated) };
        }
        let dt = read_u64(e, s, p);
        let sub = read_u32(e, s, p + 8);
        let time = read_u64(e, s, p + 12);
        if sub as u64 != j {
            return Decoded {
                records: out,
                status: Err(ConvertError::SubStep { expected: j as u32, found: sub }),
            };
        }
        p = p + 20;
        let mut i: u64 = 1;
        while i <= npts as u64
            invariant
                1 <= i <= npts as u64 + 1,
                1 <= j <= m as u64,
                p <= s@.len(),
                m == word32(e, s@, 0),
                step == word32(e, s@, 4),
                npts == word32(e, s@, 8),
                goal == temperature_file(e, s@),
                temperature_after_nodes(
                    e,
                    s@,
                    step,
                    npts,
                    j + 1,
                    m as int,
                    temperature_nodes(
                        e,
                        s@,
                        p as int,
                        step,
                        j as u32,
                        dt,
                        time,
                        i as int,
                        npts as int,
                        out@,
                    ),
                ) == goal,
            decreases npts as u64 + 1 - i,
        {
            if s.len() - p < 36 {
                return Decoded { records: out, status: Err(ConvertError::Truncated) };
            }
            let id = read_u32(e, s, p);
            let px = read_u64(e, s, p + 4);
            let py = read_u64(e, s, p + 12);
            let pz = read_u64(e, s, p + 20);
            let temperature = read_u64(e, s, p + 28);
            if id as u64 != i {
                return Decoded {
                    records: out,
                    status: Err(ConvertError::NodeId { expected: i as u32, found: id }),
                };
            }
            out.push(
                TemperatureRecord {
                    current_step: step,
                    sub_step: j as u32,
                    dt,
                    time,
                    node_id: id,
                    px,
                    py,
                    pz,
                    temperature,
                },
            );
            p = p + 36;
            i = i + 1;
        }
        j = j + 1;
    }
    Decoded { records: out, status: Ok(()) }
}

} // verus!
