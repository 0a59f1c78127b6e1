use crate::bytes::{read_u32, read_u64, word32, word64, Endian};
use crate::error::{ConvertError, Decoded};
use vstd::prelude::*;

verus! {

/// One surface node's position and velocity at one step. Floating-point
/// fields hold their IEEE-754 bit pattern.
#[derive(Clone, Copy, Debug, PartialEq, Eq, Structural)]
pub struct VelocityRecord {
    pub step: u32,
    pub node_id: u32,
    pub px: u64,
    pub py: u64,
    pub pz: u64,
    pub vx: u64,
    pub vy: u64,
    pub vz: u64,
}

/// Bytes of a node record: id, position, velocity.
pub open spec fn velocity_node_len() -> int {
    52
}

/// The record of step `c` whose node entry starts at `p`.
pub open spec fn velocity_record_at(e: Endian, s: Seq<u8>, p: int, c: u32) -> VelocityRecord {
    VelocityRecord {
        step: c,
        node_id: word32(e, s, p),
        px: word64(e, s, p + 4),
        py: word64(e, s, p + 12),
        pz: word64(e, s, p + 20),
        vx: word64(e, s, p + 28),
        vy: word64(e, s, p + 36),
        vz: word64(e, s, p + 44),
    }
}

/// Decoding of the node loop of step `c` from node `i` (of `n`) on, whose
/// entry starts at `p`, appending to `acc`.
pub open spec fn velocity_nodes(
    e: Endian,
    s: Seq<u8>,
    p: int,
    c: u32,
    i: int,
    n: int,
    acc: Seq<VelocityRecord>,
) -> (Seq<VelocityRecord>, Result<int, ConvertError>)
    decreases n + 1 - i,
{
    if i > n {
        (acc, Ok(p))
    } else if p + 4 > s.len() {
        (acc, Err(ConvertError::Truncated))
    } else if word32(e, s, p) != i {
        (acc, Err(ConvertError::NodeId { expected: i as u32, found: word32(e, s, p) }))
    } else if p + velocity_node_len() > s.len() {
        (acc, Err(ConvertError::Truncated))
    } else {
        velocity_nodes(
            e,
            s,
            p + velocity_node_len(),
            c,
            i + 1,
            n,
            acc.push(velocity_record_at(e, s, p, c)),
        )
    }
}

/// Decoding of the steps from `c` down to 1, given what the node loop of step
/// `c + 1` gave.
pub open spec fn velocity_after_nodes(
    e: Endian,
    s: Seq<u8>,
    n: u32,
    c: int,
    prev: (Seq<VelocityRecord>, Result<int, ConvertError>),
) -> (Seq<VelocityRecord>, Result<(), ConvertError>)
    decreases c, 1int,
{
    match prev.1 {
        Err(x) => (prev.0, Err(x)),
        Ok(p) => velocity_steps(e, s, p, n, c, prev.0),
    }
}

/// Decoding of the steps from `c` down to 1, the first of which starts at `p`.
pub open spec fn velocity_steps(
    e: Endian,
    s: Seq<u8>,
    p: int,
    n: u32,
    c: int,
    acc: Seq<VelocityRecord>,
) -> (Seq<VelocityRecord>, Result<(), ConvertError>)
    decreases c, 0int,
{
    if c < 1 {
        (acc, Ok(()))
    } else if p + 4 > s.len() {
        (acc, Err(ConvertError::Truncated))
    } else if word32(e, s, p) != c {
        (acc, Err(ConvertError::Step { expected: c as u32, found: word32(e, s, p) }))
    } else {
        velocity_after_nodes(
            e,
            s,
            n,
            c - 1,
            velocity_nodes(e, s, p + 4, c as u32, 1, n as int, acc),
        )
    }
}

/// What decoding a velocity file gives.
pub open spec fn velocity_file(e: Endian, s: Seq<u8>) -> (
    Seq<VelocityRecord>,
    Result<(), ConvertError>,
) {
    if s.len() < 8 {
        (seq![], Err(ConvertError::Truncated))
    } else {
        velocity_steps(e, s, 8, word32(e, s, 4), word32(e, s, 0) as int, seq![])
    }
}

/// The column header of the text written for a velocity file.
pub fn velocity_header() -> (r: String)
    ensures
        r@ == "# current_step, node_id, px, py, pz, vx, vy, vz"@,
{
    "# current_step, node_id, px, py, pz, vx, vy, vz".to_owned()
}

/// Decodes a velocity file: steps from the first one down to 1, each with one
/// record per surface node, every index checked against its position.
pub fn decode_velocity(e: Endian, s: &[u8]) -> (r: Decoded<VelocityRecord>)
    ensures
        (r.records@, r.status) == velocity_file(e, s@),
{
    let mut out: Vec<VelocityRecord> = Vec::new();
    if s.len() < 8 {
        return Decoded { records: out, status: Err(ConvertError::Truncated) };
    }
    let start = read_u32(e, s, 0);
    let n = read_u32(e, s, 4);
    let ghost goal = velocity_file(e, s@);
    let mut p: usize = 8;
    let mut c: u32 = start;
    while c >= 1
        invariant
            p <= s@.len(),
            s@.len() >= 8,
            n == word32(e, s@, 4),
            goal == velocity_file(e, s@),
            velocity_steps(e, s@, p as int, n, c as int, out@) == goal,
        decreases c,
    {
        if s.len() - p < 4 {
            return Decoded { records: out, status: Err(ConvertError::Truncated) };
        }
        let found = read_u32(e, s, p);
        if found != c {
            return Decoded { records: out, status: Err(ConvertError::Step { expected: c, found }) };
        }
        p = p + 4;
        let mut i: u64 = 1;
        while i <= n as u64
            invariant
                1 <= i <= n as u64 + 1,
                1 <= c,
                p <= s@.len(),
                n == word32(e, s@, 4),
                goal == velocity_file(e, s@),
                velocity_after_nodes(
                    e,
                    s@,
                    n,
                    c - 1,
                    velocity_nodes(e, s@, p as int, c, i as int, n as int, out@),
                ) == goal,
            decreases n as u64 + 1 - i,
        {
            if s.len() - p < 4 {
                return Decoded { records: out, status: Err(ConvertError::Truncated) };
            }
            let id = read_u32(e, s, p);
            if id as u64 != i {
                return Decoded {
                    records: out,
                    status: Err(ConvertError::NodeId { expected: i as u32, found: id }),
                };
            }
            if s.len() - p < 52 {
                return Decoded { records: out, status: Err(ConvertError::Truncated) };
            }
            let px = read_u64(e, s, p + 4);
            let py = read_u64(e, s, p + 12);
            let pz = read_u64(e, s, p + 20);
            let vx = read_u64(e, s, p + 28);
            let vy = read_u64(e, s, p + 36);
            let vz = read_u64(e, s, p + 44);
            out.push(VelocityRecord { step: c, node_id: id, px, py, pz, vx, vy, vz });
            p = p + 52;
            i = i + 1;
        }
        c = c - 1;
    }
    Decoded { records: out, status: Ok(()) }
}

} // verus!
