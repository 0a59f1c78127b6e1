use pecube_conv::{
    convert_files, decode_history, decode_temperature, decode_velocity, history_header,
    process_files, temperature_header, velocity_header, ConvertError, Endian, FailurePolicy,
    HistoryRecord, Progress, StepInput, TemperatureRecord, VelocityRecord,
};

fn put_u32(b: &mut Vec<u8>, v: u32) {
    b.extend_from_slice(&v.to_le_bytes());
}

fn put_f64(b: &mut Vec<u8>, v: f64) {
    b.extend_from_slice(&v.to_le_bytes());
}

fn f(bits: u64) -> f64 {
    f64::from_bits(bits)
}

fn temperature_line(r: &TemperatureRecord) -> String {
    format!(
        "{}, {}, {}, {}, {}, {}, {}, {}, {}",
        r.current_step,
        r.sub_step,
        f(r.dt),
        f(r.time),
        r.node_id,
        f(r.px),
        f(r.py),
        f(r.pz),
        f(r.temperature)
    )
}

/// One sub-step at step 5 with two nodes; `second_id` is the id written for
/// the second node.
fn temperature_fixture(second_id: u32) -> Vec<u8> {
    let mut b = Vec::new();
    put_u32(&mut b, 1);
    put_u32(&mut b, 5);
    put_u32(&mut b, 2);
    put_f64(&mut b, 0.1);
    put_u32(&mut b, 1);
    put_f64(&mut b, 1.5);
    put_u32(&mut b, 1);
    for v in [0.0, 0.0, 0.0, 100.0] {
        put_f64(&mut b, v);
    }
    put_u32(&mut b, second_id);
    for v in [1.0, 1.0, 1.0, 90.0] {
        put_f64(&mut b, v);
    }
    b
}

/// A time-history file of step `step` with `n` nodes whose steps all declare
/// the sub-step times `times`.
fn history_fixture(step: u32, n: u32, times: &[f64]) -> Vec<u8> {
    let mut b = Vec::new();
    put_u32(&mut b, n);
    put_u32(&mut b, step);
    for c in (1..=step).rev() {
        put_u32(&mut b, c);
        put_u32(&mut b, times.len() as u32);
        for (k, t) in times.iter().enumerate() {
            put_u32(&mut b, k as u32 + 1);
            put_f64(&mut b, *t);
        }
        for k in 0..times.len() {
            for id in 1..=n {
                put_u32(&mut b, id);
                put_f64(&mut b, 1000.0 * c as f64 + 10.0 * k as f64 + id as f64);
                for v in [1.0, 2.0, 3.0, 4.0, 5.0, 6.0] {
                    put_f64(&mut b, v);
                }
            }
        }
    }
    b
}

/// A velocity file counting down from `start` with `n` surface nodes.
fn velocity_fixture(start: u32, n: u32) -> Vec<u8> {
    let mut b = Vec::new();
    put_u32(&mut b, start);
    put_u32(&mut b, n);
    for c in (1..=start).rev() {
        put_u32(&mut b, c);
        for id in 1..=n {
            put_u32(&mut b, id);
            for v in [0.5, 1.5, 2.5, c as f64, id as f64, 7.0] {
                put_f64(&mut b, v);
            }
        }
    }
    b
}

#[test]
fn minimal_temperature_fixture_gives_two_lines() {
    let d = decode_temperature(Endian::Little, &temperature_fixture(2));
    assert_eq!(d.status, Ok(()));
    let lines: Vec<String> = d.records.iter().map(temperature_line).collect();
    assert_eq!(
        lines,
        vec!["5, 1, 0.1, 1.5, 1, 0, 0, 0, 100", "5, 1, 0.1, 1.5, 2, 1, 1, 1, 90"]
    );
}

#[test]
fn corrupted_node_id_stops_after_first_line() {
    let d = decode_temperature(Endian::Little, &temperature_fixture(3));
    assert_eq!(d.status, Err(ConvertError::NodeId { expected: 2, found: 3 }));
    let lines: Vec<String> = d.records.iter().map(temperature_line).collect();
    assert_eq!(lines, vec!["5, 1, 0.1, 1.5, 1, 0, 0, 0, 100"]);
}

#[test]
fn temperature_sub_step_mismatch() {
    let mut b = temperature_fixture(2);
    b[20..24].copy_from_slice(&2u32.to_le_bytes());
    let d = decode_temperature(Endian::Little, &b);
    assert_eq!(d.status, Err(ConvertError::SubStep { expected: 1, found: 2 }));
    assert!(d.records.is_empty());
}

#[test]
fn truncated_temperature_keeps_complete_records() {
    let b = temperature_fixture(2);
    let d = decode_temperature(Endian::Little, &b[..b.len() - 1]);
    assert_eq!(d.status, Err(ConvertError::Truncated));
    assert_eq!(d.records.len(), 1);
    let d = decode_temperature(Endian::Little, &b[..11]);
    assert_eq!(d.status, Err(ConvertError::Truncated));
    assert!(d.records.is_empty());
}

#[test]
fn big_endian_temperature_file() {
    let mut b = Vec::new();
    for v in [1u32, 9, 1] {
        b.extend_from_slice(&v.to_be_bytes());
    }
    b.extend_from_slice(&0.25f64.to_be_bytes());
    b.extend_from_slice(&1u32.to_be_bytes());
    b.extend_from_slice(&2.0f64.to_be_bytes());
    b.extend_from_slice(&1u32.to_be_bytes());
    for v in [3.0f64, 4.0, 5.0, 300.5] {
        b.extend_from_slice(&v.to_be_bytes());
    }
    let d = decode_temperature(Endian::Big, &b);
    assert_eq!(d.status, Ok(()));
    assert_eq!(d.records.len(), 1);
    let r = d.records[0];
    assert_eq!((r.current_step, r.sub_step, r.node_id), (9, 1, 1));
    assert_eq!((f(r.dt), f(r.time), f(r.px), f(r.pz), f(r.temperature)), (0.25, 2.0, 3.0, 5.0, 300.5));
    // The same bytes read in the other order are not a valid file.
    let d = decode_temperature(Endian::Little, &b);
    assert_ne!(d.status, Ok(()));
}

#[test]
fn zero_counts_give_empty_output() {
    let mut t = Vec::new();
    put_u32(&mut t, 0);
    put_u32(&mut t, 4);
    put_u32(&mut t, 7);
    let d = decode_temperature(Endian::Little, &t);
    assert_eq!(d.status, Ok(()));
    assert!(d.records.is_empty());
    let d = decode_history(Endian::Little, &history_fixture(1, 0, &[]), 1);
    assert_eq!(d.status, Ok(()));
    assert!(d.records.is_empty());
    let d = decode_velocity(Endian::Little, &velocity_fixture(0, 5));
    assert_eq!(d.status, Ok(()));
    assert!(d.records.is_empty());
}

#[test]
fn headers_name_the_columns() {
    assert_eq!(
        temperature_header(),
        "# current_step, sub_step, dt, time, node_id, px, py, pz, temperature"
    );
    assert_eq!(
        history_header(),
        "# current_step, ntime, sub_step, time, node_id, temperature, px, py, pz, vx, vy, vz"
    );
    assert_eq!(velocity_header(), "# current_step, node_id, px, py, pz, vx, vy, vz");
}

#[test]
fn history_pairs_each_record_with_its_sub_step_time() {
    let times = [0.5, 1.25, 7.75];
    let d = decode_history(Endian::Little, &history_fixture(2, 2, &times), 2);
    assert_eq!(d.status, Ok(()));
    assert_eq!(d.records.len(), 2 * 3 * 2);
    for r in &d.records {
        assert_eq!(f(r.time), times[(r.sub_step - 1) as usize]);
        assert_eq!(r.ntime, 3);
        let expected = 1000.0 * r.outer_step as f64 + 10.0 * (r.sub_step - 1) as f64 + r.node_id as f64;
        assert_eq!(f(r.temperature), expected);
        assert_eq!((f(r.px), f(r.vz)), (1.0, 6.0));
    }
    let order: Vec<(u32, u32, u32)> =
        d.records.iter().map(|r: &HistoryRecord| (r.outer_step, r.sub_step, r.node_id)).collect();
    assert_eq!(&order[..4], &[(2, 1, 1), (2, 1, 2), (2, 2, 1), (2, 2, 2)]);
    assert_eq!(order[6], (1, 1, 1));
}

#[test]
fn history_file_step_mismatch() {
    let d = decode_history(Endian::Little, &history_fixture(2, 1, &[1.0]), 3);
    assert_eq!(d.status, Err(ConvertError::FileStep { expected: 3, found: 2 }));
    assert!(d.records.is_empty());
}

#[test]
fn history_step_mismatch() {
    let mut b = history_fixture(1, 1, &[1.0]);
    b[8..12].copy_from_slice(&4u32.to_le_bytes());
    let d = decode_history(Endian::Little, &b, 1);
    assert_eq!(d.status, Err(ConvertError::Step { expected: 1, found: 4 }));
}

#[test]
fn history_sub_step_mismatch() {
    let mut b = history_fixture(1, 1, &[1.0, 2.0]);
    b[28..32].copy_from_slice(&1u32.to_le_bytes());
    let d = decode_history(Endian::Little, &b, 1);
    assert_eq!(d.status, Err(ConvertError::SubStep { expected: 2, found: 1 }));
    assert!(d.records.is_empty());
}

#[test]
fn history_node_mismatch() {
    let mut b = history_fixture(1, 2, &[1.0]);
    // header 8, step 8, one time 12, first node 60: second node's id follows.
    b[88..92].copy_from_slice(&9u32.to_le_bytes());
    let d = decode_history(Endian::Little, &b, 1);
    assert_eq!(d.status, Err(ConvertError::NodeId { expected: 2, found: 9 }));
    assert_eq!(d.records.len(), 1);
}

#[test]
fn velocity_steps_descend() {
    let d = decode_velocity(Endian::Little, &velocity_fixture(3, 2));
    assert_eq!(d.status, Ok(()));
    let order: Vec<(u32, u32)> =
        d.records.iter().map(|r: &VelocityRecord| (r.step, r.node_id)).collect();
    assert_eq!(order, vec![(3, 1), (3, 2), (2, 1), (2, 2), (1, 1), (1, 2)]);
    for r in &d.records {
        assert_eq!(f(r.vx), r.step as f64);
        assert_eq!(f(r.vy), r.node_id as f64);
        assert_eq!((f(r.px), f(r.py), f(r.pz), f(r.vz)), (0.5, 1.5, 2.5, 7.0));
    }
}

#[test]
fn velocity_mismatches() {
    let mut b = velocity_fixture(2, 1);
    b[8..12].copy_from_slice(&1u32.to_le_bytes());
    let d = decode_velocity(Endian::Little, &b);
    assert_eq!(d.status, Err(ConvertError::Step { expected: 2, found: 1 }));
    let mut b = velocity_fixture(2, 1);
    b[12..16].copy_from_slice(&5u32.to_le_bytes());
    let d = decode_velocity(Endian::Little, &b);
    assert_eq!(d.status, Err(ConvertError::NodeId { expected: 1, found: 5 }));
    assert!(d.records.is_empty());
}

#[test]
fn decoding_twice_gives_the_same_records() {
    let input = StepInput {
        temperature: temperature_fixture(2),
        history: history_fixture(1, 2, &[0.5, 0.75]),
        velocity: velocity_fixture(1, 3),
    };
    let a = convert_files(Endian::Little, &input, 1);
    let b = convert_files(Endian::Little, &input, 1);
    assert_eq!(a.status, Ok(()));
    assert_eq!(a.status, b.status);
    assert_eq!(a.temperature.records, b.temperature.records);
    assert_eq!(a.history.unwrap().records, b.history.unwrap().records);
    assert_eq!(a.velocity.unwrap().records, b.velocity.unwrap().records);
}

#[test]
fn a_failed_file_stops_the_step() {
    let input = StepInput {
        temperature: temperature_fixture(2),
        history: history_fixture(1, 2, &[0.5]),
        velocity: velocity_fixture(1, 3),
    };
    let r = convert_files(Endian::Little, &input, 2);
    assert_eq!(r.status, Err(ConvertError::FileStep { expected: 2, found: 1 }));
    assert!(r.history.is_some());
    assert!(r.velocity.is_none());
    let input = StepInput { temperature: temperature_fixture(3), ..input };
    let r = convert_files(Endian::Little, &input, 1);
    assert_eq!(r.status, Err(ConvertError::NodeId { expected: 2, found: 3 }));
    assert!(r.history.is_none());
}

#[test]
fn process_files_chooses_the_next_step() {
    assert!(matches!(process_files(Endian::Little, 1, None, FailurePolicy::Abort), Progress::End));
    let good = || StepInput {
        temperature: temperature_fixture(2),
        history: history_fixture(1, 1, &[0.5]),
        velocity: velocity_fixture(1, 1),
    };
    match process_files(Endian::Little, 1, Some(good()), FailurePolicy::Abort) {
        Progress::Converted { output, next } => {
            assert_eq!(output.status, Ok(()));
            assert_eq!(next, Some(2));
        }
        Progress::End => panic!("the step has input"),
    }
    match process_files(Endian::Little, 4, Some(good()), FailurePolicy::Abort) {
        Progress::Converted { output, next } => {
            assert_eq!(output.status, Err(ConvertError::FileStep { expected: 4, found: 1 }));
            assert_eq!(next, None);
        }
        Progress::End => panic!("the step has input"),
    }
    match process_files(Endian::Little, 4, Some(good()), FailurePolicy::Continue) {
        Progress::Converted { next, .. } => assert_eq!(next, Some(5)),
        Progress::End => panic!("the step has input"),
    }
}

#[test]
fn error_messages() {
    assert_eq!(ConvertError::NodeId { expected: 1, found: 2 }.message(), "The node ID does not match");
    assert_eq!(ConvertError::SubStep { expected: 1, found: 2 }.message(), "The sub step index does not match");
    assert_eq!(ConvertError::Step { expected: 1, found: 2 }.message(), "The step index does not match");
    assert_eq!(ConvertError::FileStep { expected: 1, found: 2 }.message(), "The file step index does not match");
    assert_eq!(ConvertError::Truncated.message(), "The input ends before the record does");
}
