use bytes::BytesMut;
use gauge_offset::cnc::{
    conclude_write, conclude_write_at, read_offset_of, trimmed_mean, write_offset_to_cnc,
    BatchError, GaugeBatches, OffsetWatcher, ToolData, DEFAULT_BATCH_SIZE, MAX_BATCH_SIZE,
};
use gauge_offset::fwlib::{FocasClient, OffsetStep, WriteStep, ODBTOFS};
use gauge_offset::gauge::{dummy_frame, GaugeResponse, McProtocolCodec, MeasurementRouter};
use gauge_offset::{OffsetLog, PendingWrite};
use std::collections::HashMap;

fn held(number: i16, data: i32) -> OffsetStep {
    OffsetStep::Value { tofs: ODBTOFS { datano: number, ofs_type: 0, data } }
}

fn tool(machine_id: u16, tool_num: i16, basic_size: i32, active: bool) -> ToolData {
    ToolData::new(machine_id, tool_num, basic_size, 0, 10000, active, None)
}

fn dummy_table(ids: &[u16]) -> HashMap<u16, FocasClient> {
    let mut table = HashMap::new();
    for id in ids {
        table.insert(*id, FocasClient::new("dummy", 8193, 0, 0).unwrap());
    }
    table
}

fn tools_for(ids: &[u16], basic_size: i32) -> HashMap<u16, (ToolData, ToolData)> {
    let mut tools = HashMap::new();
    for id in ids {
        tools.insert(*id, (tool(*id, 11, basic_size, true), tool(*id, 12, basic_size, false)));
    }
    tools
}

#[test]
fn trimmed_mean_drops_one_minimum_and_one_maximum() {
    assert_eq!(trimmed_mean(&vec![1, 5, 5, 5, 9]), Some(5));
    assert_eq!(trimmed_mean(&vec![9, 5, 1, 5, 5]), Some(5));
    assert_eq!(trimmed_mean(&vec![1, 1, 1, 9, 9]), Some(4));
    assert_eq!(trimmed_mean(&vec![7, 7, 7]), Some(7));
    assert_eq!(trimmed_mean(&vec![1, 2, 100]), Some(2));
    assert_eq!(trimmed_mean(&vec![1, 2, 3, 10]), Some(3));
}

#[test]
fn trimmed_mean_of_one_or_two_takes_all() {
    assert_eq!(trimmed_mean(&vec![7]), Some(7));
    assert_eq!(trimmed_mean(&vec![1, 2]), Some(2));
    assert_eq!(trimmed_mean(&vec![-1, -2]), Some(-2));
    assert_eq!(trimmed_mean(&vec![4, 8]), Some(6));
    assert_eq!(trimmed_mean(&vec![i32::MAX, i32::MAX]), Some(i32::MAX));
    assert_eq!(trimmed_mean(&vec![i32::MIN, i32::MIN]), Some(i32::MIN));
    assert_eq!(trimmed_mean(&vec![i32::MIN, i32::MAX]), Some(-1));
}

#[test]
fn trimmed_mean_of_nothing_is_nothing() {
    assert_eq!(trimmed_mean(&Vec::new()), None);
}

#[test]
fn trimmed_mean_rounds_half_away_from_zero() {
    assert_eq!(trimmed_mean(&vec![0, 1, 2, 100]), Some(2));
    assert_eq!(trimmed_mean(&vec![-100, -2, -1, 0]), Some(-2));
    assert_eq!(trimmed_mean(&vec![0, 1, 1, 2, 100]), Some(1));
    assert_eq!(trimmed_mean(&vec![0, 1, 2, 2, 100]), Some(2));
    assert_eq!(trimmed_mean(&vec![-100, -2, -2, -1, 0]), Some(-2));
    assert_eq!(trimmed_mean(&vec![-100, -2, -1, -1, 0]), Some(-1));
}

#[test]
fn trimmed_mean_of_the_five_gauge_values() {
    assert_eq!(
        trimmed_mean(&vec![480_010, 479_990, 480_020, 480_000, 479_980]),
        Some(480_000)
    );
}

#[test]
fn correction_of_the_documented_example() {
    let tool = ToolData::new(1, 11, 480_000, 0, 10_000, true, Some(479_950));
    assert_eq!(tool.get_final_offset(), Some(50));
    assert_eq!(tool.get_final_offset_as_i32(), Some(50));
    assert_eq!(tool.final_offset, Some(50));
}

#[test]
fn correction_applies_manual_offset_and_rate() {
    let tool = ToolData::new(1, 11, 480_000, 30, 5_000, true, Some(480_100));
    // (480000 - 480100 + 30) * 0.5 = -35
    assert_eq!(tool.get_final_offset_as_i32(), Some(-35));
    let tool = ToolData::new(1, 11, 480_000, 0, 20_000, true, Some(479_990));
    assert_eq!(tool.get_final_offset_as_i32(), Some(20));
    let tool = ToolData::new(1, 11, 480_000, 0, 0, true, Some(479_990));
    assert_eq!(tool.get_final_offset_as_i32(), Some(0));
    let tool = ToolData::new(1, 11, 480_000, 0, -10_000, true, Some(479_990));
    assert_eq!(tool.get_final_offset_as_i32(), Some(-10));
}

#[test]
fn correction_rounds_half_away_from_zero() {
    let tool = ToolData::new(1, 11, 1, 0, 5_000, true, Some(0));
    assert_eq!(tool.get_final_offset_as_i32(), Some(1));
    let tool = ToolData::new(1, 11, -1, 0, 5_000, true, Some(0));
    assert_eq!(tool.get_final_offset_as_i32(), Some(-1));
    let tool = ToolData::new(1, 11, 1, 0, 4_999, true, Some(0));
    assert_eq!(tool.get_final_offset_as_i32(), Some(0));
    let tool = ToolData::new(1, 11, -1, 0, 4_999, true, Some(0));
    assert_eq!(tool.get_final_offset_as_i32(), Some(0));
    let tool = ToolData::new(1, 11, 3, 0, 5_000, true, Some(0));
    assert_eq!(tool.get_final_offset_as_i32(), Some(2));
}

#[test]
fn correction_needs_a_mean() {
    let tool = ToolData::new(1, 11, 480_000, 0, 10_000, true, None);
    assert_eq!(tool.get_final_offset(), None);
    assert_eq!(tool.get_final_offset_as_i32(), None);
    assert_eq!(tool.final_offset, None);
}

#[test]
fn correction_is_held_to_the_controller_range() {
    let tool = ToolData::new(1, 11, i32::MAX, i32::MAX, i32::MAX, true, Some(i32::MIN));
    let exact = (3i128 * i32::MAX as i128 + 1) * i32::MAX as i128;
    let rounded = ((2 * exact + 10_000) / 20_000) as i64;
    assert_eq!(tool.get_final_offset(), Some(rounded));
    assert_eq!(tool.get_final_offset_as_i32(), Some(i32::MAX));
    let tool = ToolData::new(1, 11, i32::MIN, i32::MIN, i32::MAX, true, Some(i32::MAX));
    assert_eq!(tool.get_final_offset_as_i32(), Some(i32::MIN));
}

#[test]
fn settings_change_only_what_is_given() {
    let mut tool = ToolData::new(1, 11, 480_000, 0, 10_000, false, Some(479_950));
    tool.apply_settings(None, Some(25), None, Some(true), None);
    assert_eq!(tool, ToolData::new(1, 11, 480_000, 25, 10_000, true, Some(479_950)));
    assert_eq!(tool.final_offset, Some(75));
    tool.apply_settings(Some(479_000), None, Some(20_000), None, Some(21));
    assert_eq!(tool, ToolData::new(1, 21, 479_000, 25, 20_000, true, Some(479_950)));
    assert_eq!(tool.final_offset, Some(-1850));
    let before = tool;
    tool.apply_settings(None, None, None, None, None);
    assert_eq!(tool, before);
}

#[test]
fn below_threshold_nothing_is_taken() {
    let table = dummy_table(&[1]);
    let mut tools = tools_for(&[1], 480_000);
    let sizes: HashMap<u16, usize> = HashMap::new();
    let mut batches = GaugeBatches::new();
    assert_eq!(batches.check_and_extract(1, &table, &mut tools, &sizes), Ok((None, None)));
    batches.insert(1, 480_010);
    assert_eq!(batches.check_and_extract(1, &table, &mut tools, &sizes), Ok((None, None)));
    assert_eq!(batches.pending(1), 1);
    batches.insert(1, 479_990);
    assert_eq!(batches.check_and_extract(1, &table, &mut tools, &sizes), Ok((None, None)));
    assert_eq!(batches.pending(1), 2);
    assert_eq!(tools[&1].0.avg_gauge, None);
    batches.insert(1, 1);
    batches.insert(1, 2);
    assert_eq!(batches.check_and_extract(1, &table, &mut tools, &sizes), Ok((None, None)));
    assert_eq!(batches.pending(1), DEFAULT_BATCH_SIZE - 1);
}

#[test]
fn a_full_batch_is_taken_whole() {
    let table = dummy_table(&[1]);
    let mut tools = tools_for(&[1], 480_050);
    let mut sizes: HashMap<u16, usize> = HashMap::new();
    sizes.insert(1, 3);
    let mut batches = GaugeBatches::new();
    for v in [480_000, 900_000, 480_020] {
        batches.insert(1, v);
    }
    let taken = batches.check_and_extract(1, &table, &mut tools, &sizes);
    assert_eq!(taken, Ok((Some((1, 11, 30)), None)));
    assert_eq!(batches.pending(1), 0);
    assert_eq!(tools[&1].0.avg_gauge, Some(480_020));
    assert_eq!(tools[&1].1.avg_gauge, Some(480_020));
    assert_eq!(tools[&1].0.final_offset, Some(30));
    assert_eq!(tools[&1].1.final_offset, Some(30));
}

#[test]
fn a_batch_is_taken_once() {
    let table = dummy_table(&[1]);
    let mut tools = tools_for(&[1], 480_050);
    let mut sizes: HashMap<u16, usize> = HashMap::new();
    sizes.insert(1, 2);
    let mut batches = GaugeBatches::new();
    batches.insert(1, 480_000);
    batches.insert(1, 480_000);
    assert_eq!(
        batches.check_and_extract(1, &table, &mut tools, &sizes),
        Ok((Some((1, 11, 50)), None))
    );
    let after = tools.clone();
    assert_eq!(batches.check_and_extract(1, &table, &mut tools, &sizes), Ok((None, None)));
    assert_eq!(batches.check_and_extract(1, &table, &mut tools, &sizes), Ok((None, None)));
    assert_eq!(tools, after);
    batches.insert(1, 480_040);
    assert_eq!(batches.check_and_extract(1, &table, &mut tools, &sizes), Ok((None, None)));
    batches.insert(1, 480_040);
    assert_eq!(
        batches.check_and_extract(1, &table, &mut tools, &sizes),
        Ok((Some((1, 11, 10)), None))
    );
}

#[test]
fn a_threshold_of_zero_still_needs_a_sample() {
    let table = dummy_table(&[1]);
    let mut tools = tools_for(&[1], 480_050);
    let mut sizes: HashMap<u16, usize> = HashMap::new();
    sizes.insert(1, 0);
    let mut batches = GaugeBatches::new();
    assert_eq!(batches.check_and_extract(1, &table, &mut tools, &sizes), Ok((None, None)));
    assert_eq!(tools[&1].0.avg_gauge, None);
    batches.insert(1, 480_000);
    assert_eq!(
        batches.check_and_extract(1, &table, &mut tools, &sizes),
        Ok((Some((1, 11, 50)), None))
    );
}

#[test]
fn a_busy_controller_holds_the_batch_back() {
    let mut table = dummy_table(&[1]);
    table.get_mut(&1).unwrap().set_busy(true);
    let mut tools = tools_for(&[1], 480_050);
    let mut sizes: HashMap<u16, usize> = HashMap::new();
    sizes.insert(1, 2);
    let mut batches = GaugeBatches::new();
    for v in [480_000, 480_010, 480_020] {
        batches.insert(1, v);
    }
    assert_eq!(batches.check_and_extract(1, &table, &mut tools, &sizes), Ok((None, None)));
    assert_eq!(batches.pending(1), 3);
    assert_eq!(tools[&1].0.avg_gauge, None);
    table.get_mut(&1).unwrap().set_busy(false);
    assert_eq!(
        batches.check_and_extract(1, &table, &mut tools, &sizes),
        Ok((Some((1, 11, 40)), None))
    );
}

#[test]
fn an_unreachable_controller_holds_the_batch_back() {
    let mut table = HashMap::new();
    let mut client = FocasClient::new("10.0.0.5", 8193, 0, 42).unwrap();
    client.wrtofs(11, 0, 5);
    client.write_returned(-16);
    assert!(!client.is_connected());
    table.insert(1u16, client);
    let mut tools = tools_for(&[1], 480_050);
    let mut sizes: HashMap<u16, usize> = HashMap::new();
    sizes.insert(1, 1);
    let mut batches = GaugeBatches::new();
    batches.insert(1, 480_000);
    assert_eq!(batches.check_and_extract(1, &table, &mut tools, &sizes), Ok((None, None)));
    assert_eq!(batches.pending(1), 1);
}

#[test]
fn a_machine_without_controller_loses_its_samples() {
    let table = dummy_table(&[1]);
    let mut tools = tools_for(&[1, 2], 480_050);
    let sizes: HashMap<u16, usize> = HashMap::new();
    let mut batches = GaugeBatches::new();
    batches.insert(2, 480_000);
    batches.insert(1, 480_000);
    assert_eq!(
        batches.check_and_extract(2, &table, &mut tools, &sizes),
        Err(BatchError::NoClient { machine_id: 2 })
    );
    assert_eq!(batches.pending(2), 0);
    assert_eq!(batches.pending(1), 1);
}

#[test]
fn a_machine_without_tools_loses_its_batch() {
    let table = dummy_table(&[1]);
    let mut tools = tools_for(&[2], 480_050);
    let mut sizes: HashMap<u16, usize> = HashMap::new();
    sizes.insert(1, 2);
    let mut batches = GaugeBatches::new();
    batches.insert(1, 480_000);
    assert_eq!(batches.check_and_extract(1, &table, &mut tools, &sizes), Ok((None, None)));
    assert_eq!(batches.pending(1), 1);
    batches.insert(1, 480_000);
    assert_eq!(
        batches.check_and_extract(1, &table, &mut tools, &sizes),
        Err(BatchError::NoToolData { machine_id: 1 })
    );
    assert_eq!(batches.pending(1), 0);
    assert_eq!(tools.len(), 1);
}

#[test]
fn both_tools_emit_when_both_are_active() {
    let table = dummy_table(&[1]);
    let mut tools = HashMap::new();
    tools.insert(
        1u16,
        (
            ToolData::new(1, 11, 480_000, 10, 10_000, true, None),
            ToolData::new(1, 12, 470_000, 0, 5_000, true, None),
        ),
    );
    let mut sizes: HashMap<u16, usize> = HashMap::new();
    sizes.insert(1, 1);
    let mut batches = GaugeBatches::new();
    batches.insert(1, 479_900);
    assert_eq!(
        batches.check_and_extract(1, &table, &mut tools, &sizes),
        Ok((Some((1, 11, 110)), Some((1, 12, -4950))))
    );
}

#[test]
fn extract_all_visits_every_machine_with_a_controller() {
    let table = dummy_table(&[1, 2, 3]);
    let mut tools = tools_for(&[1, 2, 3], 480_050);
    let mut sizes: HashMap<u16, usize> = HashMap::new();
    sizes.insert(1, 1);
    sizes.insert(2, 1);
    sizes.insert(3, 2);
    let mut batches = GaugeBatches::new();
    batches.insert(1, 480_000);
    batches.insert(2, 480_010);
    batches.insert(3, 480_020);
    batches.insert(9, 1);
    let (mut found, errors) = batches.extract_all(&table, &mut tools, &sizes);
    found.sort();
    assert_eq!(found, vec![(1, 11, 50), (2, 11, 40)]);
    assert_eq!(errors, Vec::new());
    assert_eq!(batches.pending(1), 0);
    assert_eq!(batches.pending(2), 0);
    assert_eq!(batches.pending(3), 1);
    assert_eq!(batches.pending(9), 1);
    assert_eq!(batches.extract_all(&table, &mut tools, &sizes), (Vec::new(), Vec::new()));
}

#[test]
fn extract_all_reports_a_machine_without_tools() {
    let table = dummy_table(&[1]);
    let mut tools = tools_for(&[2], 480_050);
    let mut sizes: HashMap<u16, usize> = HashMap::new();
    sizes.insert(1, 1);
    let mut batches = GaugeBatches::new();
    batches.insert(1, 480_000);
    assert_eq!(
        batches.extract_all(&table, &mut tools, &sizes),
        (Vec::new(), vec![BatchError::NoToolData { machine_id: 1 }])
    );
    assert_eq!(batches.pending(1), 0);
}

#[test]
fn a_failing_machine_costs_no_other_machine_its_batch() {
    // whatever the order in which the table hands out its machines
    for failing in [1u16, 2, 3, 4, 5, 6, 7, 8] {
        let ids: Vec<u16> = (1..=8).collect();
        let table = dummy_table(&ids);
        let good: Vec<u16> = ids.iter().cloned().filter(|id| *id != failing).collect();
        let mut tools = tools_for(&good, 480_050);
        let mut sizes: HashMap<u16, usize> = HashMap::new();
        let mut batches = GaugeBatches::new();
        for id in &ids {
            sizes.insert(*id, 1);
            batches.insert(*id, 480_000 + *id as i32);
        }
        let (mut found, errors) = batches.extract_all(&table, &mut tools, &sizes);
        found.sort();
        let expected: Vec<(u16, i16, i32)> =
            good.iter().map(|id| (*id, 11, 50 - *id as i32)).collect();
        assert_eq!(found, expected);
        assert_eq!(errors, vec![BatchError::NoToolData { machine_id: failing }]);
        for id in &ids {
            assert_eq!(batches.pending(*id), 0);
        }
        for id in &good {
            assert_eq!(tools[id].0.avg_gauge, Some(480_000 + *id as i32));
        }
        assert!(!tools.contains_key(&failing));
    }
}

#[test]
fn every_failing_machine_is_reported() {
    let table = dummy_table(&[1, 2, 3]);
    let mut tools = tools_for(&[2], 480_050);
    let mut sizes: HashMap<u16, usize> = HashMap::new();
    let mut batches = GaugeBatches::new();
    for id in [1u16, 2, 3] {
        sizes.insert(id, 1);
        batches.insert(id, 480_000);
    }
    let (found, mut errors) = batches.extract_all(&table, &mut tools, &sizes);
    errors.sort_by_key(|e| match e {
        BatchError::NoToolData { machine_id } => *machine_id,
        BatchError::NoClient { machine_id } => *machine_id,
    });
    assert_eq!(found, vec![(2, 11, 50)]);
    assert_eq!(
        errors,
        vec![
            BatchError::NoToolData { machine_id: 1 },
            BatchError::NoToolData { machine_id: 3 }
        ]
    );
}

fn response_for(line: u16, int_val: i16, frac: i16) -> GaugeResponse {
    GaugeResponse::from_bytes(dummy_frame(line, 2, int_val, frac)).unwrap()
}

#[test]
fn a_response_is_queued_and_a_full_batch_taken() {
    let table = dummy_table(&[1]);
    let mut tools = tools_for(&[1], 480_050);
    let mut sizes: HashMap<u16, usize> = HashMap::new();
    sizes.insert(1, 2);
    let mut batches = GaugeBatches::new();
    assert_eq!(
        batches.on_response(&response_for(1, 48, 0), &table, &mut tools, &sizes),
        (Vec::new(), Vec::new())
    );
    assert_eq!(batches.pending(1), 1);
    assert_eq!(
        batches.on_response(&response_for(1, 48, 20), &table, &mut tools, &sizes),
        (vec![(1, 11, 40)], Vec::new())
    );
    assert_eq!(batches.pending(1), 0);
}

#[test]
fn a_response_of_an_unknown_machine_is_discarded() {
    let table = dummy_table(&[1]);
    let mut tools = tools_for(&[1, 3], 480_050);
    let mut sizes: HashMap<u16, usize> = HashMap::new();
    sizes.insert(1, 1);
    sizes.insert(3, 1);
    let mut batches = GaugeBatches::new();
    batches.insert(1, 480_000);
    batches.insert(3, 7);
    let mut found = Vec::new();
    for _ in 0..3 {
        let (writes, errors) =
            batches.on_response(&response_for(3, 48, 0), &table, &mut tools, &sizes);
        assert_eq!(errors, vec![BatchError::NoClient { machine_id: 3 }]);
        // what waits for the unknown machine is as it was, and grows no more
        assert_eq!(batches.pending(3), 1);
        assert_eq!(tools[&3].0.avg_gauge, None);
        found.push(writes);
    }
    // the machine with a controller is served all the same, once
    assert_eq!(found, vec![vec![(1, 11, 50)], Vec::new(), Vec::new()]);
    assert_eq!(batches.pending(1), 0);
}

#[test]
fn a_response_reports_the_errors_beside_the_corrections() {
    let table = dummy_table(&[1, 2]);
    let mut tools = tools_for(&[1], 480_050);
    let mut sizes: HashMap<u16, usize> = HashMap::new();
    sizes.insert(1, 1);
    sizes.insert(2, 1);
    let mut batches = GaugeBatches::new();
    batches.insert(2, 480_000);
    assert_eq!(
        batches.on_response(&response_for(1, 48, 0), &table, &mut tools, &sizes),
        (vec![(1, 11, 50)], vec![BatchError::NoToolData { machine_id: 2 }])
    );
    // a response without a measurement queues nothing and discards nothing
    let mut frame = dummy_frame(0, 2, 48, 0);
    frame[11] = 9;
    let odd = GaugeResponse::from_bytes(frame).unwrap();
    assert_eq!(batches.on_response(&odd, &table, &mut tools, &sizes), (Vec::new(), Vec::new()));
}

#[test]
fn write_adds_the_correction_to_what_the_controller_holds() {
    let mut table = dummy_table(&[1]);
    assert_eq!(read_offset_of(&mut table, 1, 11), Ok(held(11, 0)));
    let (plan, step) = write_offset_to_cnc(&mut table, 1, 11, 0, 50).unwrap();
    assert_eq!(step, WriteStep::Done);
    assert_eq!(
        plan,
        PendingWrite { machine_id: 1, tool_num: 11, old_value: 0, change_amount: 50, new_value: 50 }
    );
    assert_eq!(read_offset_of(&mut table, 1, 11), Ok(held(11, 50)));
    let (plan, step) = write_offset_to_cnc(&mut table, 1, 11, 50, -80).unwrap();
    assert_eq!(step, WriteStep::Done);
    assert_eq!(plan.new_value, -30);
    assert_eq!(read_offset_of(&mut table, 1, 11), Ok(held(11, -30)));
    assert_eq!(read_offset_of(&mut table, 1, 12), Ok(held(12, 0)));
}

#[test]
fn write_for_an_unknown_machine_is_an_error() {
    let mut table = dummy_table(&[1]);
    assert_eq!(read_offset_of(&mut table, 4, 11), Err(BatchError::NoClient { machine_id: 4 }));
    assert_eq!(
        write_offset_to_cnc(&mut table, 4, 11, 0, 50),
        Err(BatchError::NoClient { machine_id: 4 })
    );
    assert_eq!(table.len(), 1);
}

#[test]
fn write_on_a_busy_controller_is_refused_and_recorded_as_failed() {
    let mut table = dummy_table(&[1]);
    table.get_mut(&1).unwrap().set_busy(true);
    assert_eq!(read_offset_of(&mut table, 1, 11), Ok(OffsetStep::Refused));
    let (plan, step) = write_offset_to_cnc(&mut table, 1, 11, 7, 3).unwrap();
    assert_eq!(step, WriteStep::Refused);
    assert!(table[&1].is_busy());
    let log = conclude_write_at(&plan, step, 1_000).unwrap();
    assert_eq!(
        log,
        OffsetLog {
            timestamp: 1_000,
            machine_id: 1,
            tool_num: 11,
            old_value: 7,
            change_amount: 3,
            new_value: 10,
            success: false,
        }
    );
    table.get_mut(&1).unwrap().set_busy(false);
    assert_eq!(read_offset_of(&mut table, 1, 11), Ok(held(11, 0)));
}

#[test]
fn a_write_in_flight_has_no_record_yet() {
    let plan = PendingWrite::plan(1, 11, 100, 5);
    for step in [
        WriteStep::CallWrite { handle: 4, number: 11, ofs_type: 0, data: 105 },
        WriteStep::Reconnect { release: 4 },
        WriteStep::RetryConnect,
    ] {
        assert_eq!(conclude_write_at(&plan, step, 5), None);
        assert_eq!(conclude_write(&plan, step), None);
    }
    assert_eq!(conclude_write_at(&plan, WriteStep::Done, 5), Some(plan.record_at(5, true)));
}

#[test]
fn records_made_now_carry_the_clock() {
    let plan = PendingWrite::plan(2, 12, -5, 5);
    let before = chrono::Utc::now().timestamp_micros();
    let log = plan.record(true);
    let concluded = conclude_write(&plan, WriteStep::Done).unwrap();
    let after = chrono::Utc::now().timestamp_micros();
    assert!(before <= log.timestamp && log.timestamp <= concluded.timestamp);
    assert!(concluded.timestamp <= after);
    assert!(log.timestamp > 1_600_000_000_000_000);
    assert_eq!(log, plan.record_at(log.timestamp, true));
    assert_eq!(concluded, plan.record_at(concluded.timestamp, true));
    assert_eq!(log.new_value, 0);
}

#[test]
fn watcher_records_a_change_made_at_the_controller() {
    let mut watcher = OffsetWatcher::new();
    assert_eq!(watcher.last_offset(1, 11), None);
    assert_eq!(watcher.observe_at(10, 1, 11, 500), None);
    assert_eq!(watcher.last_offset(1, 11), Some(500));
    assert_eq!(watcher.observe_at(20, 1, 11, 500), None);
    assert_eq!(
        watcher.observe_at(30, 1, 11, 450),
        Some(OffsetLog {
            timestamp: 30,
            machine_id: 1,
            tool_num: 11,
            old_value: 500,
            change_amount: -50,
            new_value: 450,
            success: true,
        })
    );
    assert_eq!(watcher.last_offset(1, 11), Some(450));
    assert_eq!(watcher.observe_at(40, 1, 11, 450), None);
}

#[test]
fn watcher_keeps_machines_and_tools_apart() {
    let mut watcher = OffsetWatcher::new();
    assert_eq!(watcher.observe_at(1, 1, 11, 5), None);
    assert_eq!(watcher.observe_at(1, 1, 12, 6), None);
    assert_eq!(watcher.observe_at(1, 2, 11, 7), None);
    assert_eq!(watcher.observe_at(1, 1, -11, 8), None);
    assert_eq!(watcher.observe_at(1, 0, i16::MIN, 9), None);
    assert_eq!(watcher.observe_at(1, u16::MAX, i16::MAX, 10), None);
    assert_eq!(watcher.last_offset(1, 11), Some(5));
    assert_eq!(watcher.last_offset(1, 12), Some(6));
    assert_eq!(watcher.last_offset(2, 11), Some(7));
    assert_eq!(watcher.last_offset(1, -11), Some(8));
    assert_eq!(watcher.last_offset(0, i16::MIN), Some(9));
    assert_eq!(watcher.last_offset(u16::MAX, i16::MAX), Some(10));
    assert_eq!(watcher.last_offset(0, 11), None);
    let log = watcher.observe(2, 11, 8).unwrap();
    assert_eq!((log.old_value, log.change_amount, log.new_value, log.success), (7, 1, 8, true));
    assert_eq!(watcher.observe(2, 11, 8), None);
}

#[test]
fn thresholds_have_the_documented_bounds() {
    assert_eq!(DEFAULT_BATCH_SIZE, 5);
    assert_eq!(MAX_BATCH_SIZE, 30);
}

#[test]
fn five_frames_give_one_write_per_active_tool() {
    let mut table = dummy_table(&[1]);
    let mut tools = tools_for(&[1], 480_050);
    let sizes: HashMap<u16, usize> = HashMap::new();
    let mut batches = GaugeBatches::new();
    let mut codec = McProtocolCodec;
    let mut router = MeasurementRouter::new();
    let mut inbound = BytesMut::new();
    let mut resets = 0;
    let mut logs: Vec<OffsetLog> = Vec::new();
    // 48.001, 47.999, 48.002, 48.000, 47.998, each on a rising edge
    for (int_val, frac) in [(48i16, 10i16), (47, 9990), (48, 20), (48, 0), (47, 9980)] {
        inbound.extend_from_slice(&dummy_frame(1, 2, int_val, frac));
        inbound.extend_from_slice(&dummy_frame(1, 0, int_val, frac));
        for _ in 0..2 {
            let response = codec.decode(&mut inbound).unwrap();
            if router.observe(&response).is_none() {
                continue;
            }
            resets += 1;
            let (writes, errors) = batches.on_response(&response, &table, &mut tools, &sizes);
            assert!(errors.is_empty());
            for (machine_id, tool_num, offset) in writes {
                let current = match read_offset_of(&mut table, machine_id, tool_num).unwrap() {
                    OffsetStep::Value { tofs } => tofs.data,
                    other => panic!("the simulated controller answers at once: {:?}", other),
                };
                let (plan, step) =
                    write_offset_to_cnc(&mut table, machine_id, tool_num, current, offset).unwrap();
                logs.push(conclude_write(&plan, step).unwrap());
            }
        }
    }
    assert!(inbound.is_empty());
    assert_eq!(resets, 5);
    assert_eq!(logs.len(), 1);
    let log = logs[0];
    assert_eq!(
        (log.machine_id, log.tool_num, log.old_value, log.change_amount, log.new_value, log.success),
        (1, 11, 0, 50, 50, true)
    );
    assert_eq!(tools[&1].0.avg_gauge, Some(480_000));
    assert_eq!(tools[&1].1.avg_gauge, Some(480_000));
    assert_eq!(read_offset_of(&mut table, 1, 11), Ok(held(11, 50)));
    assert_eq!(read_offset_of(&mut table, 1, 12), Ok(held(12, 0)));
    assert_eq!(batches.pending(1), 0);
    assert_eq!(batches.extract_all(&table, &mut tools, &sizes), (Vec::new(), Vec::new()));
}
