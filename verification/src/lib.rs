//! Gauge-driven tool-offset correction: decoding of gauge frames, batching of
//! measurements into trimmed means, and coordination of offset writes to
//! machine controllers.
use vstd::prelude::*;
use std::collections::HashMap;
use crate::clock::now_micros;
use crate::cnc::{ToolData, MAX_BATCH_SIZE};
use crate::config::GaugeConfig;
use crate::fwlib::FocasClient;
use crate::hexstr::{decode_hex, hex_decoded, HexError};

pub mod clock;
pub mod cnc;
pub mod config;
pub mod fwlib;
pub mod gauge;
pub mod hexstr;
pub mod io;
pub mod wire;

verus! {

/// The pre-encoded command frames that are sent to the gauge.
#[derive(Debug, Clone)]
pub struct HexCommands {
    /// Frame that asks the gauge for its status and measurement words.
    pub read_req_hex: Vec<u8>,
    /// Frame that clears the reset request on the gauge.
    pub write_req_hex_0: Vec<u8>,
    /// Frame that asserts the reset request on the gauge.
    pub write_req_hex_1: Vec<u8>,
}

broadcast use vstd::std_specs::hash::group_hash_axioms;

/// The bytes of a text.
pub open spec fn text_bytes(text: Seq<char>) -> Seq<u8> {
    vstd::utf8::encode_utf8(text)
}

/// The three command frames that a gauge configuration stands for: the read
/// request, the reset release and the reset request. The first text that is
/// no hexadecimal text is the error.
pub open spec fn decoded_commands(gauge: GaugeConfig) -> Result<
    (Seq<u8>, Seq<u8>, Seq<u8>),
    HexError,
> {
    match hex_decoded(text_bytes(gauge.read_req_hex@)) {
        Err(e) => Err(e),
        Ok(read) => match hex_decoded(text_bytes(gauge.write_req_hex_0@)) {
            Err(e) => Err(e),
            Ok(release) => match hex_decoded(text_bytes(gauge.write_req_hex@)) {
                Err(e) => Err(e),
                Ok(request) => Ok((read, release, request)),
            },
        },
    }
}

impl HexCommands {
    /// Decodes the command frames of a gauge configuration.
    pub fn decode(gauge: &GaugeConfig) -> (r: Result<HexCommands, HexError>)
        ensures
            match r {
                Ok(cmds) => decoded_commands(*gauge) == Ok::<(Seq<u8>, Seq<u8>, Seq<u8>), HexError>(
                    (cmds.read_req_hex@, cmds.write_req_hex_0@, cmds.write_req_hex_1@),
                ),
                Err(e) => decoded_commands(*gauge) == Err::<(Seq<u8>, Seq<u8>, Seq<u8>), HexError>(
                    e,
                ),
            },
    {
        let read_req_hex = match decode_hex(gauge.read_req_hex.as_str().as_bytes()) {
            Ok(bytes) => bytes,
            Err(e) => {
                return Err(e);
            },
        };
        let write_req_hex_0 = match decode_hex(gauge.write_req_hex_0.as_str().as_bytes()) {
            Ok(bytes) => bytes,
            Err(e) => {
                return Err(e);
            },
        };
        let write_req_hex_1 = match decode_hex(gauge.write_req_hex.as_str().as_bytes()) {
            Ok(bytes) => bytes,
            Err(e) => {
                return Err(e);
            },
        };
        Ok(HexCommands { read_req_hex, write_req_hex_0, write_req_hex_1 })
    }
}

/// What the running system shares: the controller sessions, the tools and
/// the batch thresholds of all machines, and the settings of the operator's
/// surface.
pub struct AppState {
    pub handle_table: HashMap<u16, FocasClient>,
    pub tool_data: HashMap<u16, (ToolData, ToolData)>,
    pub batch_size: HashMap<u16, usize>,
    pub password: String,
    pub log_path: String,
    pub font_size: u32,
}

/// One change of a tool offset, attempted or seen.
#[derive(Debug, Clone, Copy, PartialEq, Eq, Structural)]
pub struct OffsetLog {
    /// When the record was made, in microseconds since the Unix epoch.
    pub timestamp: i64,
    pub machine_id: u16,
    pub tool_num: i16,
    pub old_value: i32,
    pub change_amount: i32,
    pub new_value: i32,
    pub success: bool,
}

/// A write of a tool offset that has been planned from the offset that the
/// controller holds.
#[derive(Debug, Clone, Copy, PartialEq, Eq, Structural)]
pub struct PendingWrite {
    pub machine_id: u16,
    pub tool_num: i16,
    pub old_value: i32,
    pub change_amount: i32,
    pub new_value: i32,
}

impl PendingWrite {
    /// Plans the write of a correction: the new offset is the one that the
    /// controller holds now plus the correction, so that what an operator
    /// has changed by hand in between is kept.
    pub fn plan(machine_id: u16, tool_num: i16, current: i32, offset_diff: i32) -> (plan: Self)
        requires
            i32::MIN <= current + offset_diff <= i32::MAX,
        ensures
            plan == (PendingWrite {
                machine_id,
                tool_num,
                old_value: current,
                change_amount: offset_diff,
                new_value: (current + offset_diff) as i32,
            }),
    {
        PendingWrite {
            machine_id,
            tool_num,
            old_value: current,
            change_amount: offset_diff,
            new_value: current + offset_diff,
        }
    }

    /// The record of the write as it ended, made at `timestamp`.
    pub fn record_at(&self, timestamp: i64, success: bool) -> (log: OffsetLog)
        ensures
            log == (OffsetLog {
                timestamp,
                machine_id: self.machine_id,
                tool_num: self.tool_num,
                old_value: self.old_value,
                change_amount: self.change_amount,
                new_value: self.new_value,
                success,
            }),
    {
        OffsetLog {
            timestamp,
            machine_id: self.machine_id,
            tool_num: self.tool_num,
            old_value: self.old_value,
            change_amount: self.change_amount,
            new_value: self.new_value,
            success,
        }
    }

    /// The record of the write as it ended, made now. Whatever the clock
    /// says, the record is the one of `record_at` for that time.
    pub fn record(&self, success: bool) -> (log: OffsetLog)
        ensures
            log == (OffsetLog {
                timestamp: log.timestamp,
                machine_id: self.machine_id,
                tool_num: self.tool_num,
                old_value: self.old_value,
                change_amount: self.change_amount,
                new_value: self.new_value,
                success,
            }),
    {
        self.record_at(now_micros(), success)
    }
}

/// Why a setting was not changed.
#[derive(Debug, Clone, Copy, PartialEq, Eq, Structural)]
pub enum SettingsError {
    /// No tools are configured for the machine.
    MachineNotFound,
    /// The batch threshold is above `MAX_BATCH_SIZE`.
    BatchSizeTooLarge,
}

/// What the operator's surface shows of one tool.
#[derive(Debug, Clone, Copy, PartialEq, Eq, Structural)]
pub struct ToolUiState {
    pub data: ToolData,
    /// The offset that the controller holds, 0 if it could not be read.
    pub current_offset: i32,
    /// The offset before the last recorded change, 0 if none is recorded.
    pub previous_offset: i32,
    /// The tool's life, -1 if it could not be read.
    pub life: i16,
    /// The tool's count, -1 if it could not be read.
    pub count: i16,
}

/// What the operator's surface shows of one machine.
#[derive(Debug, Clone, Copy, PartialEq, Eq, Structural)]
pub struct MachineUiState {
    pub machine_id: u16,
    pub upper_tool: ToolUiState,
    pub lower_tool: ToolUiState,
    pub batch_size: usize,
}

impl ToolUiState {
    /// What is shown of a tool, from what could be read of it. `latest` is
    /// the last recorded change of the tool's offset.
    pub fn assemble(
        data: ToolData,
        current_offset: Option<i32>,
        latest: Option<OffsetLog>,
        life: Option<i16>,
        count: Option<i16>,
    ) -> (ui: Self)
        ensures
            ui == (ToolUiState {
                data,
                current_offset: current_offset.unwrap_or(0),
                previous_offset: match latest {
                    Some(log) => log.old_value,
                    None => 0,
                },
                life: life.unwrap_or(-1i16),
                count: count.unwrap_or(-1i16),
            }),
    {
        ToolUiState {
            data,
            current_offset: match current_offset {
                Some(v) => v,
                None => 0,
            },
            previous_offset: match latest {
                Some(log) => log.old_value,
                None => 0,
            },
            life: match life {
                Some(v) => v,
                None => -1,
            },
            count: match count {
                Some(v) => v,
                None => -1,
            },
        }
    }
}

/// Whether `input` is the operator's password.
pub fn verify_password(input: &String, state: &AppState) -> (ok: bool)
    ensures
        ok == (input@ == state.password@),
{
    *input == state.password
}

/// The font size of the operator's surface.
pub fn get_font_size(state: &AppState) -> (size: u32)
    ensures
        size == state.font_size,
{
    state.font_size
}

/// Sets the batch threshold of a machine. A threshold above
/// `MAX_BATCH_SIZE` is refused, and nothing changes.
pub fn update_batch_size(machine_id: u16, new_size: usize, state: &mut AppState) -> (r: Result<
    (),
    SettingsError,
>)
    ensures
        new_size > MAX_BATCH_SIZE ==> r == Err::<(), SettingsError>(
            SettingsError::BatchSizeTooLarge,
        ) && final(state).batch_size@ == old(state).batch_size@,
        new_size <= MAX_BATCH_SIZE ==> r == Ok::<(), SettingsError>(()) && final(state).batch_size@ == old(state).batch_size@.insert(machine_id, new_size),
        final(state).tool_data@ == old(state).tool_data@,
        final(state).handle_table@ == old(state).handle_table@,
        final(state).password == old(state).password,
        final(state).log_path == old(state).log_path,
        final(state).font_size == old(state).font_size,
{
    if new_size > MAX_BATCH_SIZE {
        return Err(SettingsError::BatchSizeTooLarge);
    }
    state.batch_size.insert(machine_id, new_size);
    Ok(())
}

/// Changes settings of the upper or the lower tool of a machine: each
/// setting that is given is set, each of the others stays, and the tool's
/// correction is derived anew. For a machine without tools nothing changes.
pub fn update_tool_settings(
    machine_id: u16,
    is_upper: bool,
    basic_size: Option<i32>,
    manual_offset: Option<i32>,
    offset_rate: Option<i32>,
    active: Option<bool>,
    tool_num: Option<i16>,
    state: &mut AppState,
) -> (r: Result<(), SettingsError>)
    ensures
        !old(state).tool_data@.contains_key(machine_id) ==> r == Err::<(), SettingsError>(
            SettingsError::MachineNotFound,
        ) && final(state).tool_data@ == old(state).tool_data@,
        old(state).tool_data@.contains_key(machine_id) ==> r == Ok::<(), SettingsError>(())
            && final(state).tool_data@ == old(state).tool_data@.insert(
            machine_id,
            if is_upper {
                (
                    old(state).tool_data@[machine_id].0.with_settings(
                        basic_size,
                        manual_offset,
                        offset_rate,
                        active,
                        tool_num,
                    ),
                    old(state).tool_data@[machine_id].1,
                )
            } else {
                (
                    old(state).tool_data@[machine_id].0,
                    old(state).tool_data@[machine_id].1.with_settings(
                        basic_size,
                        manual_offset,
                        offset_rate,
                        active,
                        tool_num,
                    ),
                )
            },
        ),
        final(state).batch_size@ == old(state).batch_size@,
        final(state).handle_table@ == old(state).handle_table@,
        final(state).password == old(state).password,
        final(state).log_path == old(state).log_path,
        final(state).font_size == old(state).font_size,
{
    match state.tool_data.remove(&machine_id) {
        Some((upper, lower)) => {
            let mut upper = upper;
            let mut lower = lower;
            if is_upper {
                upper.apply_settings(basic_size, manual_offset, offset_rate, active, tool_num);
            } else {
                lower.apply_settings(basic_size, manual_offset, offset_rate, active, tool_num);
            }
            state.tool_data.insert(machine_id, (upper, lower));
            Ok(())
        },
        None => Err(SettingsError::MachineNotFound),
    }
}

/// Marks every tool of every machine inactive, as is done when the
/// operator's surface closes: no correction is written until a tool is
/// made active again.
pub fn deactivate_all(state: &mut AppState)
    ensures
        final(state).tool_data@.dom() == old(state).tool_data@.dom(),
        forall|k: u16| #[trigger]
            final(state).tool_data@.contains_key(k) ==> final(state).tool_data@[k] == (
                ToolData { active: false, ..old(state).tool_data@[k].0 },
                ToolData { active: false, ..old(state).tool_data@[k].1 },
            ),
        final(state).batch_size@ == old(state).batch_size@,
        final(state).handle_table@ == old(state).handle_table@,
        final(state).password == old(state).password,
        final(state).log_path == old(state).log_path,
        final(state).font_size == old(state).font_size,
{
    let keys: Vec<u16> = crate::cnc::machine_ids(&state.tool_data);
    let mut i: usize = 0;
    while i < keys.len()
        invariant
            i <= keys@.len(),
            crate::cnc::is_walk(keys@, old(state).tool_data@),
            state.tool_data@.dom() == old(state).tool_data@.dom(),
            forall|j: int|
                0 <= j < i ==> (#[trigger] state.tool_data@[keys@[j]]) == (
                    ToolData { active: false, ..old(state).tool_data@[keys@[j]].0 },
                    ToolData { active: false, ..old(state).tool_data@[keys@[j]].1 },
                ),
            forall|j: int|
                i <= j < keys@.len() ==> (#[trigger] state.tool_data@[keys@[j]]) == old(state).tool_data@[keys@[j]],
            state.batch_size@ == old(state).batch_size@,
            state.handle_table@ == old(state).handle_table@,
            state.password == old(state).password,
            state.log_path == old(state).log_path,
            state.font_size == old(state).font_size,
        decreases keys@.len() - i,
    {
        let key: u16 = keys[i];
        match state.tool_data.remove(&key) {
            Some((upper, lower)) => {
                let mut upper = upper;
                let mut lower = lower;
                upper.active = false;
                lower.active = false;
                state.tool_data.insert(key, (upper, lower));
            },
            None => {},
        }
        i = i + 1;
    }
    assert forall|k: u16| #[trigger] state.tool_data@.contains_key(k) implies state.tool_data@[k]
        == (
        ToolData { active: false, ..old(state).tool_data@[k].0 },
        ToolData { active: false, ..old(state).tool_data@[k].1 },
    ) by {
        assert(keys@.to_set().contains(k));
        let j: int = choose|j: int| 0 <= j < keys@.len() && keys@[j] == k;
        assert(state.tool_data@[keys@[j]] == (
            ToolData { active: false, ..old(state).tool_data@[keys@[j]].0 },
            ToolData { active: false, ..old(state).tool_data@[keys@[j]].1 },
        ));
    }
}

} // verus!
