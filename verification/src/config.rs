//! The configuration that the core starts from: the gauge connection, the
//! machines, their tools and batch thresholds.
use vstd::prelude::*;
use std::collections::HashMap;
use crate::cnc::{ToolData, DEFAULT_BATCH_SIZE, OFFSET_SCALE};
use crate::AppState;

verus! {

broadcast use vstd::std_specs::hash::group_hash_axioms;

#[derive(Debug, Clone)]
pub struct AppConfig {
    pub gauge: GaugeConfig,
    pub machines: Vec<MachineConfig>,
    pub mapping: MappingConfig,
    pub admin: AdminConfig,
    pub log_path: String,
    pub ui: UiConfig,
}

#[derive(Debug, Clone)]
pub struct UiConfig {
    pub font_size: u32,
}

/// Where the gauge is, and the command frames for it as hexadecimal text.
#[derive(Debug, Clone)]
pub struct GaugeConfig {
    pub ip: String,
    pub port: u16,
    pub read_req_hex: String,
    /// The frame that clears the reset request.
    pub write_req_hex_0: String,
    /// The frame that raises the reset request.
    pub write_req_hex: String,
}

#[derive(Debug, Clone)]
pub struct MachineConfig {
    /// The number under which the gauge reports the machine.
    pub id: u8,
    pub name: String,
    /// The address of the machine's controller.
    pub ip: String,
    pub port: i16,
}

/// The upper and the lower tool of each machine, and each machine's batch
/// threshold.
#[derive(Debug, Clone)]
pub struct MappingConfig {
    pub tool_data: HashMap<u16, (ToolData, ToolData)>,
    pub batch_size: HashMap<u16, usize>,
}

#[derive(Debug, Clone)]
pub struct AdminConfig {
    pub password: String,
}

/// A tool as the default configuration has it: a size of 48, no manual
/// offset, the rate one, inactive, and nothing measured yet.
pub open spec fn default_tool(machine_id: u16, tool_num: i16) -> ToolData {
    ToolData {
        machine_id,
        tool_num,
        basic_size: 480000,
        manual_offset: 0,
        offset_rate: OFFSET_SCALE,
        active: false,
        avg_gauge: None,
        final_offset: None,
    }
}

/// A machine as the default configuration has it: a simulated controller.
pub open spec fn is_default_machine(machine: MachineConfig, id: u8, name: Seq<char>) -> bool {
    &&& machine.id == id
    &&& machine.name@ == name
    &&& machine.ip@ == "dummy"@
    &&& machine.port == 8193
}

/// Whether a configuration is the default one: the simulated gauge on this
/// host, three machines with simulated controllers, two inactive tools and
/// the default threshold for each.
pub open spec fn is_default_config(cfg: AppConfig) -> bool {
    &&& cfg.gauge.ip@ == "127.0.0.1"@
    &&& cfg.gauge.port == 5002
    &&& cfg.gauge.read_req_hex@ == "500000FFFF03000C00100001040000701700A81600"@
    &&& cfg.gauge.write_req_hex_0@ == "500000FFFF03000E00200001140000D41700A801000000"@
    &&& cfg.gauge.write_req_hex@ == "500000FFFF03000E00200001140000D41700A801000100"@
    &&& cfg.machines@.len() == 3
    &&& is_default_machine(cfg.machines@[0], 0, "Lathe #1 (OP-10)"@)
    &&& is_default_machine(cfg.machines@[1], 1, "Lathe #1 (OP-10)"@)
    &&& is_default_machine(cfg.machines@[2], 2, "Lathe #2 (OP-20)"@)
    &&& cfg.mapping.tool_data@ == map![
        0u16 => (default_tool(0, 11), default_tool(0, 12)),
        1u16 => (default_tool(1, 11), default_tool(1, 12)),
        2u16 => (default_tool(2, 11), default_tool(2, 12)),
    ]
    &&& cfg.mapping.batch_size@ == map![
        0u16 => DEFAULT_BATCH_SIZE,
        1u16 => DEFAULT_BATCH_SIZE,
        2u16 => DEFAULT_BATCH_SIZE,
    ]
    &&& cfg.admin.password@ == "admin123"@
    &&& cfg.log_path@ == "logs/log.db"@
    &&& cfg.ui.font_size == 16
}

fn default_tools(machine_id: u16) -> (tools: (ToolData, ToolData))
    ensures
        tools == (default_tool(machine_id, 11), default_tool(machine_id, 12)),
{
    (
        ToolData {
            machine_id,
            tool_num: 11,
            basic_size: 48 * OFFSET_SCALE,
            manual_offset: 0,
            offset_rate: OFFSET_SCALE,
            active: false,
            avg_gauge: None,
            final_offset: None,
        },
        ToolData {
            machine_id,
            tool_num: 12,
            basic_size: 48 * OFFSET_SCALE,
            manual_offset: 0,
            offset_rate: OFFSET_SCALE,
            active: false,
            avg_gauge: None,
            final_offset: None,
        },
    )
}

fn default_machine(id: u8, name: &str) -> (machine: MachineConfig)
    ensures
        is_default_machine(machine, id, name@),
{
    MachineConfig { id, name: name.to_owned(), ip: "dummy".to_owned(), port: 8193 }
}

impl Default for AppConfig {
    fn default() -> (cfg: Self)
        ensures
            is_default_config(cfg),
    {
        let mut tool_data: HashMap<u16, (ToolData, ToolData)> = HashMap::new();
        tool_data.insert(0, default_tools(0));
        tool_data.insert(1, default_tools(1));
        tool_data.insert(2, default_tools(2));
        let mut batch_size: HashMap<u16, usize> = HashMap::new();
        batch_size.insert(0, DEFAULT_BATCH_SIZE);
        batch_size.insert(1, DEFAULT_BATCH_SIZE);
        batch_size.insert(2, DEFAULT_BATCH_SIZE);
        let mut machines: Vec<MachineConfig> = Vec::new();
        machines.push(default_machine(0, "Lathe #1 (OP-10)"));
        machines.push(default_machine(1, "Lathe #1 (OP-10)"));
        machines.push(default_machine(2, "Lathe #2 (OP-20)"));
        proof {
            assert(tool_data@ =~= map![
                0u16 => (default_tool(0, 11), default_tool(0, 12)),
                1u16 => (default_tool(1, 11), default_tool(1, 12)),
                2u16 => (default_tool(2, 11), default_tool(2, 12)),
            ]);
            assert(batch_size@ =~= map![
                0u16 => DEFAULT_BATCH_SIZE,
                1u16 => DEFAULT_BATCH_SIZE,
                2u16 => DEFAULT_BATCH_SIZE,
            ]);
        }
        AppConfig {
            gauge: GaugeConfig {
                ip: "127.0.0.1".to_owned(),
                port: 5002,
                read_req_hex: "500000FFFF03000C00100001040000701700A81600".to_owned(),
                write_req_hex_0: "500000FFFF03000E00200001140000D41700A801000000".to_owned(),
                write_req_hex: "500000FFFF03000E00200001140000D41700A801000100".to_owned(),
            },
            machines,
            mapping: MappingConfig { tool_data, batch_size },
            admin: AdminConfig { password: "admin123".to_owned() },
            log_path: "logs/log.db".to_owned(),
            ui: UiConfig { font_size: 16 },
        }
    }
}

impl AppConfig {
    /// Takes the tools and the batch thresholds over from the running
    /// state. Nothing else of the configuration changes.
    pub fn update_from_state(&mut self, state: &AppState)
        ensures
            final(self).mapping.tool_data@ == state.tool_data@,
            final(self).mapping.batch_size@ == state.batch_size@,
            final(self).gauge == old(self).gauge,
            final(self).machines == old(self).machines,
            final(self).admin == old(self).admin,
            final(self).log_path == old(self).log_path,
            final(self).ui == old(self).ui,
    {
        self.mapping.tool_data = state.tool_data.clone();
        self.mapping.batch_size = state.batch_size.clone();
    }
}

} // verus!
