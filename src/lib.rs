pub mod text;
pub mod log_entries;
pub mod log_widget;
pub mod process;
pub mod open_ocd_task;
pub mod operator_tool;
pub mod stackfile_config;
pub mod hex_merge;
pub mod serial_line;
pub mod serial_ports;
pub mod disk_tool;
pub mod messages;
pub mod tab_daplink;
pub mod tab_wireless_stack;
