//! The rack firmware commands of the administration tool: what each command
//! asks for, and what it reports.

pub mod args;
pub mod cmds;
