pub mod auto_fsm;
pub mod binary32;
pub mod clock;
pub mod config;
pub mod control_loop;
pub mod controller;
pub mod cycle_laws;
pub mod dosing_laws;
pub mod laws;
pub mod link;
mod magnitude;
pub mod mqtt;
pub mod pin_run;
pub mod pump;
pub mod round_laws;
pub mod rounding;
pub mod text;
