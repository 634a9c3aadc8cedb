//! Verified core logic of the Oro Link board: the host/board wire protocol,
//! the register-level drivers of the board's chips, and the decisions of its
//! services.

pub mod blinken;
pub mod cbor;
pub mod config;
pub mod identity;
pub mod leds;
pub mod main_service;
pub mod message_ids;
pub mod mqtt;
pub mod oled;
pub mod power;
pub mod power_monitor;
pub mod protocol;
pub mod repl;
pub mod rpcap;
pub mod sdcard;
pub mod services;
pub mod stats;
pub mod stream;
pub mod text;
pub mod uart;
pub mod vars;
pub mod wasm;
