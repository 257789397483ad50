//! Decision logic of a payment-backend load emulator: how amounts are sampled,
//! which background workers may run for an entity, and what each worker does on
//! its next tick. The library is sequential and makes no network call and
//! touches no file: a caller runs the timers and the calls and hands their
//! outcomes back in. What the library takes from outside is the clock, the
//! random generator and fresh identifiers.

pub mod amount_range_map;
pub mod chance;
pub mod config;
pub mod device;
pub mod device_notification_service;
pub mod device_store;
pub mod identity;
pub mod keyed;
pub mod log_capture;
pub mod menu;
pub mod merchant;
pub mod merchant_service;
pub mod models;
pub mod money;
pub mod notifications;
pub mod ping_service;
pub mod polling;
pub mod sampler;
pub mod statistics;
pub mod storage;
pub mod text;
pub mod traffic;
pub mod transaction;
pub mod websocket;
