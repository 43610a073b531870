//! Bridge from a stream of NEAR blockchain events to PagerDuty alerts:
//! subscription matching, alert formatting, request construction and the
//! reconnect state machine of the stream workers.

pub mod config;
pub mod decode;
pub mod dispatch;
pub mod event;
pub mod filter;
pub mod format;
pub mod json;
pub mod matcher;
pub mod monitor;
pub mod subscription;
pub mod template;
pub mod text;
pub mod worker;

pub use crate::config::{contract_events_config, house_of_stake_config, transaction_monitor_config};
pub use crate::dispatch::PagerDutyClient;
pub use crate::monitor::NearPagerDutyMonitor;
pub use crate::subscription::{
    default_reconnect_delay, default_severity, EventSubscription, PagerDutyAlertConfig,
};
