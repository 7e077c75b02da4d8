//! The core of a payment router: payouts, the payment methods they and payments
//! go through, the links at which customers hand these in, and the connector
//! to Thunes.
//!
//! Nothing here performs input or output. A flow that needs some says what it
//! asks for, and is resumed with the reply; what it does in each state on each
//! reply is stated and proved, and so is what holds of all its runs.

pub mod collect_link;
pub mod collect_link_page;
pub mod collect_link_page_laws;
pub mod customers;
pub mod date_time;
pub mod decimal;
pub mod enums;
pub mod errors;
pub mod gsm;
pub mod ids;
pub mod locker;
pub mod outside;
pub mod payment_link;
pub mod payment_method_data;
pub mod payment_method_entry;
pub mod payment_method_intents;
pub mod payment_method_intents_laws;
pub mod payment_method_retrieval;
pub mod payment_method_types;
pub mod payment_method_v2;
pub mod payment_tokens;
pub mod payout_method;
pub mod payout_method_laws;
pub mod payout_routing;
pub mod payout_routing_laws;
pub mod payout_status;
pub mod payout_types;
pub mod save_payout;
pub mod save_payout_contents;
pub mod save_payout_laws;
pub mod status_task;
pub mod text;
pub mod thunes;
pub mod thunes_laws;
pub mod update_payout;
pub mod vault;
