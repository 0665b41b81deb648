//! A form runtime for editable device settings: fields that reconcile the
//! confirmed value with the user's edits, rules that validate them, and the
//! two Wi-Fi configuration forms built from them.

pub mod raw;
pub mod field;
pub mod text;
pub mod ipv4;
pub mod auth;
pub mod rules;
pub mod config;
pub mod layout;
pub mod ap_form;
pub mod sta_form;
pub mod wifi;
