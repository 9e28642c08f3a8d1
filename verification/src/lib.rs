//! Verified core of a small UPS (Network UPS Tools) monitor: parsing of
//! `upsc` listings, alert threshold decisions, dashboard view building and the
//! small decisions of the HTTP API.

pub mod text;
pub mod metrics;
pub mod alerts;
pub mod dashboard;
pub mod web;
pub mod fcm;
pub mod config;
