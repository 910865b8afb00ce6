//! Verified argument handling, report formatting and decision logic of the
//! EmuWiz command-line front end.
use vstd::prelude::*;

pub mod text;
pub mod number;
pub mod args;
pub mod cli;
pub mod format;
pub mod dat;
pub mod dat_audit;
pub mod repair;
pub mod repair_report;
pub mod repair_history;
pub mod bsfree;
pub mod cheatbase;
pub mod cheat_reconcile;
pub mod mame_evidence;
pub mod mame_normalise;
pub mod media_set;
pub mod library;
pub mod library_status;
pub mod platform_audit;
pub mod doctor;
pub mod sources;
pub mod database_check;
pub mod cheat_install;
pub mod game_identity;
pub mod provider_coverage;
pub mod catalogue_reports;
pub mod audit_tally;
pub mod advisory;
pub mod cheat_catalogue;
pub mod retroarch;
pub mod retroarch_advisory;
pub mod library_views;
pub mod index_reports;
pub mod config_check;
pub mod requests;
pub mod gamehacking_reports;

verus! {

} // verus!
