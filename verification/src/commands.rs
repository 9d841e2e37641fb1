//! The operations offered to the user interface. Each hands on to the
//! component that does the work; failures leave as text.

use vstd::prelude::*;
use crate::error::LauncherError;
use crate::hardware::{hardware_info, logical_core_count, physical_core_count, HardwareInfo};
use crate::settings::{NodeSettings, NodeSettingsView};
use crate::store::load_ended;
use crate::supervisor::{NodeStatus, NodeSupervisor};

verus! {

/// The record that is in force when `loaded` is what a load ended with: the
/// stored record, or the record of a fresh installation when there is none.
pub open spec fn settings_in_force(loaded: Option<NodeSettingsView>) -> NodeSettingsView {
    match loaded {
        Some(stored) => stored,
        None => NodeSettingsView::initial(),
    }
}

/// The supervisor's current status.
pub fn get_node_status(node: &NodeSupervisor) -> (status: NodeStatus)
    ensures
        status == NodeStatus::of(node@),
{
    node.status()
}

/// The settings in force. `loaded` is what a load ended with; a missing,
/// unreadable or malformed file is no failure and gives the record of a
/// fresh installation.
pub fn get_settings(loaded: Option<NodeSettings>) -> (settings: NodeSettings)
    ensures
        settings@ == settings_in_force(loaded.deep_view()),
{
    match loaded {
        Some(stored) => stored,
        None => NodeSettings::default(),
    }
}

/// The hardware snapshot of this machine. It never fails; the processor
/// counts are whatever the machine reports.
pub fn get_hardware_info() -> (reply: Result<HardwareInfo, String>)
    ensures
        reply is Ok,
        reply->Ok_0.counts_only(),
{
    let physical_cores: usize = physical_core_count();
    let logical_cores: usize = logical_core_count();
    Ok(hardware_info(physical_cores, logical_cores))
}

/// Whatever goes wrong in a load, the settings in force are exactly those of
/// a fresh installation: when the configuration directory is unknown, when
/// the file is missing or unreadable (`read` is `None`), and when its text
/// is malformed (`decoded` is `None`). Otherwise they are the decoded
/// record.
pub proof fn lemma_failed_load_gives_initial_settings(
    config_dir: Option<Seq<char>>,
    read: Option<Seq<char>>,
    decoded: Option<NodeSettingsView>,
)
    ensures
        load_ended(config_dir, read, decoded) is Done,
        settings_in_force(load_ended(config_dir, read, decoded)->Done_0) == if config_dir is Some
            && read is Some && decoded is Some {
            decoded->Some_0
        } else {
            NodeSettingsView::initial()
        },
{
}

/// The outcome of an operation as it leaves for the user interface: a
/// success as it is, a failure as its text.
pub fn into_reply<T>(outcome: Result<T, LauncherError>) -> (reply: Result<T, String>)
    ensures
        match outcome {
            Ok(value) => reply == Ok::<T, String>(value),
            Err(failure) => reply is Err && reply->Err_0@ == failure@.message(),
        },
{
    match outcome {
        Ok(value) => Ok(value),
        Err(failure) => Err(failure.message()),
    }
}

} // verus!
