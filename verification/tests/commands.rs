use rhizos_launcher::commands::{get_hardware_info, get_node_status, get_settings, into_reply};
use rhizos_launcher::error::LauncherError;
use rhizos_launcher::files::FilePath;
use rhizos_launcher::hardware::{hardware_info, MemoryInfo, StorageInfo};
use rhizos_launcher::locator::Platform;
use rhizos_launcher::settings::{NodeSettings, PricingConfig};
use rhizos_launcher::store::{begin_load, begin_save, continue_load, continue_save, LoadEvent, LoadStep, SaveEvent, SaveStep};
use rhizos_launcher::supervisor::{NodeStatus, NodeSupervisor, SignalOutcome};
use serde_json::Value;

// A stand-in for the embedding program: files in memory, text by serde_json.

struct Disk {
    dirs: Vec<String>,
    files: Vec<(FilePath, String)>,
}

impl Disk {
    fn new() -> Disk {
        Disk { dirs: Vec::new(), files: Vec::new() }
    }

    fn write(&mut self, file: &FilePath, content: &str) {
        self.files.retain(|(name, _)| name != file);
        self.files.push((file.clone(), content.to_string()));
    }

    fn read(&self, file: &FilePath) -> Option<String> {
        self.files.iter().find(|(name, _)| name == file).map(|(_, content)| content.clone())
    }
}

fn encode(settings: &NodeSettings) -> Result<String, String> {
    let mut pricing = serde_json::Map::new();
    pricing.insert("gpu_hour_cents".to_string(), Value::from(settings.pricing.gpu_hour_cents));
    pricing.insert("cpu_core_hour_cents".to_string(), Value::from(settings.pricing.cpu_core_hour_cents));
    pricing.insert("memory_gb_hour_cents".to_string(), Value::from(settings.pricing.memory_gb_hour_cents));
    pricing.insert("minimum_cents".to_string(), Value::from(settings.pricing.minimum_cents));
    let mut record = serde_json::Map::new();
    record.insert("orchestrator_url".to_string(), Value::from(settings.orchestrator_url.clone()));
    record.insert("auto_start".to_string(), Value::from(settings.auto_start));
    record.insert("start_minimized".to_string(), Value::from(settings.start_minimized));
    record.insert("wallet_address".to_string(), Value::from(settings.wallet_address.clone()));
    record.insert("max_concurrent_jobs".to_string(), Value::from(settings.max_concurrent_jobs));
    record.insert("max_memory_percent".to_string(), Value::from(settings.max_memory_percent));
    record.insert("pricing".to_string(), Value::Object(pricing));
    serde_json::to_string_pretty(&Value::Object(record)).map_err(|failure| failure.to_string())
}

fn number(value: &Value, key: &str) -> Option<u32> {
    u32::try_from(value.get(key)?.as_u64()?).ok()
}

fn decode(text: &str) -> Option<NodeSettings> {
    let record: Value = serde_json::from_str(text).ok()?;
    let pricing = record.get("pricing")?;
    Some(NodeSettings {
        orchestrator_url: record.get("orchestrator_url")?.as_str()?.to_string(),
        auto_start: record.get("auto_start")?.as_bool()?,
        start_minimized: record.get("start_minimized")?.as_bool()?,
        wallet_address: record.get("wallet_address")?.as_str()?.to_string(),
        max_concurrent_jobs: number(&record, "max_concurrent_jobs")?,
        max_memory_percent: number(&record, "max_memory_percent")?,
        pricing: PricingConfig {
            gpu_hour_cents: number(pricing, "gpu_hour_cents")?,
            cpu_core_hour_cents: number(pricing, "cpu_core_hour_cents")?,
            memory_gb_hour_cents: number(pricing, "memory_gb_hour_cents")?,
            minimum_cents: number(pricing, "minimum_cents")?,
        },
    })
}

fn save_settings(disk: &mut Disk, config_dir: Option<&str>, settings: &NodeSettings) -> Result<(), String> {
    let mut step = begin_save(config_dir.map(str::to_string), settings.clone());
    loop {
        let event = match step {
            SaveStep::Done(outcome) => return into_reply(outcome),
            SaveStep::CreateDir { ref file, .. } => {
                disk.dirs.push(file.dir.clone());
                SaveEvent::DirCreated(Ok(()))
            }
            SaveStep::Encode { ref settings, .. } => SaveEvent::Encoded(encode(settings)),
            SaveStep::Write { ref file, ref content } => {
                disk.write(file, content);
                SaveEvent::Written(Ok(()))
            }
        };
        step = continue_save(step, event);
    }
}

fn load_settings(disk: &Disk, config_dir: Option<&str>) -> NodeSettings {
    let mut step = begin_load(config_dir.map(str::to_string));
    loop {
        let event = match step {
            LoadStep::Done(loaded) => return get_settings(loaded),
            LoadStep::Read { ref file } => LoadEvent::FileRead(disk.read(file)),
            LoadStep::Decode { ref content } => LoadEvent::Decoded(decode(content)),
        };
        step = continue_load(step, event);
    }
}

#[test]
fn status_of_a_new_supervisor() {
    let node = NodeSupervisor::new();
    assert_eq!(get_node_status(&node), NodeStatus { running: false, pid: None });
}

#[test]
fn status_of_a_running_supervisor() {
    let mut node = NodeSupervisor::new();
    node.finish_start(Ok(321)).unwrap();
    assert_eq!(get_node_status(&node), NodeStatus { running: true, pid: Some(321) });
}

#[test]
fn settings_without_stored_record_are_the_defaults() {
    assert_eq!(get_settings(None), NodeSettings::default());
}

#[test]
fn stored_settings_are_handed_out_unchanged() {
    let stored = NodeSettings {
        orchestrator_url: "https://orch.example:9443/api".to_string(),
        auto_start: true,
        start_minimized: true,
        wallet_address: "0x00ff".to_string(),
        max_concurrent_jobs: 0,
        max_memory_percent: u32::MAX,
        pricing: PricingConfig { gpu_hour_cents: 7, cpu_core_hour_cents: 0, memory_gb_hour_cents: 3, minimum_cents: 0 },
    };
    assert_eq!(get_settings(Some(stored.clone())), stored);
}

#[test]
fn successes_leave_as_they_are() {
    assert_eq!(into_reply(Ok(NodeStatus { running: true, pid: Some(1) })), Ok(NodeStatus { running: true, pid: Some(1) }));
    assert_eq!(into_reply(Ok(())), Ok(()));
}

#[test]
fn failures_leave_as_text() {
    let reply: Result<(), String> = into_reply(Err(LauncherError::AlreadyRunning));
    assert_eq!(reply, Err("Node is already running".to_string()));
    let reply: Result<NodeStatus, String> = into_reply(Err(LauncherError::SpawnFailed("boom".to_string())));
    assert_eq!(reply, Err("Failed to start node: boom".to_string()));
}

#[test]
fn every_failure_has_its_text() {
    assert_eq!(LauncherError::AlreadyRunning.message(), "Node is already running");
    assert_eq!(LauncherError::BinaryNotFound.message(), "Could not find node-agent binary");
    assert_eq!(
        LauncherError::SpawnFailed("No such file or directory (os error 2)".to_string()).message(),
        "Failed to start node: No such file or directory (os error 2)"
    );
    assert_eq!(
        LauncherError::StopFailed("Operation not permitted (os error 1)".to_string()).message(),
        "Failed to stop node: Operation not permitted (os error 1)"
    );
    assert_eq!(LauncherError::ConfigDirUnavailable(None).message(), "Could not determine config directory");
    assert_eq!(
        LauncherError::ConfigDirUnavailable(Some("Permission denied".to_string())).message(),
        "Failed to create config directory: Permission denied"
    );
    assert_eq!(
        LauncherError::SerializeFailed("bad".to_string()).message(),
        "Failed to serialize settings: bad"
    );
    assert_eq!(LauncherError::WriteFailed("disk full".to_string()).message(), "Failed to write settings: disk full");
    assert_eq!(LauncherError::WriteFailed(String::new()).message(), "Failed to write settings: ");
}

#[test]
fn hardware_info_holds_the_counts_and_nothing_else() {
    let info = hardware_info(8, 16);
    assert_eq!(info.cpu.model, "Unknown");
    assert_eq!(info.cpu.cores, 8);
    assert_eq!(info.cpu.threads, 16);
    assert_eq!(info.memory, MemoryInfo { total_mb: 0, available_mb: 0 });
    assert!(info.gpus.is_empty());
    assert_eq!(info.storage, StorageInfo { total_gb: 0, available_gb: 0 });
    assert_eq!(info.docker_version, None);
}

#[test]
fn hardware_info_of_no_processors() {
    let info = hardware_info(0, 0);
    assert_eq!(info.cpu.cores, 0);
    assert_eq!(info.cpu.threads, 0);
}

#[test]
fn hardware_info_cuts_counts_to_32_bits() {
    let info = hardware_info(usize::MAX, u32::MAX as usize);
    assert_eq!(info.cpu.cores, u32::MAX);
    assert_eq!(info.cpu.threads, u32::MAX);
    if let Ok(wide) = usize::try_from(0x1_0000_0005u64) {
        let info = hardware_info(wide, wide - 5);
        assert_eq!(info.cpu.cores, 5);
        assert_eq!(info.cpu.threads, 0);
    }
}

#[test]
fn hardware_info_never_fails() {
    let info = get_hardware_info().unwrap();
    assert_eq!(info.cpu.model, "Unknown");
    assert_eq!(info.cpu.threads, num_cpus::get() as u32);
    assert_eq!(info.cpu.cores, num_cpus::get_physical() as u32);
    assert_eq!(info.memory, MemoryInfo { total_mb: 0, available_mb: 0 });
    assert!(info.gpus.is_empty());
    assert_eq!(info.storage, StorageInfo { total_gb: 0, available_gb: 0 });
    assert_eq!(info.docker_version, None);
}

#[test]
fn fresh_environment_then_save_then_get() {
    let mut disk = Disk::new();
    assert_eq!(load_settings(&disk, Some("conf")), NodeSettings::default());

    let mut changed = NodeSettings::default();
    changed.orchestrator_url = "http://x:9".to_string();
    assert_eq!(save_settings(&mut disk, Some("conf"), &changed), Ok(()));
    assert_eq!(disk.dirs, vec!["conf".to_string()]);

    let loaded = load_settings(&disk, Some("conf"));
    assert_eq!(loaded, changed);
    assert_eq!(loaded.orchestrator_url, "http://x:9");
    assert_eq!(loaded.wallet_address, "");
    assert_eq!(loaded.max_concurrent_jobs, 4);
    assert_eq!(loaded.max_memory_percent, 80);
    assert_eq!(loaded.pricing, NodeSettings::default().pricing);
}

#[test]
fn second_start_in_a_row_is_refused() {
    let mut node = NodeSupervisor::new();
    let request = node.begin_start("http://orch:8080", Some("/opt/rhizos".to_string()), true, Platform::Other);
    assert!(request.is_ok());
    let first = into_reply(node.finish_start(Ok(1234)));
    assert_eq!(first, Ok(NodeStatus { running: true, pid: Some(1234) }));

    let second = into_reply(node.begin_start(
        "http://orch:8080",
        Some("/opt/rhizos".to_string()),
        true,
        Platform::Other,
    ));
    assert_eq!(second.unwrap_err(), "Node is already running");
    assert_eq!(get_node_status(&node), NodeStatus { running: true, pid: Some(1234) });
}

#[test]
fn stop_without_prior_start_succeeds() {
    let mut node = NodeSupervisor::new();
    assert_eq!(node.stop_target(), None);
    let reply = into_reply(node.finish_stop(SignalOutcome::NoSuchProcess));
    assert_eq!(reply, Ok(NodeStatus { running: false, pid: None }));
    assert_eq!(get_node_status(&node), NodeStatus { running: false, pid: None });
}

#[test]
fn saved_settings_come_back_equal() {
    let samples = vec![
        NodeSettings::default(),
        NodeSettings { max_concurrent_jobs: 0, ..NodeSettings::default() },
        NodeSettings {
            pricing: PricingConfig { minimum_cents: 0, ..NodeSettings::default().pricing },
            ..NodeSettings::default()
        },
        NodeSettings {
            orchestrator_url: String::new(),
            auto_start: true,
            start_minimized: true,
            wallet_address: "w \"quoted\" \\ \n \u{1F600}".to_string(),
            max_concurrent_jobs: u32::MAX,
            max_memory_percent: u32::MAX,
            pricing: PricingConfig {
                gpu_hour_cents: u32::MAX,
                cpu_core_hour_cents: 0,
                memory_gb_hour_cents: 0,
                minimum_cents: u32::MAX,
            },
        },
    ];
    for settings in samples {
        let mut disk = Disk::new();
        assert_eq!(save_settings(&mut disk, Some("conf"), &settings), Ok(()));
        assert_eq!(load_settings(&disk, Some("conf")), settings);
    }
}

#[test]
fn later_save_replaces_the_whole_record() {
    let mut disk = Disk::new();
    let first = NodeSettings { wallet_address: "first".to_string(), auto_start: true, ..NodeSettings::default() };
    let second = NodeSettings { max_memory_percent: 10, ..NodeSettings::default() };
    assert_eq!(save_settings(&mut disk, Some("conf"), &first), Ok(()));
    assert_eq!(save_settings(&mut disk, Some("conf"), &second), Ok(()));
    assert_eq!(load_settings(&disk, Some("conf")), second);
    assert_eq!(disk.files.len(), 1);
}

#[test]
fn missing_file_loads_the_defaults() {
    let disk = Disk::new();
    assert_eq!(load_settings(&disk, Some("conf")), NodeSettings::default());
    assert_eq!(load_settings(&disk, None), NodeSettings::default());
}

#[test]
fn corrupted_file_loads_the_defaults() {
    let file = begin_load(Some("conf".to_string()));
    let file = match file {
        LoadStep::Read { file } => file,
        other => panic!("unexpected step {:?}", other),
    };
    for content in ["", "{", "not json", "[]", "{\"orchestrator_url\": 5}", "{\"auto_start\": true}"] {
        let mut disk = Disk::new();
        disk.write(&file, content);
        assert_eq!(load_settings(&disk, Some("conf")), NodeSettings::default());
    }
}

#[test]
fn save_without_config_dir_is_reported() {
    let mut disk = Disk::new();
    assert_eq!(
        save_settings(&mut disk, None, &NodeSettings::default()),
        Err("Could not determine config directory".to_string())
    );
    assert!(disk.files.is_empty());
    assert!(disk.dirs.is_empty());
}
