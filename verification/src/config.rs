//! Configuration schema: the sections that the decisions read, and their defaults.
use vstd::prelude::*;

use crate::error::InternalVoiceError;

verus! {

/// How often periodic status updates are spoken.
#[derive(Debug, Clone, Copy, PartialEq, Eq, Structural)]
pub enum NotificationFrequency {
    Minute,
    Hourly,
    Daily,
    /// No periodic updates (written `none` in the configuration file).
    Off,
}

/// The user's alert preferences, chosen during first-run setup.
#[derive(Debug, Clone, Copy, PartialEq, Eq, Structural)]
pub struct AlertPreferences {
    pub frequency: NotificationFrequency,
    pub setup_completed: bool,
}

impl Default for AlertPreferences {
    /// No periodic updates, setup not yet done.
    fn default() -> (p: AlertPreferences)
        ensures
            p.frequency == NotificationFrequency::Off,
            !p.setup_completed,
    {
        AlertPreferences { frequency: NotificationFrequency::Off, setup_completed: false }
    }
}

/// The `[service]` section.
#[derive(Debug, Clone)]
pub struct ServiceConfig {
    pub sample_interval_secs: u64,
    pub gemini_timeout_secs: u64,
    pub gemini_model: String,
    pub gemini_live_model: String,
    pub gemini_api_key: String,
    pub debounce_millis: u64,
    pub max_prompt_tokens_hint: u32,
    pub cache_ttl_secs: u64,
    pub max_log_files: usize,
    pub log_dir: String,
    pub max_log_file_size_mb: usize,
    /// Override of the Gemini Live WebSocket endpoint; `{key}` stands for the API key.
    pub gemini_live_ws_url: String,
}

/// The `[secrets]` section: where the Gemini API key is looked up.
#[derive(Debug, Clone)]
pub struct SecretConfig {
    pub env_var: String,
    pub keyring_service: String,
    pub keyring_account: String,
}

/// The `[narration]` section.
#[derive(Debug, Clone)]
pub struct NarrationConfig {
    pub min_announcement_interval_secs: u64,
    pub voice_enabled: bool,
    pub max_processes: usize,
    pub style: String,
}

/// Which telemetry the narrator may report, by field.
#[derive(Debug, Clone)]
pub struct SystemTelemetryPolicy {
    pub host_metadata: HostMetadataPolicy,
    pub hardware_resources: HardwareResourcesPolicy,
    pub running_processes: Vec<ProcessPolicy>,
    pub container_runtime: ContainerRuntimePolicy,
    pub network: NetworkPolicy,
    pub peripheral_devices: PeripheralDevicesPolicy,
}

#[derive(Debug, Clone)]
pub struct HostMetadataPolicy {
    pub hostname: String,
    pub os_version: String,
    pub kernel_version: String,
    pub uptime_seconds: String,
    pub cpu_model: String,
    pub total_memory_bytes: String,
}

#[derive(Debug, Clone)]
pub struct HardwareResourcesPolicy {
    pub cpu_usage_percent: String,
    pub memory_usage_percent: String,
    pub storage: Vec<StoragePolicy>,
}

#[derive(Debug, Clone)]
pub struct StoragePolicy {
    pub mount_point: String,
    pub filesystem: String,
    pub total_bytes: String,
    pub used_bytes: String,
    pub read_iops: String,
    pub write_iops: String,
}

#[derive(Debug, Clone)]
pub struct ProcessPolicy {
    pub pid: String,
    pub name: String,
    pub user: String,
    pub cpu_percent: String,
    pub memory_percent: String,
    pub command_line: String,
    pub start_time: String,
}

#[derive(Debug, Clone)]
pub struct ContainerRuntimePolicy {
    pub engine: String,
    pub containers: Vec<ContainerPolicy>,
}

#[derive(Debug, Clone)]
pub struct ContainerPolicy {
    pub container_id: String,
    pub image: String,
    pub status: String,
    pub created: String,
    pub ports: Vec<String>,
}

#[derive(Debug, Clone)]
pub struct NetworkPolicy {
    pub active_connections: Vec<ConnectionPolicy>,
    pub interfaces: Vec<InterfacePolicy>,
}

#[derive(Debug, Clone)]
pub struct ConnectionPolicy {
    pub protocol: String,
    pub local_address: String,
    pub local_port: String,
    pub remote_address: String,
    pub remote_port: String,
    pub state: String,
    pub process_name: String,
}

#[derive(Debug, Clone)]
pub struct InterfacePolicy {
    pub name: String,
    pub mac_address: String,
    pub ip_addresses: Vec<String>,
    pub bytes_sent: String,
    pub bytes_received: String,
}

#[derive(Debug, Clone)]
pub struct PeripheralDevicesPolicy {
    pub bluetooth_connected: Vec<BluetoothPolicy>,
    pub usb_devices: Vec<UsbPolicy>,
}

#[derive(Debug, Clone)]
pub struct BluetoothPolicy {
    pub device_name: String,
    pub mac_address: String,
    pub class: String,
    pub connected_at: String,
}

#[derive(Debug, Clone)]
pub struct UsbPolicy {
    pub vendor_id: String,
    pub product_id: String,
    pub serial: String,
}

/// Default of `service.gemini_live_model`.
pub fn default_gemini_live_model() -> (s: String)
    ensures
        s@ == "gemini-2.0-flash-exp"@,
{
    String::from_str("gemini-2.0-flash-exp")
}

/// Default of `service.gemini_live_ws_url`.
pub fn default_gemini_live_ws_url() -> (s: String)
    ensures
        s@ == "wss://generativelanguage.googleapis.com/ws/google.ai.generativelanguage.v1alpha.GenerativeService/BiDiGenerateContent?key={key}"@,
{
    String::from_str(
        "wss://generativelanguage.googleapis.com/ws/google.ai.generativelanguage.v1alpha.GenerativeService/BiDiGenerateContent?key={key}",
    )
}

/// Default of `service.log_dir`.
pub fn default_log_dir() -> (s: String)
    ensures
        s@ == "logs"@,
{
    String::from_str("logs")
}

/// Default of `limits.system_telemetry_interval_secs`.
pub fn default_system_telemetry_interval_secs() -> (n: u64)
    ensures
        n == 60,
{
    60
}

impl ServiceConfig {
    /// The size limit of one log file in bytes.
    pub fn max_log_file_size(&self) -> (n: u64)
        requires
            self.max_log_file_size_mb * 1024 * 1024 <= u64::MAX,
        ensures
            n == self.max_log_file_size_mb * 1024 * 1024,
    {
        (self.max_log_file_size_mb as u64) * 1024 * 1024
    }

    /// How many rotated log files are kept.
    pub fn max_log_files(&self) -> (n: usize)
        ensures
            n == self.max_log_files,
    {
        self.max_log_files
    }
}

/// Where the configuration file is read from.
#[derive(Debug, Clone, Copy, PartialEq, Eq, Structural)]
pub enum ConfigLocation {
    /// The path named by `INTERNALVOICE_CONFIG`.
    FromEnv,
    /// `./config.toml`.
    Local,
    /// `./config/InternalVoice.example.toml`.
    Example,
    /// `InternalVoice/config.toml` under the user's configuration directory.
    UserConfigDir,
}

/// The first candidate that exists, in the order: the file `INTERNALVOICE_CONFIG`
/// names (`env_path_exists` is `None` when the variable is unset), `./config.toml`, the
/// example file; otherwise the user's configuration directory, when there is one.
pub fn choose_config_location(
    env_path_exists: Option<bool>,
    local_exists: bool,
    example_exists: bool,
    has_config_dir: bool,
) -> (r: Result<ConfigLocation, InternalVoiceError>)
    ensures
        env_path_exists == Some(true) ==> r == Ok::<ConfigLocation, InternalVoiceError>(ConfigLocation::FromEnv),
        env_path_exists != Some(true) && local_exists ==> r == Ok::<ConfigLocation, InternalVoiceError>(ConfigLocation::Local),
        env_path_exists != Some(true) && !local_exists && example_exists ==> r == Ok::<ConfigLocation, InternalVoiceError>(ConfigLocation::Example),
        env_path_exists != Some(true) && !local_exists && !example_exists && has_config_dir ==> r == Ok::<ConfigLocation, InternalVoiceError>(
            ConfigLocation::UserConfigDir,
        ),
        env_path_exists != Some(true) && !local_exists && !example_exists && !has_config_dir ==> (r matches Err(
            InternalVoiceError::Config(m),
        ) && m@ == "unable to resolve config directory"@),
{
    if env_path_exists == Some(true) {
        return Ok(ConfigLocation::FromEnv);
    }
    if local_exists {
        return Ok(ConfigLocation::Local);
    }
    if example_exists {
        return Ok(ConfigLocation::Example);
    }
    if has_config_dir {
        Ok(ConfigLocation::UserConfigDir)
    } else {
        Err(InternalVoiceError::Config(String::from_str("unable to resolve config directory")))
    }
}

} // verus!
