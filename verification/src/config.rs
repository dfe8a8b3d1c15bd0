//! Configuration of the coordinator, and the values it has where nothing
//! else is configured.

use vstd::prelude::*;
use vstd::string::*;

verus! {

/// Where the coordinator listens.
#[derive(Debug)]
pub struct ServerConfig {
    pub grpc_host: String,
    pub grpc_port: u16,
    pub websocket_host: String,
    pub websocket_port: u16,
    pub metrics_port: u16,
}

/// Where the coordinator keeps its data. Paths are held as text.
#[derive(Debug)]
pub struct DatabaseConfig {
    pub postgres_url: Option<String>,
    pub use_timescaledb: bool,
    pub embedded_db_path: String,
    pub use_rocksdb: bool,
    pub max_connections: u32,
}

/// How the coordinator secures its connections. Paths are held as text.
#[derive(Debug)]
pub struct SecurityConfig {
    pub enable_mtls: bool,
    pub ca_cert_path: Option<String>,
    pub server_cert_path: Option<String>,
    pub server_key_path: Option<String>,
    pub client_cert_path: Option<String>,
    pub client_key_path: Option<String>,
    pub auth_token_secret: String,
    pub session_timeout_minutes: u64,
}

/// What the coordinator reports about itself.
#[derive(Debug)]
pub struct TelemetryConfig {
    pub enable_prometheus: bool,
    pub enable_jaeger: bool,
    pub jaeger_endpoint: Option<String>,
    pub log_level: String,
    pub enable_detailed_metrics: bool,
}

/// How coordinators agree among themselves. Paths are held as text.
#[derive(Debug)]
pub struct ConsensusConfig {
    pub enable_raft: bool,
    pub node_id: u64,
    pub cluster_peers: Vec<String>,
    pub data_dir: String,
    pub heartbeat_interval_ms: u64,
    pub election_timeout_ms: u64,
}

/// The limits of the fabric.
#[derive(Debug)]
pub struct FabricConfig {
    pub max_nodes: u32,
    pub max_agents_per_node: u32,
    pub health_check_interval_seconds: u64,
    pub agent_timeout_seconds: u64,
    pub enable_auto_scaling: bool,
    pub enable_load_balancing: bool,
}

/// The whole configuration.
#[derive(Debug)]
pub struct NexusConfig {
    pub server: ServerConfig,
    pub database: DatabaseConfig,
    pub security: SecurityConfig,
    pub telemetry: TelemetryConfig,
    pub consensus: ConsensusConfig,
    pub fabric: FabricConfig,
}

impl Default for ServerConfig {
    fn default() -> (config: Self)
        ensures
            config.grpc_host@ == "0.0.0.0"@,
            config.grpc_port == 50053,
            config.websocket_host@ == "0.0.0.0"@,
            config.websocket_port == 8080,
            config.metrics_port == 9090,
    {
        ServerConfig {
            grpc_host: String::from_str("0.0.0.0"),
            grpc_port: 50053,
            websocket_host: String::from_str("0.0.0.0"),
            websocket_port: 8080,
            metrics_port: 9090,
        }
    }
}

impl Default for DatabaseConfig {
    fn default() -> (config: Self)
        ensures
            config.postgres_url is None,
            !config.use_timescaledb,
            config.embedded_db_path@ == "./data/nexus_db"@,
            config.use_rocksdb,
            config.max_connections == 10,
    {
        DatabaseConfig {
            postgres_url: None,
            use_timescaledb: false,
            embedded_db_path: String::from_str("./data/nexus_db"),
            use_rocksdb: true,
            max_connections: 10,
        }
    }
}

impl Default for SecurityConfig {
    fn default() -> (config: Self)
        ensures
            !config.enable_mtls,
            config.ca_cert_path is None,
            config.server_cert_path is None,
            config.server_key_path is None,
            config.client_cert_path is None,
            config.client_key_path is None,
            config.auth_token_secret@ == "CHANGEME_IN_PRODUCTION"@,
            config.session_timeout_minutes == 60,
    {
        SecurityConfig {
            enable_mtls: false,
            ca_cert_path: None,
            server_cert_path: None,
            server_key_path: None,
            client_cert_path: None,
            client_key_path: None,
            auth_token_secret: String::from_str("CHANGEME_IN_PRODUCTION"),
            session_timeout_minutes: 60,
        }
    }
}

impl Default for TelemetryConfig {
    fn default() -> (config: Self)
        ensures
            config.enable_prometheus,
            !config.enable_jaeger,
            config.jaeger_endpoint is None,
            config.log_level@ == "info"@,
            config.enable_detailed_metrics,
    {
        TelemetryConfig {
            enable_prometheus: true,
            enable_jaeger: false,
            jaeger_endpoint: None,
            log_level: String::from_str("info"),
            enable_detailed_metrics: true,
        }
    }
}

impl Default for ConsensusConfig {
    fn default() -> (config: Self)
        ensures
            !config.enable_raft,
            config.node_id == 1,
            config.cluster_peers@.len() == 0,
            config.data_dir@ == "./data/raft"@,
            config.heartbeat_interval_ms == 1000,
            config.election_timeout_ms == 5000,
    {
        ConsensusConfig {
            enable_raft: false,
            node_id: 1,
            cluster_peers: Vec::new(),
            data_dir: String::from_str("./data/raft"),
            heartbeat_interval_ms: 1000,
            election_timeout_ms: 5000,
        }
    }
}

impl Default for FabricConfig {
    fn default() -> (config: Self)
        ensures
            config.max_nodes == 100,
            config.max_agents_per_node == 50,
            config.health_check_interval_seconds == 30,
            config.agent_timeout_seconds == 300,
            config.enable_auto_scaling,
            config.enable_load_balancing,
    {
        FabricConfig {
            max_nodes: 100,
            max_agents_per_node: 50,
            health_check_interval_seconds: 30,
            agent_timeout_seconds: 300,
            enable_auto_scaling: true,
            enable_load_balancing: true,
        }
    }
}

impl NexusConfig {
    /// Whether the configuration holds the values that apply where nothing
    /// else is configured.
    pub open spec fn is_default(&self) -> bool {
        &&& self.server.grpc_host@ == "0.0.0.0"@
        &&& self.server.grpc_port == 50053
        &&& self.server.websocket_host@ == "0.0.0.0"@
        &&& self.server.websocket_port == 8080
        &&& self.server.metrics_port == 9090
        &&& self.database.postgres_url is None
        &&& !self.database.use_timescaledb
        &&& self.database.embedded_db_path@ == "./data/nexus_db"@
        &&& self.database.use_rocksdb
        &&& self.database.max_connections == 10
        &&& !self.security.enable_mtls
        &&& self.security.ca_cert_path is None
        &&& self.security.server_cert_path is None
        &&& self.security.server_key_path is None
        &&& self.security.client_cert_path is None
        &&& self.security.client_key_path is None
        &&& self.security.auth_token_secret@ == "CHANGEME_IN_PRODUCTION"@
        &&& self.security.session_timeout_minutes == 60
        &&& self.telemetry.enable_prometheus
        &&& !self.telemetry.enable_jaeger
        &&& self.telemetry.jaeger_endpoint is None
        &&& self.telemetry.log_level@ == "info"@
        &&& self.telemetry.enable_detailed_metrics
        &&& !self.consensus.enable_raft
        &&& self.consensus.node_id == 1
        &&& self.consensus.cluster_peers@.len() == 0
        &&& self.consensus.data_dir@ == "./data/raft"@
        &&& self.consensus.heartbeat_interval_ms == 1000
        &&& self.consensus.election_timeout_ms == 5000
        &&& self.fabric.max_nodes == 100
        &&& self.fabric.max_agents_per_node == 50
        &&& self.fabric.health_check_interval_seconds == 30
        &&& self.fabric.agent_timeout_seconds == 300
        &&& self.fabric.enable_auto_scaling
        &&& self.fabric.enable_load_balancing
    }
}

impl Default for NexusConfig {
    fn default() -> (config: Self)
        ensures
            config.is_default(),
    {
        NexusConfig {
            server: ServerConfig::default(),
            database: DatabaseConfig::default(),
            security: SecurityConfig::default(),
            telemetry: TelemetryConfig::default(),
            consensus: ConsensusConfig::default(),
            fabric: FabricConfig::default(),
        }
    }
}

} // verus!
