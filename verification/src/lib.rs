//! Bootstrap configuration of a federation guardian: its TLS identity, the
//! connection strings that guardians exchange, the roster that key
//! generation starts from, and the configuration files it ends in.

pub mod conn_string;
pub mod dkg;
pub mod envelope;
pub mod error;
pub mod files;
pub mod hex;
pub mod identity;
pub mod order;
pub mod roster;
pub mod store;
pub mod text;

pub use conn_string::{format_checked, format_peer_params, parse_peer_params, PeerServerParams};
pub use dkg::{conclude_dkg, run_dkg, DkgOutcome, DkgSetup, ServerConfigParams};
pub use envelope::{decrypt, encrypt, encrypted_read, encrypted_write, get_key, AeadKey};
pub use error::ConfigError;
pub use files::{
    ConfigDir, ConfigFile, CLIENT_CONFIG, CLIENT_CONNECT_FILE, CONSENSUS_CONFIG, DB_FILE,
    ENCRYPTED_EXT, JSON_EXT, LOCAL_CONFIG, PRIVATE_CONFIG, SALT_FILE, TLS_CERT, TLS_PK,
};
pub use identity::{create_cert, gen_tls};
pub use roster::{assign_peer_ids, PeerId, Roster};
pub use store::{
    encrypted_json_read, encrypted_json_write, plaintext_json_read, plaintext_json_write,
    read_server_configs, write_nonprivate_configs, ServerConfig,
};
