pub mod protocol_version;
pub mod status;
