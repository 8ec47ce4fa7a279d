pub mod buffer;
pub mod connection;
pub mod packet;
pub mod player_connection;
pub mod proxy_config;
pub mod server;
pub mod text;
