pub mod asset_server;
