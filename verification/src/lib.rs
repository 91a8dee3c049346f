//! A vendor-neutral model of a BitTorrent daemon's data (torrents, uploads,
//! trackers, failures) and the mapping between that model and the records of
//! the qBittorrent Web API.
//!
//! The library computes and never talks to a daemon: a caller performs the
//! requests, hands it what came back, and gets domain values in return.

pub mod client;
pub mod error;
pub mod torrent;
