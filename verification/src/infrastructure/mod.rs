//! What stands between the decisions and the machine: the web-server
//! families and their configuration syntax, the discovery of documents, the
//! address record, the sources of the public address, the messages.

pub mod config_discovery;
pub mod network;
pub mod notifications;
pub mod repositories;
pub mod webservers;
