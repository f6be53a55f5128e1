pub mod audit;
pub mod claim;
pub mod cmd_outbox;
pub mod devices;
pub mod events;
pub mod orgs;
pub mod query;
pub mod tunnels;
pub mod users;
