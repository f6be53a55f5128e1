pub mod devices;
pub mod audit;
pub mod orgs;
pub mod claim;
pub mod cmd;
pub mod paging;
pub mod events;
pub mod logs;
pub mod api_call;
pub mod tunnels;
pub mod users;
