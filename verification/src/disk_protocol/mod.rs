pub mod request;
pub mod response;
pub mod status;

pub use request::{Request, RequestCode};
pub use response::{Response, StatusResponse, StatusResponseErrno};
pub use status::Status;
