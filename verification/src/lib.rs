pub mod encode;
pub mod error;
pub mod price;
pub mod rct;
pub mod rctrle;
pub mod sawyer;
pub mod segment;
pub mod util;
