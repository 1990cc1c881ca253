//! Records and the rules applied to them before and after they meet the
//! database: validation, normalization and authentication checks.

pub mod helper;
pub mod dogears;
pub mod migrations;
pub mod sessions;
pub mod tokens;
pub mod users;

pub use self::helper::deleted_one;
pub use self::dogears::Dogear;
pub use self::sessions::Session;
pub use self::tokens::{Token, TokenScope};
pub use self::users::User;
