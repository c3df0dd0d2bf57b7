//! Client-side authentication and request construction for the VK REST API.
//!
//! The crate has three parts. The permission algebra ([`Permission`] and
//! [`Permissions`]) names the scopes a token can grant and combines them in a
//! bit mask. The token model ([`AccessToken`], [`AccessTokenLifetime`]) reads a
//! token out of the provider's response and tells whether it is still valid.
//! The request description ([`Request`]) declares the parameters of an API
//! call and derives the query string that the call is sent as.

pub mod auth;
pub mod permission;
pub mod permissions;
pub mod query;
pub mod request;
pub mod response;
pub mod text;
pub mod time;
pub mod token;
pub mod value;

pub use auth::{Auth, OAUTH_DEFAULT_REDIRECT_URI};
pub use permission::Permission;
pub use permissions::Permissions;
pub use request::{Param, Request};
pub use response::ParseError;
pub use time::Instant;
pub use token::{AccessToken, AccessTokenLifetime};
pub use value::{Kind, Scalar, Strategy, Value};
