pub mod allow_list;
pub mod cid;
pub mod client;
pub mod constants;
pub mod errors;
pub mod pipe;
pub mod rate_limit;
pub mod rest;
pub mod retry;
pub mod text;
pub mod types;
pub mod utils;
pub mod validation;

pub use crate::errors::{ForestError, ForestResult};
pub use crate::pipe::{AsyncTransformPipe, Pipe, Pipeline, TransformPipe, ValidationPipe};
pub use crate::rate_limit::RateLimiter;
pub use crate::rest::{JwtClaims, RestPipe, RestPipeConfig};
pub use crate::retry::RetryPolicy;
pub use crate::utils::{format_hex_string, format_wei_to_eth, min, parse_hex_string};
