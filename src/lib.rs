//! Typed request composition for a user-management HTTP API: pagination and
//! sorting parameters, request objects for individual endpoints, the JSON
//! bodies they send and the decision taken on each response.
use vstd::prelude::*;

pub mod json;
pub mod page;
pub mod query;
pub mod request;
pub mod response;
pub mod sort;
pub mod user_logs_get;
pub mod user_update;

pub use json::{JsonValue, Member};
pub use page::Page;
pub use query::QueryParam;
pub use request::{HttpMethod, RequestSpec};
pub use response::{on_decoded, on_response, ApiError, ResponseStep};
pub use sort::{Ordering, Sort};
pub use user_logs_get::UserLogsGet;
pub use user_update::UserUpdate;

verus! {

} // verus!
