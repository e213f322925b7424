//! Paths of the API's endpoints.

use vstd::prelude::*;

verus! {

/// Path for requesting a presigned upload URL
pub const SIGNED_URL: &'static str = "/api/files/aws-presigned";

/// Path for retrieving media results
pub const MEDIA_RESULT: &'static str = "/api/media/users";

/// Path for retrieving one page of all media results
pub const ALL_MEDIA_RESULTS: &'static str = "/api/v2/media/users/pages";

} // verus!
