//! The friend list.

use crate::http::{request_result_is, Request};
use crate::json::{Json, JsonValue};
use crate::text::join;
use crate::{call_spec, Error, Tarkov};
use vstd::prelude::*;

verus! {

impl Tarkov {
    /// The call for the friends of the account.
    pub fn get_friends(&self) -> (r: Result<Request, Error>)
        ensures
            request_result_is(
                r,
                call_spec(
                    self@,
                    self@.config.prod_endpoint + "/client/friend/list"@,
                    JsonValue::Null,
                ),
            ),
    {
        let url = join(self.config().prod_endpoint.as_str(), "/client/friend/list");
        self.post_json(url, &Json::Null)
    }
}

} // verus!
