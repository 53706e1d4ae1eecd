use vstd::prelude::*;

use crate::model::TrainError;

verus! {

/// The HTTP status used for a provider error that names none.
pub const DEFAULT_ERROR_STATUS: u16 = 401;

/// The address of the provider's train-status endpoint, up to the train number.
pub open spec fn status_endpoint() -> Seq<char> {
    "https://railradar.in/api/v1/trains/"@
}

/// A request for a train's status on a journey date.
#[derive(Clone, Debug)]
pub struct TrainStatusQuery {
    pub journey_date: String,
    pub train_number: String,
}

impl TrainStatusQuery {
    /// The provider URL that asks for this train on this date.
    pub fn status_url(&self) -> (r: String)
        ensures
            r@ == status_endpoint() + self.train_number@ + "?journeyDate="@ + self.journey_date@,
    {
        let mut url = String::from_str("https://railradar.in/api/v1/trains/");
        url.append(self.train_number.as_str());
        url.append("?journeyDate=");
        url.append(self.journey_date.as_str());
        url
    }
}

impl TrainError {
    /// The HTTP status to answer with: the provider's own, else the default.
    pub fn http_status(&self) -> (r: u16)
        ensures
            r == match self.status_code {
                Option::Some(c) => c,
                Option::None => DEFAULT_ERROR_STATUS,
            },
    {
        match self.status_code {
            Some(c) => c,
            None => DEFAULT_ERROR_STATUS,
        }
    }
}

} // verus!
