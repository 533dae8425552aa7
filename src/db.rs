//! Where the spreadsheet of replay ids is found.
use vstd::prelude::*;

verus! {

/// The service account key file and the id of the spreadsheet.
pub struct Config {
    pub priv_key: String,
    pub sheet_id: String,
}

impl Config {
    pub fn new() -> (r: Config)
        ensures
            r.priv_key@ == "priv_key.json"@,
            r.sheet_id@ == "1VJI0G67jWe4KFeDyqrUpId1pX1-iK0A16maJ7I_pqP4"@,
    {
        Config {
            priv_key: String::from_str("priv_key.json"),
            sheet_id: String::from_str("1VJI0G67jWe4KFeDyqrUpId1pX1-iK0A16maJ7I_pqP4"),
        }
    }
}

} // verus!
