//! Authentication headers and the signed request payload. The signature
//! itself is produced outside the library; these are the values every
//! request carries.

use vstd::prelude::*;
use vstd::string::StringExecFns;

verus! {

/// The three authentication headers a request carries.
#[derive(Debug, Clone)]
pub struct AuthHeaders {
    pub api_key: String,
    pub timestamp: String,
    pub signature: String,
}

impl AuthHeaders {
    /// The headers as name/value tuples, in wire order.
    pub fn to_header_tuples(&self) -> (r: Vec<(&'static str, String)>)
        ensures
            r@.len() == 3,
            r@[0].0@ == "KALSHI-ACCESS-KEY"@,
            r@[0].1@ == self.api_key@,
            r@[1].0@ == "KALSHI-ACCESS-TIMESTAMP"@,
            r@[1].1@ == self.timestamp@,
            r@[2].0@ == "KALSHI-ACCESS-SIGNATURE"@,
            r@[2].1@ == self.signature@,
    {
        let mut out: Vec<(&'static str, String)> = Vec::new();
        out.push(("KALSHI-ACCESS-KEY", self.api_key.clone()));
        out.push(("KALSHI-ACCESS-TIMESTAMP", self.timestamp.clone()));
        out.push(("KALSHI-ACCESS-SIGNATURE", self.signature.clone()));
        out
    }
}

/// The exact byte string a request signature covers: the millisecond
/// timestamp, the method, then the path, concatenated with no separators.
pub fn signing_payload(timestamp: &str, method: &str, path: &str) -> (r: String)
    ensures
        r@ == timestamp@ + method@ + path@,
{
    let mut out = timestamp.to_owned();
    out.append(method);
    out.append(path);
    out
}

} // verus!
