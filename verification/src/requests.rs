//! Construction of the two HTTP requests: endpoint URLs, headers and bodies.
//! The surrounding program sends what is built here, verbatim.

use vstd::prelude::*;
use vstd::string::StringExecFns;

use crate::text::decimal_of;
use crate::text::u64_to_decimal;

verus! {

/// The API server used when none is configured.
pub fn default_api_server() -> (r: &'static str)
    ensures
        r@ == "https://api-staff.netjob.asia"@,
{
    "https://api-staff.netjob.asia"
}

/// The fixed application identifier sent as the `appid` header of both calls.
pub fn app_id_header() -> (r: &'static str)
    ensures
        r@ == "c03714075869519a54ba70e31d6751c3"@,
{
    "c03714075869519a54ba70e31d6751c3"
}

/// The fixed browser-like user agent of the login call's client.
pub fn user_agent() -> (r: &'static str)
    ensures
        r@ == "Mozilla/5.0 (Windows NT 10.0; Win64; x64; rv:88.0) Gecko/20100101 Firefox/88.0"@,
{
    "Mozilla/5.0 (Windows NT 10.0; Win64; x64; rv:88.0) Gecko/20100101 Firefox/88.0"
}

/// The login endpoint: the base URL followed by the login path.
pub fn login_url(api_server: &str) -> (r: String)
    ensures
        r@ == api_server@ + "/api/user/login"@,
{
    String::from_str(api_server).concat("/api/user/login")
}

/// The claim endpoint: the base URL followed by the claim path.
pub fn claim_url(api_server: &str) -> (r: String)
    ensures
        r@ == api_server@ + "/api/user/claim-daily"@,
{
    String::from_str(api_server).concat("/api/user/claim-daily")
}

/// The JSON body of the login request, with the username and password
/// interpolated verbatim between fixed fields.
pub open spec fn login_body_spec(username: Seq<char>, password: Seq<char>) -> Seq<char> {
    "{\"UserName\":\""@ + username + "\",\"PassWord\":\"\",\"Password\":\""@ + password
        + "\",\"pushToken\":\"\",\"platform\":\"Web\",\"deviceId\":\"Windows-Firefox-88.0\"}"@
}

/// Build the login request body. The credentials are inserted verbatim, with
/// no JSON escaping, exactly as the server expects them.
pub fn build_login_body(username: &str, password: &str) -> (r: String)
    ensures
        r@ == login_body_spec(username@, password@),
{
    let mut s = String::from_str("{\"UserName\":\"");
    s.append(username);
    s.append("\",\"PassWord\":\"\",\"Password\":\"");
    s.append(password);
    s.append("\",\"pushToken\":\"\",\"platform\":\"Web\",\"deviceId\":\"Windows-Firefox-88.0\"}");
    proof {
        assert(s@ =~= login_body_spec(username@, password@));
    }
    s
}

/// Build the claim request body: the claim type as a plain decimal string,
/// not wrapped in JSON.
pub fn build_claim_body(claim_type: u8) -> (r: String)
    ensures
        r@ == decimal_of(claim_type as int),
{
    u64_to_decimal(claim_type as u64)
}

} // verus!
