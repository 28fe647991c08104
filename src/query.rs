//! The queries sent to the data API, and the decisions of the query executor
//! that do not depend on the network.
use vstd::prelude::*;
use vstd::string::StrSliceExecFns;
use vstd::string::StringExecFns;
use crate::template::{rendered, render_query};

verus! {

/// The decimal digit `d`.
pub open spec fn digit_char(d: nat) -> char {
    seq!['0', '1', '2', '3', '4', '5', '6', '7', '8', '9'][d as int]
}

/// The decimal notation of `n`, without leading zeros.
pub open spec fn decimal(n: nat) -> Seq<char>
    decreases n,
{
    if n < 10 {
        seq![digit_char(n)]
    } else {
        decimal(n / 10) + seq![digit_char(n % 10)]
    }
}

fn digit_str(d: u64) -> (r: &'static str)
    requires
        d < 10,
    ensures
        r@ == seq![digit_char(d as nat)],
{
    let digits: &'static str = "0123456789";
    proof {
        reveal_strlit("0123456789");
    }
    let r = digits.substring_char(d as usize, d as usize + 1);
    assert(r@ =~= seq![digit_char(d as nat)]);
    r
}

/// The decimal notation of `n`.
pub fn decimal_string(n: u64) -> (r: String)
    ensures
        r@ == decimal(n as nat),
    decreases n,
{
    if n < 10 {
        String::from_str(digit_str(n))
    } else {
        let mut s = decimal_string(n / 10);
        s.append(digit_str(n % 10));
        s
    }
}

/// The parameters of the account lookup query.
pub open spec fn account_params(address: Seq<char>) -> Seq<(Seq<char>, Seq<char>)> {
    seq![("address"@, address)]
}

/// The parameters of one page of the transaction history query.
pub open spec fn page_params(wallet: Seq<char>, limit: nat, offset: nat) -> Seq<(Seq<char>, Seq<char>)> {
    seq![("wallet_address"@, wallet), ("limit"@, decimal(limit)), ("offset"@, decimal(offset))]
}

/// The account lookup query for `address`.
pub fn account_query(template: &str, address: &str) -> (r: String)
    ensures
        r@ == rendered(template@, account_params(address@)),
{
    let params = vec![("address", address)];
    let r = render_query(template, params.as_slice());
    assert(crate::template::params_view(params@) =~= account_params(address@));
    r
}

/// The query for the page of `limit` transactions from `offset` on of
/// `wallet`.
pub fn transactions_page_query(template: &str, wallet: &str, limit: u64, offset: u64) -> (r: String)
    ensures
        r@ == rendered(template@, page_params(wallet@, limit as nat, offset as nat)),
{
    let limit_text = decimal_string(limit);
    let offset_text = decimal_string(offset);
    let params = vec![
        ("wallet_address", wallet),
        ("limit", limit_text.as_str()),
        ("offset", offset_text.as_str()),
    ];
    let r = render_query(template, params.as_slice());
    assert(crate::template::params_view(params@) =~= page_params(
        wallet@,
        limit as nat,
        offset as nat,
    ));
    r
}

/// Why a query failed.
#[derive(Clone, Debug, PartialEq, Eq)]
pub enum QueryError {
    /// No API key is configured; nothing was sent.
    NotConfigured,
    /// The request failed or its body was not JSON.
    Transport(String),
    /// The body held no `results` array; carries the body for diagnosis.
    UnexpectedResponse(String),
}

/// The API key to send, or `NotConfigured` when there is none, so that no
/// request goes out without one.
pub fn require_api_key(key: Option<String>) -> (r: Result<String, QueryError>)
    ensures
        match key {
            Some(k) => r == Ok::<String, QueryError>(k),
            None => r == Err::<String, QueryError>(QueryError::NotConfigured),
        },
{
    match key {
        Some(k) => Ok(k),
        None => Err(QueryError::NotConfigured),
    }
}

/// The records of a decoded response: its `results` array when it has one,
/// else `UnexpectedResponse` with the printed body.
pub fn results_or_error<V>(results: Option<Vec<V>>, body: String) -> (r: Result<Vec<V>, QueryError>)
    ensures
        match results {
            Some(v) => r == Ok::<Vec<V>, QueryError>(v),
            None => r == Err::<Vec<V>, QueryError>(QueryError::UnexpectedResponse(body)),
        },
{
    match results {
        Some(v) => Ok(v),
        None => Err(QueryError::UnexpectedResponse(body)),
    }
}

impl QueryError {
    /// The message shown to the user.
    pub fn message(&self) -> (r: String)
        ensures
            r@ == match self {
                QueryError::NotConfigured => "Transpose API key is not set. Please run 'setup' to set it."@,
                QueryError::Transport(m) => m@,
                QueryError::UnexpectedResponse(b) => "Unexpected API response: "@ + b@,
            },
    {
        match self {
            QueryError::NotConfigured => String::from_str(
                "Transpose API key is not set. Please run 'setup' to set it.",
            ),
            QueryError::Transport(m) => m.clone(),
            QueryError::UnexpectedResponse(b) => {
                let mut r = String::from_str("Unexpected API response: ");
                r.append(b.as_str());
                r
            },
        }
    }
}

} // verus!
