//! The table of brand API operations: where each one lives and which verb it
//! is sent with.

use vstd::prelude::*;

verus! {

/// HTTP verb of a brand API call.
#[derive(Debug, Clone, Copy, PartialEq, Eq, Structural)]
pub enum HttpMethod {
    Get,
    Post,
    Put,
    Patch,
    Delete,
}

impl HttpMethod {
    /// The verb in upper case, as it is written in a request line.
    pub open spec fn name(self) -> Seq<char> {
        match self {
            HttpMethod::Get => "GET"@,
            HttpMethod::Post => "POST"@,
            HttpMethod::Put => "PUT"@,
            HttpMethod::Patch => "PATCH"@,
            HttpMethod::Delete => "DELETE"@,
        }
    }

    /// Whether a call with this verb carries the serialized request as its
    /// body. `GET` carries the request in the query instead.
    pub open spec fn has_body(self) -> bool {
        self != HttpMethod::Get
    }

    /// Renders the verb in upper case.
    pub fn as_str(&self) -> (text: &'static str)
        ensures
            text@ == self.name(),
    {
        match self {
            HttpMethod::Get => "GET",
            HttpMethod::Post => "POST",
            HttpMethod::Put => "PUT",
            HttpMethod::Patch => "PATCH",
            HttpMethod::Delete => "DELETE",
        }
    }

    /// Tells whether the serialized request travels in the body of the call.
    pub fn carries_body(&self) -> (carries: bool)
        ensures
            carries == self.has_body(),
    {
        match self {
            HttpMethod::Get => false,
            HttpMethod::Post | HttpMethod::Put | HttpMethod::Patch | HttpMethod::Delete => true,
        }
    }
}

/// One logical operation of the brand API.
#[derive(Debug, Clone, Copy, PartialEq, Eq, Structural)]
pub enum BrandApiEndpoint {
    CreateUser,
    CheckEmail,
    SetUserPassword,
    GetAccount,
    CreateAccount,
    ActivateAccount,
    RestrictAccount,
    SuspendAccount,
    SetAccountGroup,
    CloseAccountPositions,
    CreditAccount,
    GetInstruments,
    GetOpenedPositions,
    GetClosedTradesReport,
    GetGroups,
    GetAccountsReport,
    GetApiStatus,
    IsApiAlive,
    GetTradesReport,
    GetAssets,
    GetOrders,
    CancelOrder,
    Deposit,
    Withdraw,
}

/// Prefix shared by every brand API path.
pub open spec fn api_root() -> Seq<char> {
    "/brand-api"@
}

impl BrandApiEndpoint {
    /// The part of the path below the API root. Operations are versioned under
    /// `/v1`; the two health probes are not.
    pub open spec fn route(self) -> Seq<char> {
        match self {
            BrandApiEndpoint::CreateUser => "/v1/users/create"@,
            BrandApiEndpoint::CheckEmail => "/v1/users/check-by-email"@,
            BrandApiEndpoint::SetUserPassword => "/v1/users/set-password"@,
            BrandApiEndpoint::GetAccount => "/v1/accounts/details"@,
            BrandApiEndpoint::CreateAccount => "/v1/accounts/create"@,
            BrandApiEndpoint::ActivateAccount => "/v1/accounts/activate"@,
            BrandApiEndpoint::RestrictAccount => "/v1/accounts/restrict"@,
            BrandApiEndpoint::SuspendAccount => "/v1/accounts/suspend"@,
            BrandApiEndpoint::SetAccountGroup => "/v1/accounts/set-group"@,
            BrandApiEndpoint::CloseAccountPositions => "/v1/accounts/close-all-positions"@,
            BrandApiEndpoint::CreditAccount => "/v1/account-operations/credit"@,
            BrandApiEndpoint::GetInstruments => "/v1/brand/instruments"@,
            BrandApiEndpoint::GetOpenedPositions => "/v1/positions/get-open-positions"@,
            BrandApiEndpoint::GetClosedTradesReport => "/v1/reports/close-trades-history-report"@,
            BrandApiEndpoint::GetGroups => "/v1/groups/all"@,
            BrandApiEndpoint::GetAccountsReport => "/v1/reports/account-statement-report"@,
            BrandApiEndpoint::GetApiStatus => "/ready"@,
            BrandApiEndpoint::IsApiAlive => "/alive"@,
            BrandApiEndpoint::GetTradesReport => "/v1/reports/trades-history-report"@,
            BrandApiEndpoint::GetAssets => "/v1/brand/assets"@,
            BrandApiEndpoint::GetOrders => "/v1/orders/all"@,
            BrandApiEndpoint::CancelOrder => "/v1/orders/cancel"@,
            BrandApiEndpoint::Deposit => "/v1/account-operations/deposit"@,
            BrandApiEndpoint::Withdraw => "/v1/account-operations/withdraw"@,
        }
    }

    /// The path of the operation, from the first slash on.
    pub open spec fn path(self) -> Seq<char> {
        api_root() + self.route()
    }

    /// The verb of the operation.
    pub open spec fn http_method(self) -> HttpMethod {
        match self {
            BrandApiEndpoint::ActivateAccount
            | BrandApiEndpoint::RestrictAccount
            | BrandApiEndpoint::SuspendAccount
            | BrandApiEndpoint::SetAccountGroup => HttpMethod::Put,
            BrandApiEndpoint::GetApiStatus | BrandApiEndpoint::IsApiAlive => HttpMethod::Get,
            _ => HttpMethod::Post,
        }
    }

    /// The name of the operation, as it is written in diagnostics.
    pub open spec fn name(self) -> Seq<char> {
        match self {
            BrandApiEndpoint::CreateUser => "CreateUser"@,
            BrandApiEndpoint::CheckEmail => "CheckEmail"@,
            BrandApiEndpoint::SetUserPassword => "SetUserPassword"@,
            BrandApiEndpoint::GetAccount => "GetAccount"@,
            BrandApiEndpoint::CreateAccount => "CreateAccount"@,
            BrandApiEndpoint::ActivateAccount => "ActivateAccount"@,
            BrandApiEndpoint::RestrictAccount => "RestrictAccount"@,
            BrandApiEndpoint::SuspendAccount => "SuspendAccount"@,
            BrandApiEndpoint::SetAccountGroup => "SetAccountGroup"@,
            BrandApiEndpoint::CloseAccountPositions => "CloseAccountPositions"@,
            BrandApiEndpoint::CreditAccount => "CreditAccount"@,
            BrandApiEndpoint::GetInstruments => "GetInstruments"@,
            BrandApiEndpoint::GetOpenedPositions => "GetOpenedPositions"@,
            BrandApiEndpoint::GetClosedTradesReport => "GetClosedTradesReport"@,
            BrandApiEndpoint::GetGroups => "GetGroups"@,
            BrandApiEndpoint::GetAccountsReport => "GetAccountsReport"@,
            BrandApiEndpoint::GetApiStatus => "GetApiStatus"@,
            BrandApiEndpoint::IsApiAlive => "IsApiAlive"@,
            BrandApiEndpoint::GetTradesReport => "GetTradesReport"@,
            BrandApiEndpoint::GetAssets => "GetAssets"@,
            BrandApiEndpoint::GetOrders => "GetOrders"@,
            BrandApiEndpoint::CancelOrder => "CancelOrder"@,
            BrandApiEndpoint::Deposit => "Deposit"@,
            BrandApiEndpoint::Withdraw => "Withdraw"@,
        }
    }

    fn route_str(&self) -> (text: &'static str)
        ensures
            text@ == self.route(),
    {
        match self {
            BrandApiEndpoint::CreateUser => "/v1/users/create",
            BrandApiEndpoint::CheckEmail => "/v1/users/check-by-email",
            BrandApiEndpoint::SetUserPassword => "/v1/users/set-password",
            BrandApiEndpoint::GetAccount => "/v1/accounts/details",
            BrandApiEndpoint::CreateAccount => "/v1/accounts/create",
            BrandApiEndpoint::ActivateAccount => "/v1/accounts/activate",
            BrandApiEndpoint::RestrictAccount => "/v1/accounts/restrict",
            BrandApiEndpoint::SuspendAccount => "/v1/accounts/suspend",
            BrandApiEndpoint::SetAccountGroup => "/v1/accounts/set-group",
            BrandApiEndpoint::CloseAccountPositions => "/v1/accounts/close-all-positions",
            BrandApiEndpoint::CreditAccount => "/v1/account-operations/credit",
            BrandApiEndpoint::GetInstruments => "/v1/brand/instruments",
            BrandApiEndpoint::GetOpenedPositions => "/v1/positions/get-open-positions",
            BrandApiEndpoint::GetClosedTradesReport => "/v1/reports/close-trades-history-report",
            BrandApiEndpoint::GetGroups => "/v1/groups/all",
            BrandApiEndpoint::GetAccountsReport => "/v1/reports/account-statement-report",
            BrandApiEndpoint::GetApiStatus => "/ready",
            BrandApiEndpoint::IsApiAlive => "/alive",
            BrandApiEndpoint::GetTradesReport => "/v1/reports/trades-history-report",
            BrandApiEndpoint::GetAssets => "/v1/brand/assets",
            BrandApiEndpoint::GetOrders => "/v1/orders/all",
            BrandApiEndpoint::CancelOrder => "/v1/orders/cancel",
            BrandApiEndpoint::Deposit => "/v1/account-operations/deposit",
            BrandApiEndpoint::Withdraw => "/v1/account-operations/withdraw",
        }
    }

    /// Builds the path of the operation below the host, e.g.
    /// `/brand-api/v1/users/create`.
    pub fn to_path(&self) -> (text: String)
        ensures
            text@ == self.path(),
    {
        let root = "/brand-api".to_owned();
        root.concat(self.route_str())
    }

    /// The verb that the operation is sent with.
    pub fn get_http_method(&self) -> (method: HttpMethod)
        ensures
            method == self.http_method(),
    {
        match self {
            BrandApiEndpoint::CreateUser => HttpMethod::Post,
            BrandApiEndpoint::CheckEmail => HttpMethod::Post,
            BrandApiEndpoint::SetUserPassword => HttpMethod::Post,
            BrandApiEndpoint::GetAccount => HttpMethod::Post,
            BrandApiEndpoint::CreateAccount => HttpMethod::Post,
            BrandApiEndpoint::ActivateAccount => HttpMethod::Put,
            BrandApiEndpoint::RestrictAccount => HttpMethod::Put,
            BrandApiEndpoint::SuspendAccount => HttpMethod::Put,
            BrandApiEndpoint::SetAccountGroup => HttpMethod::Put,
            BrandApiEndpoint::CloseAccountPositions => HttpMethod::Post,
            BrandApiEndpoint::CreditAccount => HttpMethod::Post,
            BrandApiEndpoint::GetInstruments => HttpMethod::Post,
            BrandApiEndpoint::GetOpenedPositions => HttpMethod::Post,
            BrandApiEndpoint::GetClosedTradesReport => HttpMethod::Post,
            BrandApiEndpoint::GetGroups => HttpMethod::Post,
            BrandApiEndpoint::GetAccountsReport => HttpMethod::Post,
            BrandApiEndpoint::GetApiStatus => HttpMethod::Get,
            BrandApiEndpoint::IsApiAlive => HttpMethod::Get,
            BrandApiEndpoint::GetTradesReport => HttpMethod::Post,
            BrandApiEndpoint::GetAssets => HttpMethod::Post,
            BrandApiEndpoint::GetOrders => HttpMethod::Post,
            BrandApiEndpoint::CancelOrder => HttpMethod::Post,
            BrandApiEndpoint::Deposit => HttpMethod::Post,
            BrandApiEndpoint::Withdraw => HttpMethod::Post,
        }
    }

    /// The name of the operation for diagnostics.
    pub fn as_str(&self) -> (text: &'static str)
        ensures
            text@ == self.name(),
    {
        match self {
            BrandApiEndpoint::CreateUser => "CreateUser",
            BrandApiEndpoint::CheckEmail => "CheckEmail",
            BrandApiEndpoint::SetUserPassword => "SetUserPassword",
            BrandApiEndpoint::GetAccount => "GetAccount",
            BrandApiEndpoint::CreateAccount => "CreateAccount",
            BrandApiEndpoint::ActivateAccount => "ActivateAccount",
            BrandApiEndpoint::RestrictAccount => "RestrictAccount",
            BrandApiEndpoint::SuspendAccount => "SuspendAccount",
            BrandApiEndpoint::SetAccountGroup => "SetAccountGroup",
            BrandApiEndpoint::CloseAccountPositions => "CloseAccountPositions",
            BrandApiEndpoint::CreditAccount => "CreditAccount",
            BrandApiEndpoint::GetInstruments => "GetInstruments",
            BrandApiEndpoint::GetOpenedPositions => "GetOpenedPositions",
            BrandApiEndpoint::GetClosedTradesReport => "GetClosedTradesReport",
            BrandApiEndpoint::GetGroups => "GetGroups",
            BrandApiEndpoint::GetAccountsReport => "GetAccountsReport",
            BrandApiEndpoint::GetApiStatus => "GetApiStatus",
            BrandApiEndpoint::IsApiAlive => "IsApiAlive",
            BrandApiEndpoint::GetTradesReport => "GetTradesReport",
            BrandApiEndpoint::GetAssets => "GetAssets",
            BrandApiEndpoint::GetOrders => "GetOrders",
            BrandApiEndpoint::CancelOrder => "CancelOrder",
            BrandApiEndpoint::Deposit => "Deposit",
            BrandApiEndpoint::Withdraw => "Withdraw",
        }
    }
}

impl From<&BrandApiEndpoint> for String {
    /// The path of the operation below the host.
    fn from(item: &BrandApiEndpoint) -> (text: String)
        ensures
            text@ == item.path(),
    {
        item.to_path()
    }
}

/// A string is known by its characters only, so the conversion is specified
/// by the `ensures` of `from` and not by a value of `from_spec`.
impl vstd::std_specs::convert::FromSpecImpl<&BrandApiEndpoint> for String {
    open spec fn obeys_from_spec() -> bool {
        false
    }

    open spec fn from_spec(item: &BrandApiEndpoint) -> String {
        arbitrary()
    }
}

} // verus!
