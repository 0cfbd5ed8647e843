use vstd::prelude::*;

verus! {

/// State of one subscription as the license server reports it.
#[derive(Clone, Copy, Debug, PartialEq, Eq, Structural)]
pub enum UserSubscriptionStatus {
    Active,
    Expired,
    Cancelled,
}

/// Answer of the login / token exchange call.
#[derive(Debug)]
pub enum LoginResponse {
    Token(Token),
    /// A login approval is still outstanding.
    Pending(bool),
    /// The subscription has ended.
    Expired(bool),
    Error(String),
}

/// Credential bundle issued by the license server.
#[derive(Debug)]
pub struct Token {
    pub id: i64,
    pub email: String,
    pub access_token: String,
    pub access_token_expired_at: String,
    pub refresh_token: String,
    pub refresh_token_expired_at: String,
    pub machine_id: Option<String>,
}

impl Token {
    /// The empty credential that stands for "logged out".
    pub open spec fn is_logged_out(&self) -> bool {
        &&& self.id == 0
        &&& self.email@.len() == 0
        &&& self.access_token@.len() == 0
        &&& self.access_token_expired_at@.len() == 0
        &&& self.refresh_token@.len() == 0
        &&& self.refresh_token_expired_at@.len() == 0
        &&& self.machine_id is None
    }
}

impl Default for Token {
    fn default() -> (r: Token)
        ensures
            r.is_logged_out(),
    {
        Token {
            id: 0,
            email: String::new(),
            access_token: String::new(),
            access_token_expired_at: String::new(),
            refresh_token: String::new(),
            refresh_token_expired_at: String::new(),
            machine_id: None,
        }
    }
}

#[derive(Debug)]
pub struct OrderResponse {
    pub order: Order,
    /// The token issued with the order.
    pub token: String,
}

#[derive(Debug)]
pub struct Order {
    pub id: String,
}

#[derive(Clone, Copy, Debug, PartialEq, Eq, Structural)]
pub enum OrderStatus {
    Pending,
    Completed,
    Cancelled,
}

impl OrderStatus {
    pub open spec fn text_spec(self) -> Seq<char> {
        match self {
            OrderStatus::Pending => "Pending"@,
            OrderStatus::Completed => "Completed"@,
            OrderStatus::Cancelled => "Cancelled"@,
        }
    }

    /// Human-readable name.
    pub fn to_string(&self) -> (r: String)
        ensures
            r@ == self.text_spec(),
    {
        match self {
            OrderStatus::Pending => String::from_str("Pending"),
            OrderStatus::Completed => String::from_str("Completed"),
            OrderStatus::Cancelled => String::from_str("Cancelled"),
        }
    }
}

#[derive(Clone, Copy, Debug, PartialEq, Eq, Structural)]
pub enum PackageDuration {
    Monthly,
    Quarterly,
    SemiAnnual,
    Annual,
}

impl PackageDuration {
    pub open spec fn text_spec(self) -> Seq<char> {
        match self {
            PackageDuration::Monthly => "Monthly"@,
            PackageDuration::Quarterly => "Quarterly"@,
            PackageDuration::SemiAnnual => "Semi-Annual"@,
            PackageDuration::Annual => "Annual"@,
        }
    }

    /// Human-readable name.
    pub fn to_string(&self) -> (r: String)
        ensures
            r@ == self.text_spec(),
    {
        match self {
            PackageDuration::Monthly => String::from_str("Monthly"),
            PackageDuration::Quarterly => String::from_str("Quarterly"),
            PackageDuration::SemiAnnual => String::from_str("Semi-Annual"),
            PackageDuration::Annual => String::from_str("Annual"),
        }
    }
}

#[derive(Debug)]
pub struct PaymentUrlResponse {
    pub url: String,
}

/// The server's envelope: an error payload or the expected one, told apart
/// by which fields are present.
#[derive(Debug)]
pub enum GeneralResponse<T> {
    Error(ErrorResponse),
    Success(T),
}

#[derive(Debug)]
pub struct ErrorResponse {
    pub error: String,
}

#[derive(Debug)]
pub struct UpdateCheckResponse {
    pub force_update: Option<bool>,
    pub latest_version: Option<String>,
    pub description: Option<String>,
    pub download_url: Option<String>,
}

} // verus!
