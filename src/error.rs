use vstd::prelude::*;

verus! {

/// The error taxonomy of the application, with a stable numeric code for each kind.
#[derive(Debug, Clone)]
pub enum AppError {
    DatabaseError(String),
    ApiError(String),
    InvalidToken,
    TunnelNotFound,
    ServiceNotFound,
    RouteNotFound,
    ConfigError(String),
    NetworkError(String),
    Unauthorized,
    InternalError,
}

impl AppError {
    /// The stable code that callers match on.
    pub open spec fn spec_code(&self) -> u32 {
        match self {
            AppError::DatabaseError(_) => 1001,
            AppError::ApiError(_) => 1002,
            AppError::InvalidToken => 1003,
            AppError::TunnelNotFound => 1004,
            AppError::ServiceNotFound => 1005,
            AppError::RouteNotFound => 1006,
            AppError::ConfigError(_) => 1007,
            AppError::NetworkError(_) => 1008,
            AppError::Unauthorized => 1009,
            AppError::InternalError => 1010,
        }
    }

    /// The human-readable text of the error.
    pub open spec fn spec_message(&self) -> Seq<char> {
        match self {
            AppError::DatabaseError(m) => "Database error: "@ + m@,
            AppError::ApiError(m) => "API error: "@ + m@,
            AppError::InvalidToken => "Invalid token"@,
            AppError::TunnelNotFound => "Tunnel not found"@,
            AppError::ServiceNotFound => "Service not found"@,
            AppError::RouteNotFound => "Route not found"@,
            AppError::ConfigError(m) => "Configuration error: "@ + m@,
            AppError::NetworkError(m) => "Network error: "@ + m@,
            AppError::Unauthorized => "Unauthorized"@,
            AppError::InternalError => "Internal server error"@,
        }
    }

    pub fn code(&self) -> (r: u32)
        ensures
            r == self.spec_code(),
    {
        match self {
            AppError::DatabaseError(_) => 1001,
            AppError::ApiError(_) => 1002,
            AppError::InvalidToken => 1003,
            AppError::TunnelNotFound => 1004,
            AppError::ServiceNotFound => 1005,
            AppError::RouteNotFound => 1006,
            AppError::ConfigError(_) => 1007,
            AppError::NetworkError(_) => 1008,
            AppError::Unauthorized => 1009,
            AppError::InternalError => 1010,
        }
    }

    /// The text of the error, as a caller would display it.
    pub fn message(&self) -> (r: String)
        ensures
            r@ == self.spec_message(),
    {
        match self {
            AppError::DatabaseError(m) => String::from_str("Database error: ").concat(m.as_str()),
            AppError::ApiError(m) => String::from_str("API error: ").concat(m.as_str()),
            AppError::InvalidToken => String::from_str("Invalid token"),
            AppError::TunnelNotFound => String::from_str("Tunnel not found"),
            AppError::ServiceNotFound => String::from_str("Service not found"),
            AppError::RouteNotFound => String::from_str("Route not found"),
            AppError::ConfigError(m) => String::from_str("Configuration error: ").concat(m.as_str()),
            AppError::NetworkError(m) => String::from_str("Network error: ").concat(m.as_str()),
            AppError::Unauthorized => String::from_str("Unauthorized"),
            AppError::InternalError => String::from_str("Internal server error"),
        }
    }
}

} // verus!
