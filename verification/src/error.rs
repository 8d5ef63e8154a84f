//! The service's errors and what each is answered with.
use vstd::prelude::*;
use vstd::string::*;

verus! {

/// An error of a request, with the detail that some kinds carry.
#[derive(Debug)]
pub enum AppError {
    Database(String),
    BadRequest(String),
    Conflict(String),
    Internal(String),
    InvalidCredentials,
    NotFound,
    ValidationError(String),
    Unauthorized,
    Forbidden(String),
    RedisError(String),
    TooManyRequests,
}

/// The text that describes an error (its display form).
pub open spec fn spec_error_text(e: AppError) -> Seq<char> {
    match e {
        AppError::Database(m) => "Database error: "@ + m@,
        AppError::BadRequest(m) => "Invalid request: "@ + m@,
        AppError::Conflict(m) => "Conflict: "@ + m@,
        AppError::Internal(m) => "Internal server error: "@ + m@,
        AppError::InvalidCredentials => "Invalid credentials"@,
        AppError::NotFound => "Not found"@,
        AppError::ValidationError(m) => "Validation error: "@ + m@,
        AppError::Unauthorized => "Unauthorized access"@,
        AppError::Forbidden(m) => "Forbidden: "@ + m@,
        AppError::RedisError(m) => "Redis error: "@ + m@,
        AppError::TooManyRequests => "Too many requests"@,
    }
}

/// The HTTP status, the machine-readable code and the client-facing message
/// that an error is answered with. Failures of storage and internals are answered
/// with a fixed message; the caller's own mistakes carry their detail.
pub open spec fn spec_error_codes(e: AppError) -> (u16, Seq<char>, Seq<char>) {
    match e {
        AppError::Database(_) => (500, "DATABASE_ERROR"@, "Erro de persistência de dados"@),
        AppError::BadRequest(m) => (400, "BAD_REQUEST"@, m@),
        AppError::InvalidCredentials => (401, "AUTH_INVALID_CREDENTIALS"@, "Invalid credentials"@),
        AppError::Unauthorized => (
            401,
            "AUTH_REQUIRED"@,
            "Autenticação necessária para acessar este recurso"@,
        ),
        AppError::Forbidden(m) => (403, "AUTH_FORBIDDEN"@, m@),
        AppError::Conflict(m) => (409, "RESOURCE_CONFLICT"@, m@),
        AppError::NotFound => (404, "RESOURCE_NOT_FOUND"@, "Recurso não encontrado"@),
        AppError::ValidationError(m) => (400, "VALIDATION_ERROR"@, m@),
        AppError::RedisError(_) => (500, "CACHE_ERROR"@, "Erro no serviço de sessão"@),
        AppError::Internal(_) => (500, "INTERNAL_ERROR"@, "Um erro inesperado ocorreu"@),
        AppError::TooManyRequests => (
            429,
            "RATE_LIMIT_EXCEEDED"@,
            "Muitas requisições. Tente novamente em 1 minuto."@,
        ),
    }
}

fn prefixed(prefix: &str, detail: &String) -> (r: String)
    ensures
        r@ == prefix@ + detail@,
{
    String::from_str(prefix).concat(detail.as_str())
}

impl AppError {
    /// The text that describes this error.
    pub fn to_text(&self) -> (r: String)
        ensures
            r@ == spec_error_text(*self),
    {
        match self {
            AppError::Database(m) => prefixed("Database error: ", m),
            AppError::BadRequest(m) => prefixed("Invalid request: ", m),
            AppError::Conflict(m) => prefixed("Conflict: ", m),
            AppError::Internal(m) => prefixed("Internal server error: ", m),
            AppError::InvalidCredentials => String::from_str("Invalid credentials"),
            AppError::NotFound => String::from_str("Not found"),
            AppError::ValidationError(m) => prefixed("Validation error: ", m),
            AppError::Unauthorized => String::from_str("Unauthorized access"),
            AppError::Forbidden(m) => prefixed("Forbidden: ", m),
            AppError::RedisError(m) => prefixed("Redis error: ", m),
            AppError::TooManyRequests => String::from_str("Too many requests"),
        }
    }

    /// The HTTP status, the error code and the message that this error is answered with.
    pub fn get_codes(&self) -> (r: (u16, &'static str, String))
        ensures
            (r.0, r.1@, r.2@) == spec_error_codes(*self),
    {
        match self {
            AppError::Database(_) => (500, "DATABASE_ERROR", String::from_str("Erro de persistência de dados")),
            AppError::BadRequest(m) => (400, "BAD_REQUEST", m.clone()),
            AppError::InvalidCredentials => (401, "AUTH_INVALID_CREDENTIALS", self.to_text()),
            AppError::Unauthorized => (
                401,
                "AUTH_REQUIRED",
                String::from_str("Autenticação necessária para acessar este recurso"),
            ),
            AppError::Forbidden(m) => (403, "AUTH_FORBIDDEN", m.clone()),
            AppError::Conflict(m) => (409, "RESOURCE_CONFLICT", m.clone()),
            AppError::NotFound => (404, "RESOURCE_NOT_FOUND", String::from_str("Recurso não encontrado")),
            AppError::ValidationError(m) => (400, "VALIDATION_ERROR", m.clone()),
            AppError::RedisError(_) => (500, "CACHE_ERROR", String::from_str("Erro no serviço de sessão")),
            AppError::Internal(_) => (500, "INTERNAL_ERROR", String::from_str("Um erro inesperado ocorreu")),
            AppError::TooManyRequests => (
                429,
                "RATE_LIMIT_EXCEEDED",
                String::from_str("Muitas requisições. Tente novamente em 1 minuto."),
            ),
        }
    }
}

/// Errors that come of a failure of storage or of the service itself are answered
/// with status 500 and a message that does not depend on the detail they carry.
pub proof fn law_server_failures_hide_their_detail(d1: String, d2: String)
    ensures
        spec_error_codes(AppError::Database(d1)) == spec_error_codes(AppError::Database(d2)),
        spec_error_codes(AppError::RedisError(d1)) == spec_error_codes(AppError::RedisError(d2)),
        spec_error_codes(AppError::Internal(d1)) == spec_error_codes(AppError::Internal(d2)),
        spec_error_codes(AppError::Database(d1)).0 == 500,
        spec_error_codes(AppError::RedisError(d1)).0 == 500,
        spec_error_codes(AppError::Internal(d1)).0 == 500,
{
}

/// Every error is answered with a status of the client-error or server-error classes.
pub proof fn law_errors_answer_with_error_status(e: AppError)
    ensures
        400 <= spec_error_codes(e).0 < 600,
{
}

} // verus!
