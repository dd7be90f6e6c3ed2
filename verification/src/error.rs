use vstd::prelude::*;

verus! {

/// Every failure that the application reports to a client.
///
/// The variants that wrap a failure of the database, of template rendering
/// or of token handling carry the message of that failure.
#[derive(Debug)]
pub enum AppError {
    MissingAuthorization,
    Unauthorized,
    InvalidCredentials,
    AssetDoesNotExist,
    UserDoesNotExist,
    UsernameTaken,
    InvalidQuantity,
    InvalidUnitPrice,
    InsufficientQuantity,
    InternalServerError,
    Database(String),
    Template(String),
    Jwt(String),
}

/// HTTP status "Bad Request".
pub open spec fn bad_request() -> u16 {
    400
}

/// HTTP status "Unauthorized".
pub open spec fn unauthorized() -> u16 {
    401
}

/// HTTP status "Not Found".
pub open spec fn not_found() -> u16 {
    404
}

/// HTTP status "Internal Server Error".
pub open spec fn internal_server_error() -> u16 {
    500
}

impl AppError {
    /// The HTTP status with which the error is answered.
    pub open spec fn spec_status(self) -> u16 {
        match self {
            AppError::UsernameTaken
            | AppError::MissingAuthorization
            | AppError::InvalidQuantity
            | AppError::InvalidUnitPrice
            | AppError::InsufficientQuantity => bad_request(),
            AppError::InvalidCredentials | AppError::Unauthorized => unauthorized(),
            AppError::AssetDoesNotExist | AppError::UserDoesNotExist => not_found(),
            AppError::InternalServerError
            | AppError::Database(_)
            | AppError::Template(_)
            | AppError::Jwt(_) => internal_server_error(),
        }
    }

    /// The human readable text of the error; a wrapped failure shows its own text.
    pub open spec fn spec_message(self) -> Seq<char> {
        match self {
            AppError::MissingAuthorization => "Missing Authorization Headers"@,
            AppError::Unauthorized => "Unauthorized access"@,
            AppError::InvalidCredentials => "Invalid Credentials"@,
            AppError::AssetDoesNotExist => "Asset does not exist"@,
            AppError::UserDoesNotExist => "User does not exist"@,
            AppError::UsernameTaken => "This username is already registered"@,
            AppError::InvalidQuantity => "Quantity must be greater than zero"@,
            AppError::InvalidUnitPrice => "Unit price must be greater than zero"@,
            AppError::InsufficientQuantity => "Insufficient asset quantity for this operation"@,
            AppError::InternalServerError => "Internal server error"@,
            AppError::Database(m) => m@,
            AppError::Template(m) => m@,
            AppError::Jwt(m) => m@,
        }
    }

    /// The HTTP status of this error.
    pub fn status_code(&self) -> (status: u16)
        ensures
            status == self.spec_status(),
            (self is UsernameTaken || self is MissingAuthorization || self is InvalidQuantity
                || self is InvalidUnitPrice || self is InsufficientQuantity) ==> status == 400,
            (self is InvalidCredentials || self is Unauthorized) ==> status == 401,
            (self is AssetDoesNotExist || self is UserDoesNotExist) ==> status == 404,
            (self is InternalServerError || self is Database || self is Template || self is Jwt)
                ==> status == 500,
    {
        match self {
            AppError::UsernameTaken
            | AppError::MissingAuthorization
            | AppError::InvalidQuantity
            | AppError::InvalidUnitPrice
            | AppError::InsufficientQuantity => 400,
            AppError::InvalidCredentials | AppError::Unauthorized => 401,
            AppError::AssetDoesNotExist | AppError::UserDoesNotExist => 404,
            AppError::InternalServerError
            | AppError::Database(_)
            | AppError::Template(_)
            | AppError::Jwt(_) => 500,
        }
    }

    /// The text of this error.
    pub fn message(&self) -> (text: String)
        ensures
            text@ == self.spec_message(),
            self matches AppError::Database(m) ==> text@ == m@,
            self matches AppError::Template(m) ==> text@ == m@,
            self matches AppError::Jwt(m) ==> text@ == m@,
            self is MissingAuthorization ==> text@ == "Missing Authorization Headers"@,
            self is Unauthorized ==> text@ == "Unauthorized access"@,
            self is InvalidCredentials ==> text@ == "Invalid Credentials"@,
            self is AssetDoesNotExist ==> text@ == "Asset does not exist"@,
            self is UserDoesNotExist ==> text@ == "User does not exist"@,
            self is UsernameTaken ==> text@ == "This username is already registered"@,
            self is InvalidQuantity ==> text@ == "Quantity must be greater than zero"@,
            self is InvalidUnitPrice ==> text@ == "Unit price must be greater than zero"@,
            self is InsufficientQuantity ==> text@
                == "Insufficient asset quantity for this operation"@,
            self is InternalServerError ==> text@ == "Internal server error"@,
    {
        match self {
            AppError::MissingAuthorization => String::from_str("Missing Authorization Headers"),
            AppError::Unauthorized => String::from_str("Unauthorized access"),
            AppError::InvalidCredentials => String::from_str("Invalid Credentials"),
            AppError::AssetDoesNotExist => String::from_str("Asset does not exist"),
            AppError::UserDoesNotExist => String::from_str("User does not exist"),
            AppError::UsernameTaken => String::from_str("This username is already registered"),
            AppError::InvalidQuantity => String::from_str("Quantity must be greater than zero"),
            AppError::InvalidUnitPrice => String::from_str("Unit price must be greater than zero"),
            AppError::InsufficientQuantity => String::from_str(
                "Insufficient asset quantity for this operation",
            ),
            AppError::InternalServerError => String::from_str("Internal server error"),
            AppError::Database(m) => m.clone(),
            AppError::Template(m) => m.clone(),
            AppError::Jwt(m) => m.clone(),
        }
    }
}

/// The errors that a client causes are answered with a 4xx status, and only
/// the failures of the server itself (an internal error, or a failure of the
/// database, of rendering or of token handling) with 500.
pub proof fn lemma_status_classes(e: AppError)
    ensures
        400 <= e.spec_status() < 500 || e.spec_status() == 500,
        e.spec_status() == 500 <==> (e is InternalServerError || e is Database || e is Template
            || e is Jwt),
{
}

/// A request the client got wrong (a missing session, a taken name, a bad
/// quantity or price) is answered 400; a refused identity (wrong credentials,
/// not the administrator) 401; something that does not exist 404; a failure
/// of the server 500. A wrapped failure is answered with its own text.
pub proof fn lemma_status_groups()
    ensures
        AppError::MissingAuthorization.spec_status() == 400,
        AppError::UsernameTaken.spec_status() == 400,
        AppError::InvalidQuantity.spec_status() == 400,
        AppError::InvalidUnitPrice.spec_status() == 400,
        AppError::InsufficientQuantity.spec_status() == 400,
        AppError::InvalidCredentials.spec_status() == 401,
        AppError::Unauthorized.spec_status() == 401,
        AppError::AssetDoesNotExist.spec_status() == 404,
        AppError::UserDoesNotExist.spec_status() == 404,
        AppError::InternalServerError.spec_status() == 500,
        forall|m: String|
            #[trigger] AppError::Database(m).spec_status() == 500 && AppError::Template(
                m,
            ).spec_status() == 500 && AppError::Jwt(m).spec_status() == 500,
        forall|m: String|
            #[trigger] AppError::Database(m).spec_message() == m@ && AppError::Template(
                m,
            ).spec_message() == m@ && AppError::Jwt(m).spec_message() == m@,
{
}

/// The JSON body with which an error is answered: `{"error": <message>}`.
pub struct ErrorResponse {
    error: String,
}

impl ErrorResponse {
    /// The message that the body carries.
    pub closed spec fn spec_error(&self) -> Seq<char> {
        self.error@
    }

    /// A body that carries `error`.
    pub fn new(error: String) -> (response: ErrorResponse)
        ensures
            response.spec_error() == error@,
    {
        ErrorResponse { error }
    }

    /// The message that the body carries.
    pub fn error(&self) -> (text: &String)
        ensures
            text@ == self.spec_error(),
    {
        &self.error
    }
}

impl AppError {
    /// What an error is answered with: its HTTP status and a body that carries
    /// its message.
    pub fn response_parts(&self) -> (parts: (u16, ErrorResponse))
        ensures
            parts.0 == self.spec_status(),
            parts.1.spec_error() == self.spec_message(),
    {
        let body = ErrorResponse::new(self.message());
        (self.status_code(), body)
    }
}

} // verus!
