use carteira::error::{AppError, ErrorResponse};

fn all_errors() -> Vec<(AppError, u16, &'static str)> {
    vec![
        (AppError::MissingAuthorization, 400, "Missing Authorization Headers"),
        (AppError::Unauthorized, 401, "Unauthorized access"),
        (AppError::InvalidCredentials, 401, "Invalid Credentials"),
        (AppError::AssetDoesNotExist, 404, "Asset does not exist"),
        (AppError::UserDoesNotExist, 404, "User does not exist"),
        (AppError::UsernameTaken, 400, "This username is already registered"),
        (AppError::InvalidQuantity, 400, "Quantity must be greater than zero"),
        (AppError::InvalidUnitPrice, 400, "Unit price must be greater than zero"),
        (AppError::InsufficientQuantity, 400, "Insufficient asset quantity for this operation"),
        (AppError::InternalServerError, 500, "Internal server error"),
        (AppError::Database("connection refused".to_string()), 500, "connection refused"),
        (AppError::Template("missing field".to_string()), 500, "missing field"),
        (AppError::Jwt("token expired".to_string()), 500, "token expired"),
    ]
}

#[test]
fn every_error_has_its_status() {
    for (error, status, _) in all_errors() {
        assert_eq!(error.status_code(), status, "{:?}", error);
    }
}

#[test]
fn every_error_has_its_message() {
    for (error, _, message) in all_errors() {
        assert_eq!(error.message(), message);
    }
}

#[test]
fn response_parts_carry_status_and_message() {
    for (error, status, message) in all_errors() {
        let (code, body) = error.response_parts();
        assert_eq!(code, status);
        assert_eq!(body.error(), message);
    }
}

#[test]
fn client_errors_are_4xx_and_server_failures_500() {
    for (error, _, _) in all_errors() {
        let code = error.status_code();
        let server_side = matches!(
            error,
            AppError::InternalServerError
                | AppError::Database(_)
                | AppError::Template(_)
                | AppError::Jwt(_)
        );
        assert_eq!(code == 500, server_side);
        assert!((400..500).contains(&code) || code == 500);
    }
}

#[test]
fn error_response_holds_its_message() {
    let body = ErrorResponse::new("Asset does not exist".to_string());
    assert_eq!(body.error(), "Asset does not exist");
}
