use trailblazer::constants::{config_file_name, DEFAULT_CONFIG_FILE_PATH};
use trailblazer::loadbalancer::ApplicationError;
use trailblazer::text::u64_to_decimal;
use trailblazer::worker::ApplicationError as WorkerError;
use trailblazer::basic::ApplicationError as BasicError;

#[test]
fn test_application_error_display() {
    let errors = vec![
        ApplicationError::ConfigFileNotFound("test.toml".to_string()),
        ApplicationError::EnvConfigNotFound("TEST_VAR".to_string()),
        ApplicationError::PortCanNotBind(8080),
        ApplicationError::ServerError,
        ApplicationError::HealthCheckError,
    ];

    for error in errors {
        let error_string = error.message();
        assert!(
            !error_string.is_empty(),
            "Error message should not be empty"
        );

        match error {
            ApplicationError::ConfigFileNotFound(path) => {
                assert!(error_string.contains(&path));
            }
            ApplicationError::EnvConfigNotFound(var) => {
                assert!(error_string.contains(&var));
            }
            ApplicationError::PortCanNotBind(port) => {
                assert!(error_string.contains(&port.to_string()));
            }
            _ => {}
        }
    }
}

#[test]
fn test_application_error_debug() {
    let error = ApplicationError::ServerError;
    let debug_string = format!("{:?}", error);
    assert!(!debug_string.is_empty(), "Debug output should not be empty");
}

#[test]
fn application_error_exact_messages() {
    assert_eq!(
        ApplicationError::ConfigFileNotFound("a.toml".to_string()).message(),
        "Config file not found:a.toml"
    );
    assert_eq!(
        ApplicationError::EnvConfigNotFound("X".to_string()).message(),
        "Env var X not found"
    );
    assert_eq!(
        ApplicationError::PortCanNotBind(0).message(),
        "Port 0 is not available"
    );
    assert_eq!(
        ApplicationError::PortCanNotBind(65535).message(),
        "Port 65535 is not available"
    );
    assert_eq!(ApplicationError::ServerError.message(), "Server Error");
    assert_eq!(ApplicationError::HealthCheckError.message(), "Health check error");
}

#[test]
fn worker_application_error_messages() {
    assert_eq!(WorkerError::ConfigInvalid.message(), "Config Invalid");
    assert_eq!(WorkerError::ServerError.message(), "Server Error");
    assert_eq!(WorkerError::PortCanNotBind(8001).message(), "Port 8001 is not available");
    assert_eq!(
        WorkerError::ConfigFileNotFound("w.toml".to_string()).message(),
        "Config file not found:w.toml"
    );
}

#[test]
fn basic_application_error_messages() {
    assert_eq!(BasicError::ConfigInvalid.message(), "Config Invalid");
    assert_eq!(BasicError::UnexpectedError.message(), "Unexpected Error");
    assert_eq!(
        BasicError::EnvConfigNotFound("V".to_string()).message(),
        "Env var V not found"
    );
}

#[test]
fn decimal_rendering() {
    assert_eq!(u64_to_decimal(0), "0");
    assert_eq!(u64_to_decimal(7), "7");
    assert_eq!(u64_to_decimal(10), "10");
    assert_eq!(u64_to_decimal(8080), "8080");
    assert_eq!(u64_to_decimal(u64::MAX), u64::MAX.to_string());
}

#[test]
fn config_file_name_prefers_environment() {
    assert_eq!(config_file_name(None), DEFAULT_CONFIG_FILE_PATH);
    assert_eq!(config_file_name(Some("other.toml".to_string())), "other.toml");
}
