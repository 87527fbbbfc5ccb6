use crossroads::admin::endpoints::{activated, activation, created, delete_target, reload_component, reload_target, swapped, update_target};
use crossroads::admin::error::Error;
use crossroads::admin::errors::ApiError;
use crossroads::admin::loader::{LoadError, Loader, RegistryCredentials};
use crossroads::cli::evaluate;
use crossroads::configuration::validation::{decimal_string, is_valid_port};
use crossroads::configuration::Configuration;
use crossroads::database::error::Error as StoreError;
use crossroads::database::errors::DatabaseError;
use crossroads::proxy::{Proxy, ProxyMetadata, TimestampError};
use crossroads::{CompileError, RuntimeFault};

fn meta(tag: &str) -> ProxyMetadata {
    ProxyMetadata { tag: tag.to_string(), created_at: 1, updated_at: 2 }
}

#[test]
fn metadata_from_store_columns() {
    let m = ProxyMetadata::from_columns(
        "alpha:v1.0.0".to_string(),
        "2024-01-02 03:04:05",
        "2024-01-02 03:04:06",
    );
    assert_eq!(
        m,
        Ok(ProxyMetadata {
            tag: "alpha:v1.0.0".to_string(),
            created_at: 1704164645,
            updated_at: 1704164646
        })
    );
}

#[test]
fn metadata_rejects_bad_times() {
    assert_eq!(
        ProxyMetadata::from_columns("t".to_string(), "yesterday", "2024-01-02 03:04:05"),
        Err(TimestampError::CreatedAt)
    );
    assert_eq!(
        ProxyMetadata::from_columns("t".to_string(), "2024-01-02 03:04:05", "2024-13-02 03:04:05"),
        Err(TimestampError::UpdatedAt)
    );
}

#[test]
fn proxy_from_store_columns() {
    let p = Proxy::from_columns("beta".to_string(), "1970-01-01 00:00:10", "1970-01-01 00:01:00", vec![0; 10]);
    let p = p.unwrap();
    assert_eq!(p.metadata.created_at, 10);
    assert_eq!(p.metadata.updated_at, 60);
    assert_eq!(p.component, vec![0; 10]);
}

#[test]
fn stamped_metadata_uses_given_time() {
    assert_eq!(
        ProxyMetadata::stamped("a".to_string(), 1704164645),
        ProxyMetadata { tag: "a".to_string(), created_at: 1704164645, updated_at: 1704164645 }
    );
}

#[test]
fn decimal_text() {
    assert_eq!(decimal_string(0), "0");
    assert_eq!(decimal_string(7), "7");
    assert_eq!(decimal_string(10), "10");
    assert_eq!(decimal_string(65535), "65535");
}

#[test]
fn new_proxy_has_equal_times() {
    let p = Proxy::new("alpha:v1.0.0".to_string(), vec![1; 10]);
    assert_eq!(p.metadata.tag, "alpha:v1.0.0");
    assert_eq!(p.metadata.created_at, p.metadata.updated_at);
    assert_eq!(p.component, vec![1; 10]);
}

#[test]
fn store_error_texts() {
    assert_eq!(StoreError::UnableToReadRoads.to_string(), "Could not read the roads");
    assert_eq!(StoreError::UnableToCreateRoad.to_string(), "Could not create road");
    assert_eq!(StoreError::UnableToUpdateRoad.to_string(), "Could not update road");
    assert_eq!(StoreError::UnableToDeleteRoad.to_string(), "Could not delete road");
    assert_eq!(DatabaseError::UnableToReadRoads.to_string(), "Could not read the roads");
    assert_eq!(DatabaseError::UnableToCreateRoad.to_string(), "Could not create road");
    assert_eq!(DatabaseError::UnableToDeleteRoad.to_string(), "Could not delete road");
}

#[test]
fn admin_error_status_and_message() {
    assert_eq!(Error::TagAlreadyExists.status(), 409);
    assert_eq!(Error::TagAlreadyExists.message(), "Host already exists, use update instead");
    let e = Error::DatabaseError(StoreError::UnableToDeleteRoad);
    assert_eq!(e.status(), 500);
    assert_eq!(e.message(), "Could not delete road");
    assert_eq!(Error::FailedToSendMessage.message(), "Failed to send message");
    assert_eq!(Error::FailedToLoad("nope".to_string()).message(), "Failed to load: nope");
}

#[test]
fn api_error_status_and_message() {
    let e = ApiError::InvalidIp("1.2.3".to_string());
    assert_eq!(e.status(), 400);
    assert_eq!(e.message(), "Invalid IPv4 address: 1.2.3");
    assert_eq!(ApiError::HostAlreadyExists.status(), 409);
    assert_eq!(ApiError::NotFound.status(), 404);
    assert_eq!(ApiError::NotFound.message(), "Road not found");
    let e = ApiError::DatabaseError(DatabaseError::UnableToCreateRoad);
    assert_eq!(e.status(), 500);
    assert_eq!(e.message(), "Could not create road");
}

#[test]
fn loader_payload_and_registry() {
    assert_eq!(Loader::Payload(vec![1, 2, 3]).load(), Ok(vec![1, 2, 3]));
    let registry = Loader::Registry(RegistryCredentials {
        host: "registry.local".to_string(),
        login: None,
        tag: "alpha".to_string(),
    });
    assert_eq!(registry.load(), Err(LoadError::RegistryUnsupported));
}

#[test]
fn endpoint_decisions() {
    assert_eq!(created(Some(meta("a"))), Ok(201));
    assert_eq!(created(None), Err(Error::TagAlreadyExists));
    assert_eq!(activation(None), Err(404));
    assert_eq!(
        activation(Some(Proxy { metadata: meta("a"), component: vec![7] })),
        Ok(vec![7])
    );
    assert_eq!(
        reload_target(&meta("a"), None),
        Err(Error::DatabaseError(StoreError::UnableToReadRoads))
    );
    assert_eq!(reload_target(&meta("a"), Some(meta("a"))), Ok(Some("a".to_string())));
    assert_eq!(reload_target(&meta("a"), Some(meta("b"))), Ok(None));
    assert_eq!(
        reload_component(None),
        Err(Error::DatabaseError(StoreError::UnableToReadRoads))
    );
    assert_eq!(swapped(Ok(())), Ok(200));
    assert_eq!(update_target(None), Err(404));
    assert_eq!(update_target(Some(meta("a"))), Ok(meta("a")));
    assert_eq!(delete_target(None), Err(200));
    assert_eq!(delete_target(Some(meta("b"))), Ok(meta("b")));
    assert_eq!(activated(Ok(())), Ok(200));
    assert_eq!(
        activated(Err(RuntimeFault::Trap("t".to_string()))),
        Err(Error::DatabaseError(StoreError::UnableToReadRoads))
    );
    assert_eq!(
        swapped(Err(RuntimeFault::Compile(CompileError::MissingEntryPoint))),
        Err(Error::FailedToSendMessage)
    );
}

#[test]
fn port_rule() {
    assert!(is_valid_port(&80).is_ok());
    assert!(is_valid_port(&443).is_ok());
    assert!(is_valid_port(&1024).is_ok());
    assert!(is_valid_port(&65535).is_ok());
    assert_eq!(
        is_valid_port(&22),
        Err("Invalid port value of 22. Value has to be 80, 443 or greater than 1023".to_string())
    );
    assert_eq!(
        is_valid_port(&1023),
        Err("Invalid port value of 1023. Value has to be 80, 443 or greater than 1023".to_string())
    );
    assert_eq!(
        is_valid_port(&0),
        Err("Invalid port value of 0. Value has to be 80, 443 or greater than 1023".to_string())
    );
}

#[test]
fn defaults_and_evaluate() {
    let c = Configuration::default();
    assert_eq!(c.api.port, 8150);
    assert_eq!(c.gateway.port, 80);
    assert_eq!(c.api.database.name, "roads");
    assert_eq!(c.api.database.path, ".");
    assert!(c.api.proxys.is_empty());
    assert_eq!(evaluate(None), Ok(Configuration::default()));
    assert_eq!(evaluate(Some(Err("bad file".to_string()))), Err("bad file".to_string()));
    let mut custom = Configuration::default();
    custom.gateway.port = 8080;
    assert_eq!(evaluate(Some(Ok(Configuration::default()))).unwrap().gateway.port, 80);
    assert_eq!(evaluate(Some(Ok(custom))).unwrap().gateway.port, 8080);
}
