use bambangshop::notification;
use bambangshop::notification::Response;
use bambangshop::registry::Registry;
use bambangshop::registry::RegistryError;
use bambangshop::subscriber::Subscriber;

#[test]
fn subscribe_endpoint_returns_created() {
    let mut r = Registry::new();
    let resp = notification::subscribe(
        &mut r,
        &"electronics".to_string(),
        Subscriber::new("http://a".to_string(), "A".to_string()),
    );
    match resp {
        Response::Success { status, body, location } => {
            assert_eq!(status, 201);
            assert_eq!(body.url, "http://a");
            assert_eq!(body.name, "A");
            assert_eq!(location.as_deref(), Some("/"));
        },
        Response::Failure { .. } => panic!("subscribe refused a fresh registration"),
    }
}

#[test]
fn subscribe_then_unsubscribe_then_repeat_scenario() {
    let mut r = Registry::new();
    let topic = "electronics".to_string();
    let url = "http://a".to_string();

    let created = notification::subscribe(
        &mut r,
        &topic,
        Subscriber::new("http://a".to_string(), "A".to_string()),
    );
    match created {
        Response::Success { status, body, .. } => {
            assert_eq!(status, 201);
            assert_eq!(body.url, "http://a");
            assert_eq!(body.name, "A");
        },
        Response::Failure { .. } => panic!("subscribe refused a fresh registration"),
    }

    let removed = notification::unsubscribe(&mut r, &topic, &url);
    match removed {
        Response::Success { status, body, location } => {
            assert_eq!(status, 200);
            assert_eq!(body.url, "http://a");
            assert_eq!(body.name, "A");
            assert!(location.is_none());
        },
        Response::Failure { .. } => panic!("unsubscribe refused an existing registration"),
    }

    let repeated = notification::unsubscribe(&mut r, &topic, &url);
    match repeated {
        Response::Success { .. } => panic!("unsubscribe accepted a missing registration"),
        Response::Failure { status, error } => {
            assert_eq!(status, 404);
            assert_eq!(error, RegistryError::NotFound);
        },
    }
}

#[test]
fn duplicate_subscribe_endpoint_returns_conflict() {
    let mut r = Registry::new();
    let topic = "electronics".to_string();
    notification::subscribe(
        &mut r,
        &topic,
        Subscriber::new("http://a".to_string(), "A".to_string()),
    );
    let resp = notification::subscribe(
        &mut r,
        &topic,
        Subscriber::new("http://a".to_string(), "Other".to_string()),
    );
    match resp {
        Response::Success { .. } => panic!("subscribe accepted a duplicate registration"),
        Response::Failure { status, error } => {
            assert_eq!(status, 409);
            assert_eq!(error, RegistryError::Conflict);
        },
    }
}

#[test]
fn error_codes_match_error_kinds() {
    assert_eq!(notification::error_code(RegistryError::NotFound), 404);
    assert_eq!(notification::error_code(RegistryError::Conflict), 409);
}
