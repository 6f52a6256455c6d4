use lua_bridge::error::Error;
use std::sync::Arc;

#[test]
fn bad_self_argument_names_the_callable_and_the_first_argument() {
    let error = Error::bad_self_argument("Counter.increment", Error::UserDataTypeMismatch);
    assert_eq!(
        error,
        Error::BadArgument {
            to: Some("Counter.increment".to_string()),
            pos: 1,
            name: Some("self".to_string()),
            cause: Arc::new(Error::UserDataTypeMismatch),
        }
    );
}

#[test]
fn conversion_failure_keeps_its_parts() {
    let error = Error::from_lua_conversion("missing argument", "userdata", None);
    assert_eq!(
        error,
        Error::FromLuaConversionError {
            from: "missing argument",
            to: "userdata".to_string(),
            message: None,
        }
    );
    let with_message = Error::from_lua_conversion("table", "Counter", Some("no".to_string()));
    assert_eq!(
        with_message,
        Error::FromLuaConversionError {
            from: "table",
            to: "Counter".to_string(),
            message: Some("no".to_string()),
        }
    );
}

#[test]
fn external_error_holds_the_message() {
    assert_eq!(
        Error::external("boom".to_string()),
        Error::ExternalError("boom".to_string())
    );
}
