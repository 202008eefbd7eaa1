use postg::config::{Config, Engine};
use postg::test_attr::{
    check_test_signature, engine_override, param_binding, test_config, ParamBinding,
    TestAttrError,
};

#[test]
fn test_functions_must_be_async_with_at_most_one_parameter() {
    assert_eq!(check_test_signature(false, 0), Err(TestAttrError::NotAsync));
    assert_eq!(check_test_signature(false, 2), Err(TestAttrError::NotAsync));
    assert_eq!(check_test_signature(true, 2), Err(TestAttrError::TooManyParams));
    assert_eq!(check_test_signature(true, 1), Ok(()));
    assert_eq!(check_test_signature(true, 0), Ok(()));
}

#[test]
fn parameters_are_bound_by_type() {
    assert_eq!(param_binding("String"), Ok(ParamBinding::ConnectionString));
    assert_eq!(param_binding("postg :: engine :: Postg"), Ok(ParamBinding::Instance));
    assert_eq!(param_binding("Postg"), Ok(ParamBinding::Instance));
    assert_eq!(param_binding("& str"), Err(TestAttrError::UnsupportedParamType));
    assert_eq!(
        TestAttrError::UnsupportedParamType.message(),
        "unsupported parameter type. Expected `String` or `postg::engine::Postg`"
    );
    assert_eq!(
        TestAttrError::NotAsync.message(),
        "the #[postg::test] macro requires an async function"
    );
}

#[test]
fn engine_attribute_selects_spock() {
    assert_eq!(engine_override("engine = \"postgresql-spock\""), Some(Engine::Spock));
    assert_eq!(engine_override(""), None);
    assert_eq!(engine_override("engine = \"postgresql\""), None);
    let defaults = Config {
        temporary: false,
        ..Config::default_with(None, "/tmp".to_string(), 9)
    };
    let c = test_config(defaults.clone(), "engine = \"postgresql-spock\"");
    assert_eq!(c.engine, Engine::Spock);
    assert!(c.temporary);
    let c = test_config(defaults, "");
    assert_eq!(c.engine, Engine::Vanilla);
    assert!(c.temporary);
}
