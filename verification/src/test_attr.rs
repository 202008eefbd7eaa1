use vstd::prelude::*;
use vstd::string::*;
use crate::config::{Config, Engine};
use crate::text::{contains_str, eq_str, occurs_in};

verus! {

/// What an instance-per-test function is given.
#[derive(Debug, Clone, Copy, PartialEq, Eq, Structural)]
pub enum ParamBinding {
    /// The instance's connection string (a `String` parameter).
    ConnectionString,
    /// The running instance itself.
    Instance,
}

/// Why a function cannot be a test with its own instance.
#[derive(Debug, Clone, Copy, PartialEq, Eq, Structural)]
pub enum TestAttrError {
    NotAsync,
    TooManyParams,
    NotAnIdentifier,
    UnsupportedParamType,
}

pub open spec fn test_attr_message_of(e: TestAttrError) -> Seq<char> {
    match e {
        TestAttrError::NotAsync => "the #[postg::test] macro requires an async function"@,
        TestAttrError::TooManyParams => "the #[postg::test] macro requires 0 or 1 argument"@,
        TestAttrError::NotAnIdentifier => "expected a simple identifier"@,
        TestAttrError::UnsupportedParamType => "unsupported parameter type. Expected `String` or `postg::engine::Postg`"@,
    }
}

impl TestAttrError {
    /// The message reported at the function.
    pub fn message(&self) -> (m: String)
        ensures
            m@ == test_attr_message_of(*self),
    {
        match self {
            TestAttrError::NotAsync => String::from_str(
                "the #[postg::test] macro requires an async function",
            ),
            TestAttrError::TooManyParams => String::from_str(
                "the #[postg::test] macro requires 0 or 1 argument",
            ),
            TestAttrError::NotAnIdentifier => String::from_str("expected a simple identifier"),
            TestAttrError::UnsupportedParamType => String::from_str(
                "unsupported parameter type. Expected `String` or `postg::engine::Postg`",
            ),
        }
    }
}

/// A test function must be `async` and take at most one parameter.
pub fn check_test_signature(is_async: bool, param_count: usize) -> (r: Result<(), TestAttrError>)
    ensures
        !is_async ==> r == Err::<(), TestAttrError>(TestAttrError::NotAsync),
        is_async && param_count > 1 ==> r == Err::<(), TestAttrError>(
            TestAttrError::TooManyParams,
        ),
        is_async && param_count <= 1 ==> r == Ok::<(), TestAttrError>(()),
{
    if !is_async {
        Err(TestAttrError::NotAsync)
    } else if param_count > 1 {
        Err(TestAttrError::TooManyParams)
    } else {
        Ok(())
    }
}

/// What a test's parameter is given, by the text of its type: `String` gets
/// the connection string, a type whose text mentions `Postg` gets the
/// instance, and anything else is refused.
pub fn param_binding(type_text: &str) -> (r: Result<ParamBinding, TestAttrError>)
    ensures
        type_text@ == "String"@ ==> r == Ok::<ParamBinding, TestAttrError>(
            ParamBinding::ConnectionString,
        ),
        type_text@ != "String"@ && occurs_in(type_text@, "Postg"@) ==> r == Ok::<
            ParamBinding,
            TestAttrError,
        >(ParamBinding::Instance),
        type_text@ != "String"@ && !occurs_in(type_text@, "Postg"@) ==> r == Err::<
            ParamBinding,
            TestAttrError,
        >(TestAttrError::UnsupportedParamType),
{
    if eq_str(type_text, "String") {
        Ok(ParamBinding::ConnectionString)
    } else if contains_str(type_text, "Postg") {
        Ok(ParamBinding::Instance)
    } else {
        Err(TestAttrError::UnsupportedParamType)
    }
}

/// The engine a test asks for in its attribute: the Spock engine when the
/// attribute's text mentions `postgresql-spock`, the default otherwise.
pub fn engine_override(attr_text: &str) -> (r: Option<Engine>)
    ensures
        r == engine_override_of(attr_text@),
{
    if attr_text.unicode_len() > 0 && contains_str(attr_text, "postgresql-spock") {
        Some(Engine::Spock)
    } else {
        None
    }
}

/// The configuration a test's instance starts with: the defaults, with the
/// engine the attribute asks for, and always temporary.
pub fn test_config(defaults: Config, attr_text: &str) -> (c: Config)
    ensures
        c.engine == (match engine_override_of(attr_text@) {
            Some(e) => e,
            None => defaults.engine,
        }),
        c.temporary,
        c == (Config { engine: c.engine, temporary: true, ..defaults }),
{
    let mut c = defaults;
    match engine_override(attr_text) {
        Some(e) => {
            c.engine = e;
        },
        None => {},
    }
    c.temporary = true;
    c
}

/// The engine override of an attribute text.
pub open spec fn engine_override_of(attr_text: Seq<char>) -> Option<Engine> {
    if attr_text.len() > 0 && occurs_in(attr_text, "postgresql-spock"@) {
        Some(Engine::Spock)
    } else {
        None
    }
}

} // verus!
