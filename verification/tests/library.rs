use beacon_std_lib::error::Error;
use beacon_std_lib::name::split_name;
use beacon_std_lib::time::{args_functions, ArgsMethod};
use beacon_std_lib::{Library, Module};

#[test]
fn resolves_a_registered_function() {
    let std = Library::standard();
    assert_eq!(std.function("time::jde_to_unix"), Ok(ArgsMethod::JdeToUnix));
    assert_eq!(
        std.function("time::seconds_since_epoch_to_unix"),
        Ok(ArgsMethod::SecondsSinceEpochToUnix)
    );
    assert_eq!(
        std.function("time::days_since_epoch_to_unix"),
        Ok(ArgsMethod::DaysSinceEpochToUnix)
    );
}

#[test]
fn unknown_function_is_not_found() {
    let std = Library::standard();
    assert_eq!(
        std.function("time::nonexistent"),
        Err(Error::FunctionNotFound("time".to_string(), "nonexistent".to_string()))
    );
}

#[test]
fn name_without_separator_is_malformed() {
    let std = Library::standard();
    assert_eq!(
        std.function("nomodule"),
        Err(Error::MalformedQualifiedName("nomodule".to_string()))
    );
    assert_eq!(std.function(""), Err(Error::MalformedQualifiedName(String::new())));
    assert_eq!(
        std.function("time:jde_to_unix"),
        Err(Error::MalformedQualifiedName("time:jde_to_unix".to_string()))
    );
}

#[test]
fn unknown_module_is_not_found() {
    let std = Library::standard();
    assert_eq!(
        std.function("ghost::anything"),
        Err(Error::ModuleNotFound("ghost".to_string()))
    );
    assert_eq!(std.function("::jde_to_unix"), Err(Error::ModuleNotFound(String::new())));
    assert_eq!(
        std.function("Time::jde_to_unix"),
        Err(Error::ModuleNotFound("Time".to_string()))
    );
}

#[test]
fn only_the_first_separator_cuts() {
    let std = Library::standard();
    assert_eq!(
        std.function("time::jde::to_unix"),
        Err(Error::FunctionNotFound("time".to_string(), "jde::to_unix".to_string()))
    );
    assert_eq!(
        std.function("time:::jde_to_unix"),
        Err(Error::FunctionNotFound("time".to_string(), ":jde_to_unix".to_string()))
    );
    assert_eq!(
        std.function("time::"),
        Err(Error::FunctionNotFound("time".to_string(), String::new()))
    );
}

#[test]
fn split_name_cuts_at_the_first_separator() {
    assert_eq!(split_name("a::b"), Some(("a", "b")));
    assert_eq!(split_name("a::b::c"), Some(("a", "b::c")));
    assert_eq!(split_name("::"), Some(("", "")));
    assert_eq!(split_name(":::"), Some(("", ":")));
    assert_eq!(split_name("a:::b"), Some(("a", ":b")));
    assert_eq!(split_name("a:b:c"), None);
    assert_eq!(split_name(":"), None);
    assert_eq!(split_name(""), None);
    assert_eq!(split_name("zeit\u{e4}::\u{fc}ber"), Some(("zeit\u{e4}", "\u{fc}ber")));
    assert_eq!(split_name("time::jde_to_unix"), "time::jde_to_unix".split_once("::"));
}

#[test]
fn an_empty_library_knows_no_module() {
    let lib = Library::new();
    assert_eq!(lib.function("time::jde_to_unix"), Err(Error::ModuleNotFound("time".to_string())));
}

#[test]
fn a_registered_module_is_resolved_without_other_change() {
    let mut lib = Library::standard();
    lib.register("clock", Module::new(args_functions()));
    assert_eq!(lib.function("clock::jde_to_unix"), Ok(ArgsMethod::JdeToUnix));
    assert_eq!(lib.function("time::jde_to_unix"), Ok(ArgsMethod::JdeToUnix));
    let mut table = args_functions();
    table.remove("jde_to_unix");
    lib.register("time", Module::new(table));
    assert_eq!(
        lib.function("time::jde_to_unix"),
        Err(Error::FunctionNotFound("time".to_string(), "jde_to_unix".to_string()))
    );
    assert_eq!(
        lib.function("time::days_since_epoch_to_unix"),
        Ok(ArgsMethod::DaysSinceEpochToUnix)
    );
}

#[test]
fn two_builds_of_the_standard_library_agree() {
    let a = Library::standard();
    let b = Library::standard();
    for name in [
        "time::jde_to_unix",
        "time::seconds_since_epoch_to_unix",
        "time::days_since_epoch_to_unix",
        "time::nonexistent",
        "ghost::anything",
        "nomodule",
    ] {
        assert_eq!(a.function(name), b.function(name));
    }
}

#[test]
fn a_failed_lookup_leaves_the_library_as_it_was() {
    let std = Library::standard();
    assert!(std.function("ghost::anything").is_err());
    assert!(std.function("nomodule").is_err());
    assert_eq!(std.function("time::jde_to_unix"), Ok(ArgsMethod::JdeToUnix));
}
