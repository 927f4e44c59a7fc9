use beacon_std_lib::conversions::{std_conversions, Conversion, ConversionFn};

const ALL: [ConversionFn; 7] = [
    ConversionFn::KelvinToCelsius,
    ConversionFn::CelsiusToKelvin,
    ConversionFn::KelvinToFahrenheit,
    ConversionFn::FahrenheitToKelvin,
    ConversionFn::CelsiusToFahrenheit,
    ConversionFn::FahrenheitToCelsius,
    ConversionFn::EmptyConversion,
];

#[test]
fn test_lib_contains() {
    let registry = std_conversions();
    assert!(registry.contains_key("std::conversions::celsius_to_kelvin"));
    assert!(registry.contains_key("std::conversions::kelvin_to_celsius"));
    assert!(registry.contains_key("std::conversions::celsius_to_fahrenheit"));
    assert!(registry.contains_key("std::conversions::fahrenheit_to_celsius"));
    assert!(registry.contains_key("std::conversions::kelvin_to_fahrenheit"));
    assert!(registry.contains_key("std::conversions::fahrenheit_to_kelvin"));
    assert!(registry.contains_key("std::conversions::empty_conversion"));
}

#[test]
fn registry_holds_the_seven_conversions_and_no_other() {
    let registry = std_conversions();
    assert_eq!(registry.len(), 7);
    assert!(!registry.contains_key("celsius_to_kelvin"));
    assert!(!registry.contains_key("std::conversions::kelvin_to_kelvin"));
}

#[test]
fn registry_pairs_each_function_with_its_inverse() {
    let registry = std_conversions();
    for f in ALL {
        let name = format!("std::conversions::{}", f.name());
        assert_eq!(f.qualified_name(), name);
        let entry = registry.get(&name).unwrap();
        assert_eq!(entry.conversion_fn(), f);
        assert_eq!(entry.inverse_conversion_fn(), f.inverse());
    }
    let entry = registry.get("std::conversions::celsius_to_fahrenheit").unwrap();
    assert_eq!(entry.conversion_fn(), ConversionFn::CelsiusToFahrenheit);
    assert_eq!(entry.inverse_conversion_fn(), ConversionFn::FahrenheitToCelsius);
}

#[test]
fn the_identity_is_its_own_inverse() {
    let registry = std_conversions();
    let entry = registry.get("std::conversions::empty_conversion").unwrap();
    assert_eq!(entry.conversion_fn(), ConversionFn::EmptyConversion);
    assert_eq!(entry.inverse_conversion_fn(), ConversionFn::EmptyConversion);
}

#[test]
fn inverse_of_inverse_is_the_function() {
    for f in ALL {
        assert_eq!(f.inverse().inverse(), f);
    }
    assert_eq!(ConversionFn::KelvinToFahrenheit.inverse(), ConversionFn::FahrenheitToKelvin);
}

#[test]
fn functions_have_their_names() {
    assert_eq!(ConversionFn::KelvinToCelsius.name(), "kelvin_to_celsius");
    assert_eq!(ConversionFn::CelsiusToKelvin.name(), "celsius_to_kelvin");
    assert_eq!(ConversionFn::KelvinToFahrenheit.name(), "kelvin_to_fahrenheit");
    assert_eq!(ConversionFn::FahrenheitToKelvin.name(), "fahrenheit_to_kelvin");
    assert_eq!(ConversionFn::CelsiusToFahrenheit.name(), "celsius_to_fahrenheit");
    assert_eq!(ConversionFn::FahrenheitToCelsius.name(), "fahrenheit_to_celsius");
    assert_eq!(ConversionFn::EmptyConversion.name(), "empty_conversion");
    assert_eq!(
        ConversionFn::KelvinToFahrenheit.qualified_name(),
        "std::conversions::kelvin_to_fahrenheit"
    );
    assert_eq!(
        ConversionFn::EmptyConversion.qualified_name(),
        "std::conversions::empty_conversion"
    );
}

#[test]
fn a_conversion_hands_back_its_two_functions() {
    let c = Conversion::new(ConversionFn::CelsiusToKelvin, ConversionFn::KelvinToCelsius);
    assert_eq!(c.conversion_fn(), ConversionFn::CelsiusToKelvin);
    assert_eq!(c.inverse_conversion_fn(), ConversionFn::KelvinToCelsius);
}
