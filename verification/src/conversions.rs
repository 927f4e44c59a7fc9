//! The registry of conversions: pairs of a function and its inverse, by
//! qualified name.

use vstd::hash_map::StringHashMap;
use vstd::prelude::*;
use vstd::string::StringExecFns;

verus! {

/// The unary numeric functions that conversions are made of.
///
/// The library names them; evaluating one on a machine number is left to the
/// caller. What each one means is fixed by [`ConversionFn::apply`].
#[derive(Clone, Copy, Debug, PartialEq, Eq, Structural)]
pub enum ConversionFn {
    KelvinToCelsius,
    CelsiusToKelvin,
    KelvinToFahrenheit,
    FahrenheitToKelvin,
    CelsiusToFahrenheit,
    FahrenheitToCelsius,
    EmptyConversion,
}

/// The offset between the Kelvin and the Celsius scale, 273.15.
pub open spec fn kelvin_offset() -> real {
    27315real / 100real
}

impl ConversionFn {
    /// The function's value at `x`, in exact arithmetic.
    pub open spec fn apply(self, x: real) -> real {
        match self {
            ConversionFn::KelvinToCelsius => x - kelvin_offset(),
            ConversionFn::CelsiusToKelvin => x + kelvin_offset(),
            ConversionFn::KelvinToFahrenheit => (x - kelvin_offset()) * 9real / 5real + 32real,
            ConversionFn::FahrenheitToKelvin => (x - 32real) * 5real / 9real + kelvin_offset(),
            ConversionFn::CelsiusToFahrenheit => x * 9real / 5real + 32real,
            ConversionFn::FahrenheitToCelsius => (x - 32real) * 5real / 9real,
            ConversionFn::EmptyConversion => x,
        }
    }

    /// The function that undoes this one.
    pub open spec fn spec_inverse(self) -> ConversionFn {
        match self {
            ConversionFn::KelvinToCelsius => ConversionFn::CelsiusToKelvin,
            ConversionFn::CelsiusToKelvin => ConversionFn::KelvinToCelsius,
            ConversionFn::KelvinToFahrenheit => ConversionFn::FahrenheitToKelvin,
            ConversionFn::FahrenheitToKelvin => ConversionFn::KelvinToFahrenheit,
            ConversionFn::CelsiusToFahrenheit => ConversionFn::FahrenheitToCelsius,
            ConversionFn::FahrenheitToCelsius => ConversionFn::CelsiusToFahrenheit,
            ConversionFn::EmptyConversion => ConversionFn::EmptyConversion,
        }
    }

    #[verifier::when_used_as_spec(spec_inverse)]
    pub fn inverse(self) -> (r: ConversionFn)
        ensures
            r == self.spec_inverse(),
    {
        match self {
            ConversionFn::KelvinToCelsius => ConversionFn::CelsiusToKelvin,
            ConversionFn::CelsiusToKelvin => ConversionFn::KelvinToCelsius,
            ConversionFn::KelvinToFahrenheit => ConversionFn::FahrenheitToKelvin,
            ConversionFn::FahrenheitToKelvin => ConversionFn::KelvinToFahrenheit,
            ConversionFn::CelsiusToFahrenheit => ConversionFn::FahrenheitToCelsius,
            ConversionFn::FahrenheitToCelsius => ConversionFn::CelsiusToFahrenheit,
            ConversionFn::EmptyConversion => ConversionFn::EmptyConversion,
        }
    }

    /// The name the function is registered under, without its prefix.
    pub open spec fn spec_name(self) -> Seq<char> {
        match self {
            ConversionFn::KelvinToCelsius => "kelvin_to_celsius"@,
            ConversionFn::CelsiusToKelvin => "celsius_to_kelvin"@,
            ConversionFn::KelvinToFahrenheit => "kelvin_to_fahrenheit"@,
            ConversionFn::FahrenheitToKelvin => "fahrenheit_to_kelvin"@,
            ConversionFn::CelsiusToFahrenheit => "celsius_to_fahrenheit"@,
            ConversionFn::FahrenheitToCelsius => "fahrenheit_to_celsius"@,
            ConversionFn::EmptyConversion => "empty_conversion"@,
        }
    }

    pub fn name(self) -> (r: &'static str)
        ensures
            r@ == self.spec_name(),
    {
        match self {
            ConversionFn::KelvinToCelsius => "kelvin_to_celsius",
            ConversionFn::CelsiusToKelvin => "celsius_to_kelvin",
            ConversionFn::KelvinToFahrenheit => "kelvin_to_fahrenheit",
            ConversionFn::FahrenheitToKelvin => "fahrenheit_to_kelvin",
            ConversionFn::CelsiusToFahrenheit => "celsius_to_fahrenheit",
            ConversionFn::FahrenheitToCelsius => "fahrenheit_to_celsius",
            ConversionFn::EmptyConversion => "empty_conversion",
        }
    }
}

/// The qualified name a function is registered under.
pub open spec fn registered_name(f: ConversionFn) -> Seq<char> {
    "std::conversions::"@ + f.spec_name()
}

impl ConversionFn {
    /// The qualified name the function is registered under.
    pub fn qualified_name(self) -> (r: &'static str)
        ensures
            r@ == registered_name(self),
    {
        proof {
            reveal_strlit("std::conversions::");
        }
        match self {
            ConversionFn::KelvinToCelsius => {
                proof {
                    reveal_strlit("kelvin_to_celsius");
                    reveal_strlit("std::conversions::kelvin_to_celsius");
                }
                assert("std::conversions::kelvin_to_celsius"@ =~= registered_name(self));
                "std::conversions::kelvin_to_celsius"
            },
            ConversionFn::CelsiusToKelvin => {
                proof {
                    reveal_strlit("celsius_to_kelvin");
                    reveal_strlit("std::conversions::celsius_to_kelvin");
                }
                assert("std::conversions::celsius_to_kelvin"@ =~= registered_name(self));
                "std::conversions::celsius_to_kelvin"
            },
            ConversionFn::KelvinToFahrenheit => {
                proof {
                    reveal_strlit("kelvin_to_fahrenheit");
                    reveal_strlit("std::conversions::kelvin_to_fahrenheit");
                }
                assert("std::conversions::kelvin_to_fahrenheit"@ =~= registered_name(self));
                "std::conversions::kelvin_to_fahrenheit"
            },
            ConversionFn::FahrenheitToKelvin => {
                proof {
                    reveal_strlit("fahrenheit_to_kelvin");
                    reveal_strlit("std::conversions::fahrenheit_to_kelvin");
                }
                assert("std::conversions::fahrenheit_to_kelvin"@ =~= registered_name(self));
                "std::conversions::fahrenheit_to_kelvin"
            },
            ConversionFn::CelsiusToFahrenheit => {
                proof {
                    reveal_strlit("celsius_to_fahrenheit");
                    reveal_strlit("std::conversions::celsius_to_fahrenheit");
                }
                assert("std::conversions::celsius_to_fahrenheit"@ =~= registered_name(self));
                "std::conversions::celsius_to_fahrenheit"
            },
            ConversionFn::FahrenheitToCelsius => {
                proof {
                    reveal_strlit("fahrenheit_to_celsius");
                    reveal_strlit("std::conversions::fahrenheit_to_celsius");
                }
                assert("std::conversions::fahrenheit_to_celsius"@ =~= registered_name(self));
                "std::conversions::fahrenheit_to_celsius"
            },
            ConversionFn::EmptyConversion => {
                proof {
                    reveal_strlit("empty_conversion");
                    reveal_strlit("std::conversions::empty_conversion");
                }
                assert("std::conversions::empty_conversion"@ =~= registered_name(self));
                "std::conversions::empty_conversion"
            },
        }
    }
}

/// Applying a function and then its inverse gives the number back, exactly,
/// for every function and every number.
pub proof fn lemma_inverse_undoes(f: ConversionFn, x: real)
    ensures
        f.spec_inverse().apply(f.apply(x)) == x,
        f.spec_inverse().spec_inverse() == f,
{
}

/// The fixed points by which the scales are known, in exact arithmetic:
/// 0 degrees Celsius are 273.15 Kelvin, 25 degrees Celsius are 77 degrees
/// Fahrenheit, 275.15 Kelvin are 35.6 degrees Fahrenheit, and 32 degrees
/// Fahrenheit are 0 degrees Celsius and 273.15 Kelvin.
pub proof fn lemma_reference_temperatures()
    ensures
        ConversionFn::CelsiusToKelvin.apply(0real) == 27315real / 100real,
        ConversionFn::CelsiusToFahrenheit.apply(25real) == 77real,
        ConversionFn::KelvinToFahrenheit.apply(27515real / 100real) == 356real / 10real,
        ConversionFn::FahrenheitToCelsius.apply(32real) == 0real,
        ConversionFn::FahrenheitToKelvin.apply(32real) == 27315real / 100real,
{
}

/// A forward function and the function registered as its inverse.
///
/// `T` is what stands for a function: its name in the registry of this
/// library, a callable where numbers are computed.
#[derive(Clone, Copy, Debug)]
pub struct Conversion<T> {
    conversion: T,
    inverse_conversion: T,
}

impl<T> View for Conversion<T> {
    type V = (T, T);

    closed spec fn view(&self) -> (T, T) {
        (self.conversion, self.inverse_conversion)
    }
}

impl<T: Copy> Conversion<T> {
    pub fn new(conversion: T, inverse_conversion: T) -> (r: Conversion<T>)
        ensures
            r@ == (conversion, inverse_conversion),
    {
        Conversion { conversion, inverse_conversion }
    }

    pub fn conversion_fn(&self) -> (r: T)
        ensures
            r == self@.0,
    {
        self.conversion
    }

    pub fn inverse_conversion_fn(&self) -> (r: T)
        ensures
            r == self@.1,
    {
        self.inverse_conversion
    }
}

/// A registry of conversions, each taken as its pair of functions.
pub open spec fn registry_view(registry: Map<Seq<char>, Conversion<ConversionFn>>) -> Map<
    Seq<char>,
    (ConversionFn, ConversionFn),
> {
    registry.map_values(|c: Conversion<ConversionFn>| c@)
}

/// The standard conversions by qualified name: each function under
/// `std::conversions::` and its own name, paired with its inverse.
pub open spec fn std_conversions_model() -> Map<Seq<char>, (ConversionFn, ConversionFn)> {
    Map::empty().insert(
        "std::conversions::kelvin_to_celsius"@,
        (ConversionFn::KelvinToCelsius, ConversionFn::CelsiusToKelvin),
    ).insert(
        "std::conversions::celsius_to_kelvin"@,
        (ConversionFn::CelsiusToKelvin, ConversionFn::KelvinToCelsius),
    ).insert(
        "std::conversions::kelvin_to_fahrenheit"@,
        (ConversionFn::KelvinToFahrenheit, ConversionFn::FahrenheitToKelvin),
    ).insert(
        "std::conversions::fahrenheit_to_kelvin"@,
        (ConversionFn::FahrenheitToKelvin, ConversionFn::KelvinToFahrenheit),
    ).insert(
        "std::conversions::celsius_to_fahrenheit"@,
        (ConversionFn::CelsiusToFahrenheit, ConversionFn::FahrenheitToCelsius),
    ).insert(
        "std::conversions::fahrenheit_to_celsius"@,
        (ConversionFn::FahrenheitToCelsius, ConversionFn::CelsiusToFahrenheit),
    ).insert(
        "std::conversions::empty_conversion"@,
        (ConversionFn::EmptyConversion, ConversionFn::EmptyConversion),
    )
}

/// The registry holds each function under its qualified name, paired with
/// its inverse, and holds nothing else.
pub proof fn lemma_registered_names()
    ensures
        forall|f: ConversionFn|
            #![trigger registered_name(f)]
            std_conversions_model().contains_key(registered_name(f))
                && std_conversions_model()[registered_name(f)] == (f, f.spec_inverse()),
        forall|name: Seq<char>|
            #![trigger std_conversions_model().contains_key(name)]
            std_conversions_model().contains_key(name) ==> name == registered_name(
                std_conversions_model()[name].0,
            ),
{
    reveal_strlit("std::conversions::");
    reveal_strlit("kelvin_to_celsius");
    reveal_strlit("celsius_to_kelvin");
    reveal_strlit("kelvin_to_fahrenheit");
    reveal_strlit("fahrenheit_to_kelvin");
    reveal_strlit("celsius_to_fahrenheit");
    reveal_strlit("fahrenheit_to_celsius");
    reveal_strlit("empty_conversion");
    reveal_strlit("std::conversions::kelvin_to_celsius");
    reveal_strlit("std::conversions::celsius_to_kelvin");
    reveal_strlit("std::conversions::kelvin_to_fahrenheit");
    reveal_strlit("std::conversions::fahrenheit_to_kelvin");
    reveal_strlit("std::conversions::celsius_to_fahrenheit");
    reveal_strlit("std::conversions::fahrenheit_to_celsius");
    reveal_strlit("std::conversions::empty_conversion");
    let kc = "std::conversions::kelvin_to_celsius"@;
    let ck = "std::conversions::celsius_to_kelvin"@;
    let kf = "std::conversions::kelvin_to_fahrenheit"@;
    let fk = "std::conversions::fahrenheit_to_kelvin"@;
    let cf = "std::conversions::celsius_to_fahrenheit"@;
    let fc = "std::conversions::fahrenheit_to_celsius"@;
    let ec = "std::conversions::empty_conversion"@;
    assert(kc =~= registered_name(ConversionFn::KelvinToCelsius));
    assert(ck =~= registered_name(ConversionFn::CelsiusToKelvin));
    assert(kf =~= registered_name(ConversionFn::KelvinToFahrenheit));
    assert(fk =~= registered_name(ConversionFn::FahrenheitToKelvin));
    assert(cf =~= registered_name(ConversionFn::CelsiusToFahrenheit));
    assert(fc =~= registered_name(ConversionFn::FahrenheitToCelsius));
    assert(ec =~= registered_name(ConversionFn::EmptyConversion));
    assert(kc[18] == 'k' && kf[18] == 'k' && ck[18] == 'c' && cf[18] == 'c' && fk[18] == 'f'
        && fc[18] == 'f' && ec[18] == 'e');
    assert(kc.len() != kf.len() && ck.len() != cf.len() && fk.len() != fc.len());
}

/// Builds the registry of standard conversions.
pub fn std_conversions() -> (r: StringHashMap<Conversion<ConversionFn>>)
    ensures
        registry_view(r@) == std_conversions_model(),
{
    let mut m: StringHashMap<Conversion<ConversionFn>> = StringHashMap::new();
    m.insert(
        String::from_str("std::conversions::kelvin_to_celsius"),
        Conversion::new(ConversionFn::KelvinToCelsius, ConversionFn::CelsiusToKelvin),
    );
    m.insert(
        String::from_str("std::conversions::celsius_to_kelvin"),
        Conversion::new(ConversionFn::CelsiusToKelvin, ConversionFn::KelvinToCelsius),
    );
    m.insert(
        String::from_str("std::conversions::kelvin_to_fahrenheit"),
        Conversion::new(ConversionFn::KelvinToFahrenheit, ConversionFn::FahrenheitToKelvin),
    );
    m.insert(
        String::from_str("std::conversions::fahrenheit_to_kelvin"),
        Conversion::new(ConversionFn::FahrenheitToKelvin, ConversionFn::KelvinToFahrenheit),
    );
    m.insert(
        String::from_str("std::conversions::celsius_to_fahrenheit"),
        Conversion::new(ConversionFn::CelsiusToFahrenheit, ConversionFn::FahrenheitToCelsius),
    );
    m.insert(
        String::from_str("std::conversions::fahrenheit_to_celsius"),
        Conversion::new(ConversionFn::FahrenheitToCelsius, ConversionFn::CelsiusToFahrenheit),
    );
    m.insert(
        String::from_str("std::conversions::empty_conversion"),
        Conversion::new(ConversionFn::EmptyConversion, ConversionFn::EmptyConversion),
    );
    assert(registry_view(m@) =~= std_conversions_model());
    m
}

/// Every registered conversion pairs a function with the one that undoes it:
/// the inverse applied to the forward value of `x` is `x`, for every `x`.
pub proof fn lemma_registered_round_trip(name: Seq<char>, x: real)
    requires
        std_conversions_model().contains_key(name),
    ensures
        std_conversions_model()[name].1 == std_conversions_model()[name].0.spec_inverse(),
        std_conversions_model()[name].1.apply(std_conversions_model()[name].0.apply(x)) == x,
{
    let pair = std_conversions_model()[name];
    lemma_inverse_undoes(pair.0, x);
}

} // verus!
