//! A registry of named functions with typed, dynamic arguments.
//!
//! A host evaluator resolves a qualified name, `module::function`, to a
//! handle ([`Library::function`]), binds the handle to the argument bag of a
//! call ([`time::ArgsMethod::bind`]) and computes on the number of the call.
//! Numbers pass through this crate as bit patterns and are never computed on
//! here.

pub mod args;
pub mod conversions;
pub mod epoch_text;
pub mod error;
pub mod name;
pub mod time;

use vstd::hash_map::StringHashMap;
use vstd::prelude::*;
use vstd::string::StringExecFns;

use crate::error::{outcome, Error, ErrorView};
use crate::name::{lemma_split_of_qualified, qualified, separator_at, split_name, split_qualified};
use crate::time::{args_functions, args_functions_model, ArgsMethod};

verus! {

/// A named group of parametrized functions.
pub struct Module {
    functions: StringHashMap<ArgsMethod>,
}

impl View for Module {
    type V = Map<Seq<char>, ArgsMethod>;

    closed spec fn view(&self) -> Map<Seq<char>, ArgsMethod> {
        self.functions@
    }
}

impl Module {
    /// A module with the given function table.
    pub fn new(functions: StringHashMap<ArgsMethod>) -> (r: Module)
        ensures
            r@ == functions@,
    {
        Module { functions }
    }
}

/// What a library resolves a qualified name to: the function registered under
/// the part after the first `::`, in the module registered under the part
/// before it.
pub open spec fn resolve(
    modules: Map<Seq<char>, Map<Seq<char>, ArgsMethod>>,
    name: Seq<char>,
) -> Result<ArgsMethod, ErrorView> {
    match split_qualified(name) {
        None => Err(ErrorView::MalformedQualifiedName(name)),
        Some((module, function)) => if !modules.contains_key(module) {
            Err(ErrorView::ModuleNotFound(module))
        } else if !modules[module].contains_key(function) {
            Err(ErrorView::FunctionNotFound(module, function))
        } else {
            Ok(modules[module][function])
        },
    }
}

/// What is registered is found: a function registered under `function` in a
/// module registered under `module` is what the qualified name of the two
/// resolves to, for a module name that holds no separator and does not end in
/// a colon.
pub proof fn lemma_resolve_registered(
    modules: Map<Seq<char>, Map<Seq<char>, ArgsMethod>>,
    module: Seq<char>,
    function: Seq<char>,
)
    requires
        forall|i: int| !separator_at(module, i),
        module.len() > 0 ==> module.last() != ':',
        modules.contains_key(module),
        modules[module].contains_key(function),
    ensures
        resolve(modules, qualified(module, function)) == Ok::<ArgsMethod, ErrorView>(
            modules[module][function],
        ),
{
    lemma_split_of_qualified(module, function);
}

/// The modules of the standard library.
pub open spec fn standard_model() -> Map<Seq<char>, Map<Seq<char>, ArgsMethod>> {
    Map::empty().insert("time"@, args_functions_model())
}

/// Every function of the standard library is found under `time::` and its
/// short name.
pub proof fn lemma_standard_resolves(function: Seq<char>)
    requires
        args_functions_model().contains_key(function),
    ensures
        resolve(standard_model(), qualified("time"@, function)) == Ok::<ArgsMethod, ErrorView>(
            args_functions_model()[function],
        ),
{
    reveal_strlit("time");
    lemma_resolve_registered(standard_model(), "time"@, function);
}

/// The top-level namespace: modules by name.
pub struct Library {
    modules: StringHashMap<Module>,
}

impl View for Library {
    type V = Map<Seq<char>, Map<Seq<char>, ArgsMethod>>;

    closed spec fn view(&self) -> Map<Seq<char>, Map<Seq<char>, ArgsMethod>> {
        self.modules@.map_values(|m: Module| m@)
    }
}

impl Library {
    /// A library without modules.
    pub fn new() -> (r: Library)
        ensures
            r@ == Map::<Seq<char>, Map<Seq<char>, ArgsMethod>>::empty(),
    {
        let r = Library { modules: StringHashMap::new() };
        assert(r@ =~= Map::<Seq<char>, Map<Seq<char>, ArgsMethod>>::empty());
        r
    }

    /// Registers `module` under `name`, in place of any module that had the name.
    pub fn register(&mut self, name: &str, module: Module)
        ensures
            final(self)@ == old(self)@.insert(name@, module@),
    {
        self.modules.insert(String::from_str(name), module);
        assert(final(self)@ =~= old(self)@.insert(name@, module@));
    }

    /// The standard library: the module `time`.
    pub fn standard() -> (r: Library)
        ensures
            r@ == standard_model(),
    {
        let mut r = Library::new();
        r.register("time", Module::new(args_functions()));
        r
    }

    /// Resolves a qualified name, `module::function`, to the function's handle.
    pub fn function(&self, name: &str) -> (r: Result<ArgsMethod, Error>)
        ensures
            outcome(r) == resolve(self@, name@),
    {
        let (module_name, function_name) = match split_name(name) {
            Some(parts) => parts,
            None => {
                return Err(Error::MalformedQualifiedName(String::from_str(name)));
            },
        };
        let module = match self.modules.get(module_name) {
            Some(module) => module,
            None => {
                return Err(Error::ModuleNotFound(String::from_str(module_name)));
            },
        };
        match module.functions.get(function_name) {
            Some(method) => Ok(*method),
            None => Err(
                Error::FunctionNotFound(
                    String::from_str(module_name),
                    String::from_str(function_name),
                ),
            ),
        }
    }
}

} // verus!
