//! Argument values and the typed access to the argument bag of a call.

use std::sync::Arc;
use vstd::hash_map::StringHashMap;
use vstd::prelude::*;
use vstd::string::StringExecFns;

use crate::error::{Error, ErrorView, ValueKind};

verus! {

/// One dynamically typed argument value.
///
/// `Float` holds the IEEE 754 binary64 bit pattern of the number, so that a
/// value passes through the library bit for bit.
#[derive(Debug)]
pub enum ArgValue {
    Float(u64),
    String(Arc<str>),
    Bool(bool),
    Vec(Vec<ArgValue>),
}

/// What an [`ArgValue`] stands for: a tagged union that nests through lists.
pub enum Value {
    Float(u64),
    Text(Seq<char>),
    Bool(bool),
    List(Seq<Value>),
}

impl View for ArgValue {
    type V = Value;

    open spec fn view(&self) -> Value
        decreases self,
    {
        match self {
            ArgValue::Float(bits) => Value::Float(*bits),
            ArgValue::String(text) => Value::Text(text@),
            ArgValue::Bool(b) => Value::Bool(*b),
            ArgValue::Vec(items) => Value::List(
                Seq::new(
                    items@.len(),
                    |i: int|
                        if 0 <= i < items@.len() {
                            items@[i].view()
                        } else {
                            Value::Bool(false)
                        },
                ),
            ),
        }
    }
}

impl Clone for ArgValue {
    /// A deep copy: same variant, same payload, same nesting.
    fn clone(&self) -> (r: Self)
        ensures
            r@ == self@,
        decreases self,
    {
        match self {
            ArgValue::Float(bits) => ArgValue::Float(*bits),
            ArgValue::String(text) => ArgValue::String(text.clone()),
            ArgValue::Bool(b) => ArgValue::Bool(*b),
            ArgValue::Vec(items) => {
                let mut copy: Vec<ArgValue> = Vec::new();
                let mut i: usize = 0;
                while i < items.len()
                    invariant
                        self is Vec && self->Vec_0 == *items,
                        i <= items.len(),
                        copy.len() == i,
                        forall|j: int| 0 <= j < i ==> copy@[j]@ == items@[j]@,
                    decreases items.len() - i,
                {
                    proof {
                        assert(decreases_to!(*self => self->Vec_0));
                        assert(decreases_to!(*items => items[i as int]));
                    }
                    copy.push(items[i].clone());
                    i += 1;
                }
                let r = ArgValue::Vec(copy);
                assert(r@->List_0 =~= self@->List_0);
                r
            },
        }
    }
}

impl ArgValue {
    /// Which of the four shapes this value has.
    pub open spec fn spec_kind(&self) -> ValueKind {
        match *self {
            ArgValue::Float(_) => ValueKind::Float,
            ArgValue::String(_) => ValueKind::Text,
            ArgValue::Bool(_) => ValueKind::Bool,
            ArgValue::Vec(_) => ValueKind::List,
        }
    }

    #[verifier::when_used_as_spec(spec_kind)]
    pub fn kind(&self) -> (r: ValueKind)
        ensures
            r == self.spec_kind(),
    {
        match self {
            ArgValue::Float(_) => ValueKind::Float,
            ArgValue::String(_) => ValueKind::Text,
            ArgValue::Bool(_) => ValueKind::Bool,
            ArgValue::Vec(_) => ValueKind::List,
        }
    }
}

/// The named side arguments of one call.
pub type ArgMap = StringHashMap<ArgValue>;

/// What an optional argument map holds, by name.
pub open spec fn bag_view(bag: Option<ArgMap>) -> Option<Map<Seq<char>, ArgValue>> {
    match bag {
        Some(map) => Some(map@),
        None => None,
    }
}

/// A read-only handle on the argument bag of one call. The bag may be absent.
pub struct Args<'f>(&'f Option<ArgMap>);

impl<'f> View for Args<'f> {
    type V = Option<Map<Seq<char>, ArgValue>>;

    closed spec fn view(&self) -> Self::V {
        bag_view(*self.0)
    }
}

impl<'f> Args<'f> {
    /// Whether the bag is present and has an entry under `name`.
    pub open spec fn has(&self, name: Seq<char>) -> bool {
        self@ is Some && self@->0.contains_key(name)
    }

    /// Binds the entry under `name`. It is missing where the bag is absent or
    /// has no such entry.
    pub fn arg(&self, name: &'f str) -> (r: Result<ArgContext<'f>, Error>)
        ensures
            if self.has(name@) {
                r matches Ok(ctx) && ctx.name() == name@ && ctx.value() == self@->0[name@]
            } else {
                r matches Err(e) && e@ == ErrorView::ArgumentMissing(name@)
            },
    {
        match self.0 {
            Some(map) => match map.get(name) {
                Some(arg) => Ok(ArgContext { name: name, arg: arg }),
                None => Err(Error::ArgumentMissing(String::from_str(name))),
            },
            None => Err(Error::ArgumentMissing(String::from_str(name))),
        }
    }

    /// A handle on `args`.
    pub fn new(args: &'f Option<ArgMap>) -> (r: Args<'f>)
        ensures
            r@ == bag_view(*args),
    {
        Args(args)
    }

    /// The absent bag.
    pub fn none() -> (r: Args<'static>)
        ensures
            r@ is None,
    {
        Args(&None)
    }
}

/// One entry of an argument bag, bound to the name it was found under.
pub struct ArgContext<'a> {
    name: &'a str,
    arg: &'a ArgValue,
}

impl<'a> ArgContext<'a> {
    /// The name the entry was looked up by.
    pub closed spec fn name(&self) -> Seq<char> {
        self.name@
    }

    /// The value bound under that name.
    pub closed spec fn value(&self) -> ArgValue {
        *self.arg
    }

    /// What each accessor answers when the value has another shape.
    pub open spec fn mismatch(&self, expected: ValueKind) -> ErrorView {
        ErrorView::TypeMismatch(self.name(), expected)
    }

    /// The text of a string, and a mismatch for every other shape.
    pub fn as_str(&self) -> (r: Result<&'a str, Error>)
        ensures
            match self.value() {
                ArgValue::String(s) => r matches Ok(text) && text@ == s@,
                _ => r matches Err(e) && e@ == self.mismatch(ValueKind::Text),
            },
    {
        match self.arg {
            ArgValue::String(s) => Ok(s),
            _ => Err(Error::TypeMismatch(String::from_str(self.name), ValueKind::Text)),
        }
    }

    /// The bit pattern of a number, and a mismatch for every other shape.
    pub fn as_float(&self) -> (r: Result<u64, Error>)
        ensures
            match self.value() {
                ArgValue::Float(bits) => r matches Ok(got) && got == bits,
                _ => r matches Err(e) && e@ == self.mismatch(ValueKind::Float),
            },
    {
        match self.arg {
            ArgValue::Float(f) => Ok(*f),
            _ => Err(Error::TypeMismatch(String::from_str(self.name), ValueKind::Float)),
        }
    }

    /// The truth value of a boolean, and a mismatch for every other shape.
    pub fn as_bool(&self) -> (r: Result<bool, Error>)
        ensures
            match self.value() {
                ArgValue::Bool(b) => r matches Ok(got) && got == b,
                _ => r matches Err(e) && e@ == self.mismatch(ValueKind::Bool),
            },
    {
        match self.arg {
            ArgValue::Bool(b) => Ok(*b),
            _ => Err(Error::TypeMismatch(String::from_str(self.name), ValueKind::Bool)),
        }
    }

    /// The items of a list, and a mismatch for every other shape.
    pub fn as_vec(&self) -> (r: Result<&'a Vec<ArgValue>, Error>)
        ensures
            match self.value() {
                ArgValue::Vec(items) => r matches Ok(got) && *got == items,
                _ => r matches Err(e) && e@ == self.mismatch(ValueKind::List),
            },
    {
        match self.arg {
            ArgValue::Vec(v) => Ok(v),
            _ => Err(Error::TypeMismatch(String::from_str(self.name), ValueKind::List)),
        }
    }
}

} // verus!
