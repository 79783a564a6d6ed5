//! The argument payloads this client submits with transactions and
//! queries.
//!
//! Every payload the protocol methods take is a flat JSON object whose
//! values are strings, booleans, unsigned integers or arrays of strings.
//! The library builds those objects from plain data with exact contracts;
//! the unverified boundary serializes them for the wire.

use vstd::prelude::*;

verus! {

/// One value of an argument object.
#[derive(Debug, Clone, PartialEq, Eq)]
pub enum ArgValue {
    Bool(bool),
    UInt(u64),
    Str(String),
    StrArray(Vec<String>),
}

/// The mathematical shape of an [`ArgValue`].
pub enum ArgSpec {
    Bool(bool),
    UInt(u64),
    Str(Seq<char>),
    StrArray(Seq<Seq<char>>),
}

impl View for ArgValue {
    type V = ArgSpec;

    open spec fn view(&self) -> ArgSpec {
        match self {
            ArgValue::Bool(b) => ArgSpec::Bool(*b),
            ArgValue::UInt(n) => ArgSpec::UInt(*n),
            ArgValue::Str(s) => ArgSpec::Str(s@),
            ArgValue::StrArray(items) => ArgSpec::StrArray(items.deep_view()),
        }
    }
}

/// An argument object: named values, in the order they are emitted.
#[derive(Debug, Clone, PartialEq, Eq)]
pub struct ArgObject {
    pub fields: Vec<(String, ArgValue)>,
}

impl View for ArgObject {
    type V = Seq<(Seq<char>, ArgSpec)>;

    open spec fn view(&self) -> Seq<(Seq<char>, ArgSpec)> {
        Seq::new(self.fields@.len(), |i: int| (self.fields@[i].0@, self.fields@[i].1@))
    }
}

/// A string value holding a copy of `s`.
pub fn arg_str(s: &str) -> (r: ArgValue)
    ensures
        r@ == ArgSpec::Str(s@),
{
    ArgValue::Str(s.to_owned())
}

/// A string value owning `s`.
pub fn arg_string(s: String) -> (r: ArgValue)
    ensures
        r@ == ArgSpec::Str(s@),
{
    ArgValue::Str(s)
}

/// An object with one field.
pub fn arg_obj1(k1: &str, v1: ArgValue) -> (r: ArgObject)
    ensures
        r@ == seq![(k1@, v1@)],
{
    let ghost gv1 = v1@;
    let mut fields: Vec<(String, ArgValue)> = Vec::new();
    fields.push((k1.to_owned(), v1));
    let r = ArgObject { fields };
    proof {
        assert(r@ =~= seq![(k1@, gv1)]);
    }
    r
}

/// An object with two fields, in order.
pub fn arg_obj2(k1: &str, v1: ArgValue, k2: &str, v2: ArgValue) -> (r: ArgObject)
    ensures
        r@ == seq![(k1@, v1@), (k2@, v2@)],
{
    let ghost gv1 = v1@;
    let ghost gv2 = v2@;
    let mut fields: Vec<(String, ArgValue)> = Vec::new();
    fields.push((k1.to_owned(), v1));
    fields.push((k2.to_owned(), v2));
    let r = ArgObject { fields };
    proof {
        assert(r@ =~= seq![(k1@, gv1), (k2@, gv2)]);
    }
    r
}

/// An object with three fields, in order.
pub fn arg_obj3(k1: &str, v1: ArgValue, k2: &str, v2: ArgValue, k3: &str, v3: ArgValue) -> (r:
    ArgObject)
    ensures
        r@ == seq![(k1@, v1@), (k2@, v2@), (k3@, v3@)],
{
    let ghost gv1 = v1@;
    let ghost gv2 = v2@;
    let ghost gv3 = v3@;
    let mut fields: Vec<(String, ArgValue)> = Vec::new();
    fields.push((k1.to_owned(), v1));
    fields.push((k2.to_owned(), v2));
    fields.push((k3.to_owned(), v3));
    let r = ArgObject { fields };
    proof {
        assert(r@ =~= seq![(k1@, gv1), (k2@, gv2), (k3@, gv3)]);
    }
    r
}

/// An object with four fields, in order.
pub fn arg_obj4(
    k1: &str,
    v1: ArgValue,
    k2: &str,
    v2: ArgValue,
    k3: &str,
    v3: ArgValue,
    k4: &str,
    v4: ArgValue,
) -> (r: ArgObject)
    ensures
        r@ == seq![(k1@, v1@), (k2@, v2@), (k3@, v3@), (k4@, v4@)],
{
    let ghost gv1 = v1@;
    let ghost gv2 = v2@;
    let ghost gv3 = v3@;
    let ghost gv4 = v4@;
    let mut fields: Vec<(String, ArgValue)> = Vec::new();
    fields.push((k1.to_owned(), v1));
    fields.push((k2.to_owned(), v2));
    fields.push((k3.to_owned(), v3));
    fields.push((k4.to_owned(), v4));
    let r = ArgObject { fields };
    proof {
        assert(r@ =~= seq![(k1@, gv1), (k2@, gv2), (k3@, gv3), (k4@, gv4)]);
    }
    r
}

} // verus!
