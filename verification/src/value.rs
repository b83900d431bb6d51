//! The opaque handle type and the canonical handles of the singleton
//! constants.

use vstd::prelude::*;

verus! {

/// On 64-bit builds of the host runtime, the word encoding the `false`
/// constant.
pub const QFALSE_RAW: u64 = 0x00;

/// On 64-bit builds of the host runtime, the word encoding the `nil`
/// constant.
pub const QNIL_RAW: u64 = 0x08;

/// On 64-bit builds of the host runtime, the word encoding the `true`
/// constant.
pub const QTRUE_RAW: u64 = 0x14;

/// An opaque handle of the host runtime: a fixed-width word that encodes
/// either a pointer to a heap object or an immediate value.
///
/// The handle is borrowed from the host: this crate never allocates or
/// frees its referent, and a handle is only meaningful while the host keeps
/// the referent live and in place.
#[derive(Clone, Copy, Debug, PartialEq, Eq, Structural)]
pub struct Value {
    /// The raw word exactly as the host runtime represents it.
    pub raw: u64,
}

impl Value {
    /// Wraps a raw word of the host runtime.
    pub fn new(raw: u64) -> (v: Value)
        ensures
            v.raw == raw,
    {
        Value { raw }
    }

    /// The raw word of the host runtime that this handle wraps.
    pub fn as_rb_value(&self) -> (r: u64)
        ensures
            r == self.raw,
    {
        self.raw
    }
}

/// The canonical handle of the `false` constant.
pub open spec fn spec_qfalse() -> Value {
    Value { raw: QFALSE_RAW }
}

/// The canonical handle of the `nil` constant.
pub open spec fn spec_qnil() -> Value {
    Value { raw: QNIL_RAW }
}

/// The canonical handle of the `true` constant.
pub open spec fn spec_qtrue() -> Value {
    Value { raw: QTRUE_RAW }
}

/// The canonical handle of the `false` constant, as the host encodes it.
pub fn qfalse() -> (v: Value)
    ensures
        v == spec_qfalse(),
{
    Value { raw: QFALSE_RAW }
}

/// The canonical handle of the `nil` constant, as the host encodes it.
pub fn qnil() -> (v: Value)
    ensures
        v == spec_qnil(),
{
    Value { raw: QNIL_RAW }
}

/// The canonical handle of the `true` constant, as the host encodes it.
pub fn qtrue() -> (v: Value)
    ensures
        v == spec_qtrue(),
{
    Value { raw: QTRUE_RAW }
}

// The typed wrappers: one per dynamic category the host distinguishes. Each
// is a transparent view of the handle it wraps. In the host binding a wrapper
// is only meaningful for a handle whose current type tag matches the
// wrapper's category; `TypedValue::from_value` is the canonical constructor
// that establishes this, so obtain wrappers through it.

/// A handle whose referent is an integer, in either of the host's two
/// internal encodings (small inline or arbitrary precision).
#[derive(Clone, Copy, Debug, PartialEq, Eq, Structural)]
pub struct Integer(pub Value);

impl Integer {
    /// The handle this wrapper views.
    pub fn as_value(&self) -> (r: Value)
        ensures
            r == self.0,
    {
        self.0
    }
}

/// A handle whose referent is a floating-point number of the host.
#[derive(Clone, Copy, Debug, PartialEq, Eq, Structural)]
pub struct Float(pub Value);

impl Float {
    /// The handle this wrapper views.
    pub fn as_value(&self) -> (r: Value)
        ensures
            r == self.0,
    {
        self.0
    }
}

/// A handle whose referent is a complex number.
#[derive(Clone, Copy, Debug, PartialEq, Eq, Structural)]
pub struct RComplex(pub Value);

impl RComplex {
    /// The handle this wrapper views.
    pub fn as_value(&self) -> (r: Value)
        ensures
            r == self.0,
    {
        self.0
    }
}

/// A handle whose referent is a rational number.
#[derive(Clone, Copy, Debug, PartialEq, Eq, Structural)]
pub struct RRational(pub Value);

impl RRational {
    /// The handle this wrapper views.
    pub fn as_value(&self) -> (r: Value)
        ensures
            r == self.0,
    {
        self.0
    }
}

/// A handle whose referent is a string.
#[derive(Clone, Copy, Debug, PartialEq, Eq, Structural)]
pub struct RString(pub Value);

impl RString {
    /// The handle this wrapper views.
    pub fn as_value(&self) -> (r: Value)
        ensures
            r == self.0,
    {
        self.0
    }
}

/// A handle whose referent is a symbol.
#[derive(Clone, Copy, Debug, PartialEq, Eq, Structural)]
pub struct Symbol(pub Value);

impl Symbol {
    /// The handle this wrapper views.
    pub fn as_value(&self) -> (r: Value)
        ensures
            r == self.0,
    {
        self.0
    }
}

/// A handle whose referent is a range.
#[derive(Clone, Copy, Debug, PartialEq, Eq, Structural)]
pub struct Range(pub Value);

impl Range {
    /// The handle this wrapper views.
    pub fn as_value(&self) -> (r: Value)
        ensures
            r == self.0,
    {
        self.0
    }
}

/// A handle whose referent is an array.
#[derive(Clone, Copy, Debug, PartialEq, Eq, Structural)]
pub struct RArray(pub Value);

impl RArray {
    /// The handle this wrapper views.
    pub fn as_value(&self) -> (r: Value)
        ensures
            r == self.0,
    {
        self.0
    }
}

/// A handle whose referent is a hash table.
#[derive(Clone, Copy, Debug, PartialEq, Eq, Structural)]
pub struct RHash(pub Value);

impl RHash {
    /// The handle this wrapper views.
    pub fn as_value(&self) -> (r: Value)
        ensures
            r == self.0,
    {
        self.0
    }
}

/// A handle whose referent is a struct of the host language.
#[derive(Clone, Copy, Debug, PartialEq, Eq, Structural)]
pub struct RStruct(pub Value);

impl RStruct {
    /// The handle this wrapper views.
    pub fn as_value(&self) -> (r: Value)
        ensures
            r == self.0,
    {
        self.0
    }
}

/// A handle whose referent is a typed-data object: native data wrapped in a
/// host object.
#[derive(Clone, Copy, Debug, PartialEq, Eq, Structural)]
pub struct RTypedData(pub Value);

impl RTypedData {
    /// The handle this wrapper views.
    pub fn as_value(&self) -> (r: Value)
        ensures
            r == self.0,
    {
        self.0
    }
}

/// A handle whose referent is a plain object.
#[derive(Clone, Copy, Debug, PartialEq, Eq, Structural)]
pub struct RObject(pub Value);

impl RObject {
    /// The handle this wrapper views.
    pub fn as_value(&self) -> (r: Value)
        ensures
            r == self.0,
    {
        self.0
    }
}

/// A handle whose referent is a class.
#[derive(Clone, Copy, Debug, PartialEq, Eq, Structural)]
pub struct RClass(pub Value);

impl RClass {
    /// The handle this wrapper views.
    pub fn as_value(&self) -> (r: Value)
        ensures
            r == self.0,
    {
        self.0
    }
}

/// A handle whose referent is a module.
#[derive(Clone, Copy, Debug, PartialEq, Eq, Structural)]
pub struct RModule(pub Value);

impl RModule {
    /// The handle this wrapper views.
    pub fn as_value(&self) -> (r: Value)
        ensures
            r == self.0,
    {
        self.0
    }
}

/// A handle whose referent is a file object.
#[derive(Clone, Copy, Debug, PartialEq, Eq, Structural)]
pub struct RFile(pub Value);

impl RFile {
    /// The handle this wrapper views.
    pub fn as_value(&self) -> (r: Value)
        ensures
            r == self.0,
    {
        self.0
    }
}

/// A handle whose referent is a regular-expression match.
#[derive(Clone, Copy, Debug, PartialEq, Eq, Structural)]
pub struct RMatch(pub Value);

impl RMatch {
    /// The handle this wrapper views.
    pub fn as_value(&self) -> (r: Value)
        ensures
            r == self.0,
    {
        self.0
    }
}

/// A handle whose referent is an enumerator.
#[derive(Clone, Copy, Debug, PartialEq, Eq, Structural)]
pub struct Enumerator(pub Value);

impl Enumerator {
    /// The handle this wrapper views.
    pub fn as_value(&self) -> (r: Value)
        ensures
            r == self.0,
    {
        self.0
    }
}

/// A handle whose referent is a regular expression.
#[derive(Clone, Copy, Debug, PartialEq, Eq, Structural)]
pub struct RRegexp(pub Value);

impl RRegexp {
    /// The handle this wrapper views.
    pub fn as_value(&self) -> (r: Value)
        ensures
            r == self.0,
    {
        self.0
    }
}

} // verus!
