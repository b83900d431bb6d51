//! Classification of an opaque handle by its host type tag into a closed
//! sum type, and the conversion back to the handle.

use vstd::prelude::*;

use crate::value::{
    qfalse, qnil, qtrue, spec_qfalse, spec_qnil, spec_qtrue, Enumerator, Float, Integer, RArray,
    RClass, RComplex, RFile, RHash, RMatch, RModule, RObject, RRational, RRegexp, RString, RStruct,
    RTypedData, Range, Symbol, Value,
};

verus! {

/// The dynamic category of a handle's referent, as the host runtime reports
/// it. This is a closed enumeration: the host can report no tag outside it.
#[derive(Clone, Copy, Debug, PartialEq, Eq, Structural)]
pub enum TypeTag {
    /// The host's empty-slot marker: reported when the referent has already
    /// been reclaimed. Passing a handle with this tag to `from_value` is a
    /// fatal misuse, never a recoverable condition.
    Reclaimed,
    /// A plain object.
    Object,
    /// A class.
    Class,
    /// A module.
    Module,
    /// A floating-point number.
    Float,
    /// A string.
    String,
    /// A regular expression.
    Regexp,
    /// An array.
    Array,
    /// A hash table.
    Hash,
    /// A struct of the host language.
    Struct,
    /// An integer in the host's arbitrary-precision encoding.
    Bignum,
    /// A file object.
    File,
    /// Native data wrapped in a host object.
    Data,
    /// A regular-expression match.
    Match,
    /// A complex number.
    Complex,
    /// A rational number.
    Rational,
    /// The `nil` constant.
    Nil,
    /// The `true` constant.
    True,
    /// The `false` constant.
    False,
    /// A symbol.
    Symbol,
    /// An integer in the host's small inline encoding.
    Fixnum,
    /// The host's internal "undefined" placeholder.
    Undef,
    /// An internal host object invisible to host-language code.
    Imemo,
    /// An internal syntax-tree node of the host.
    Node,
    /// An internal include-class of the host.
    IClass,
    /// An object awaiting finalization inside the host's collector.
    Zombie,
    /// The forwarding marker of an object the host's collector relocated.
    Moved,
    /// The host's mask over all tag bits; never a real category, but
    /// representable, so it is classified like the other internal tags.
    Mask,
}

/// A strongly typed view of a handle: one case per dynamic category, plus
/// payload-free cases for the singleton constants and a catch-all case for
/// the host's internal categories.
#[derive(Clone, Copy, Debug, PartialEq, Eq, Structural)]
pub enum TypedValue {
    /// An integer. Both internal integer encodings of the host collapse to
    /// this one case; callers cannot depend on which encoding produced it.
    Integer(Integer),
    /// A floating-point number.
    Float(Float),
    /// A complex number.
    Complex(RComplex),
    /// A rational number.
    Rational(RRational),
    /// A string.
    String(RString),
    /// A symbol.
    Symbol(Symbol),
    /// A range.
    Range(Range),
    /// An array.
    Array(RArray),
    /// A hash table.
    Hash(RHash),
    /// A struct of the host language.
    Struct(RStruct),
    /// Native data wrapped in a host object.
    TypedData(RTypedData),
    /// A plain object.
    Object(RObject),
    /// A class.
    Class(RClass),
    /// A module.
    Module(RModule),
    /// A file object.
    File(RFile),
    /// A regular-expression match.
    Match(RMatch),
    /// An enumerator.
    Enumerator(Enumerator),
    /// A regular expression.
    Regexp(RRegexp),
    /// The catch-all case: a handle whose tag names an internal, transient
    /// host category with no safe typed wrapper. The handle is kept as it
    /// is.
    Value(Value),
    /// The `true` constant. Carries no handle: the canonical handle is
    /// recovered on demand.
    True,
    /// The `false` constant. Carries no handle: the canonical handle is
    /// recovered on demand.
    False,
    /// The `nil` constant. Carries no handle: the canonical handle is
    /// recovered on demand.
    Nil,
}

/// The total mapping from a handle and its reported tag to the typed case:
/// the specification of `TypedValue::from_value`.
///
/// Left unspecified on the reclaimed tag, which `from_value` refuses.
pub open spec fn spec_classify(val: Value, tag: TypeTag) -> TypedValue {
    match tag {
        TypeTag::Reclaimed => arbitrary(),
        TypeTag::Object => TypedValue::Object(RObject(val)),
        TypeTag::Class => TypedValue::Class(RClass(val)),
        TypeTag::Module => TypedValue::Module(RModule(val)),
        TypeTag::Float => TypedValue::Float(Float(val)),
        TypeTag::String => TypedValue::String(RString(val)),
        TypeTag::Regexp => TypedValue::Regexp(RRegexp(val)),
        TypeTag::Array => TypedValue::Array(RArray(val)),
        TypeTag::Hash => TypedValue::Hash(RHash(val)),
        TypeTag::Struct => TypedValue::Struct(RStruct(val)),
        TypeTag::Bignum => TypedValue::Integer(Integer(val)),
        TypeTag::File => TypedValue::File(RFile(val)),
        TypeTag::Data => TypedValue::TypedData(RTypedData(val)),
        TypeTag::Match => TypedValue::Match(RMatch(val)),
        TypeTag::Complex => TypedValue::Complex(RComplex(val)),
        TypeTag::Rational => TypedValue::Rational(RRational(val)),
        TypeTag::Nil => TypedValue::Nil,
        TypeTag::True => TypedValue::True,
        TypeTag::False => TypedValue::False,
        TypeTag::Symbol => TypedValue::Symbol(Symbol(val)),
        TypeTag::Fixnum => TypedValue::Integer(Integer(val)),
        TypeTag::Undef => TypedValue::Value(val),
        TypeTag::Imemo => TypedValue::Value(val),
        TypeTag::Node => TypedValue::Value(val),
        TypeTag::IClass => TypedValue::Value(val),
        TypeTag::Zombie => TypedValue::Value(val),
        TypeTag::Moved => TypedValue::Value(val),
        TypeTag::Mask => TypedValue::Value(val),
    }
}

/// The handle a typed case stands for: the specification of
/// `TypedValue::as_value`. Total: the singleton cases yield the canonical
/// handle of their constant, every other case yields the handle it wraps.
pub open spec fn spec_materialize(tv: TypedValue) -> Value {
    match tv {
        TypedValue::Integer(i) => i.0,
        TypedValue::Float(f) => f.0,
        TypedValue::Complex(c) => c.0,
        TypedValue::Rational(r) => r.0,
        TypedValue::String(s) => s.0,
        TypedValue::Symbol(s) => s.0,
        TypedValue::Range(r) => r.0,
        TypedValue::Array(a) => a.0,
        TypedValue::Hash(h) => h.0,
        TypedValue::Struct(s) => s.0,
        TypedValue::TypedData(t) => t.0,
        TypedValue::Object(o) => o.0,
        TypedValue::Class(c) => c.0,
        TypedValue::Module(m) => m.0,
        TypedValue::File(f) => f.0,
        TypedValue::Match(m) => m.0,
        TypedValue::Enumerator(e) => e.0,
        TypedValue::Regexp(r) => r.0,
        TypedValue::Value(v) => v,
        TypedValue::True => spec_qtrue(),
        TypedValue::False => spec_qfalse(),
        TypedValue::Nil => spec_qnil(),
    }
}

/// True of the tags that name internal, transient host categories: those
/// with no safe typed wrapper, which classification sends to the catch-all
/// case.
pub open spec fn is_internal_tag(tag: TypeTag) -> bool {
    ||| tag == TypeTag::Undef
    ||| tag == TypeTag::Imemo
    ||| tag == TypeTag::Node
    ||| tag == TypeTag::IClass
    ||| tag == TypeTag::Zombie
    ||| tag == TypeTag::Moved
    ||| tag == TypeTag::Mask
}

/// True when a handle-and-tag pair is one the host runtime can actually
/// report: the host reports a singleton tag only for the canonical handle
/// of that constant. Every pair handed to this crate by a live host
/// satisfies it.
pub open spec fn singleton_consistent(val: Value, tag: TypeTag) -> bool {
    &&& tag == TypeTag::True ==> val == spec_qtrue()
    &&& tag == TypeTag::False ==> val == spec_qfalse()
    &&& tag == TypeTag::Nil ==> val == spec_qnil()
}

/// Exhaustiveness: every tag the host can report, other than the reclaimed
/// marker, is classified to exactly one case, and which case it is depends
/// on the tag alone. Each clause pins one case to exactly the tags that
/// produce it: in particular, the host's two internal integer encodings
/// collapse to the single `Integer` case, every internal tag lands in the
/// single catch-all case, and no tag produces the `Range` or `Enumerator`
/// case, which other constructors of the host binding build.
pub proof fn lemma_classify_exhaustive(val: Value, tag: TypeTag)
    requires
        tag != TypeTag::Reclaimed,
    ensures
        spec_classify(val, tag) is Integer <==> (tag == TypeTag::Fixnum || tag
            == TypeTag::Bignum),
        spec_classify(val, tag) is Float <==> tag == TypeTag::Float,
        spec_classify(val, tag) is Complex <==> tag == TypeTag::Complex,
        spec_classify(val, tag) is Rational <==> tag == TypeTag::Rational,
        spec_classify(val, tag) is String <==> tag == TypeTag::String,
        spec_classify(val, tag) is Symbol <==> tag == TypeTag::Symbol,
        !(spec_classify(val, tag) is Range),
        spec_classify(val, tag) is Array <==> tag == TypeTag::Array,
        spec_classify(val, tag) is Hash <==> tag == TypeTag::Hash,
        spec_classify(val, tag) is Struct <==> tag == TypeTag::Struct,
        spec_classify(val, tag) is TypedData <==> tag == TypeTag::Data,
        spec_classify(val, tag) is Object <==> tag == TypeTag::Object,
        spec_classify(val, tag) is Class <==> tag == TypeTag::Class,
        spec_classify(val, tag) is Module <==> tag == TypeTag::Module,
        spec_classify(val, tag) is File <==> tag == TypeTag::File,
        spec_classify(val, tag) is Match <==> tag == TypeTag::Match,
        !(spec_classify(val, tag) is Enumerator),
        spec_classify(val, tag) is Regexp <==> tag == TypeTag::Regexp,
        spec_classify(val, tag) is Value <==> is_internal_tag(tag),
        spec_classify(val, tag) is True <==> tag == TypeTag::True,
        spec_classify(val, tag) is False <==> tag == TypeTag::False,
        spec_classify(val, tag) is Nil <==> tag == TypeTag::Nil,
{
}

/// Round trip: for every live handle-and-tag pair the host can report,
/// converting the typed case back yields the very handle that was
/// classified. The host reports a singleton tag only for that constant's
/// canonical handle, which is all `singleton_consistent` asks; for every
/// other tag the law holds of every handle outright. Even the two integer
/// encodings, which collapse to one case, keep the handle itself unchanged.
pub proof fn lemma_round_trip(val: Value, tag: TypeTag)
    requires
        tag != TypeTag::Reclaimed,
        singleton_consistent(val, tag),
    ensures
        spec_materialize(spec_classify(val, tag)) == val,
{
}

/// Singleton correctness: each canonical constant handle classifies to its
/// payload-free case, and each such case materializes back to the canonical
/// handle. The host's "undefined" placeholder gets no case of its own:
/// `lemma_catch_all` shows its tag landing in the catch-all case.
pub proof fn lemma_singleton_correct()
    ensures
        spec_classify(spec_qtrue(), TypeTag::True) == TypedValue::True,
        spec_classify(spec_qfalse(), TypeTag::False) == TypedValue::False,
        spec_classify(spec_qnil(), TypeTag::Nil) == TypedValue::Nil,
        spec_materialize(TypedValue::True) == spec_qtrue(),
        spec_materialize(TypedValue::False) == spec_qfalse(),
        spec_materialize(TypedValue::Nil) == spec_qnil(),
{
}

/// Catch-all containment: every internal, transient host tag is classified
/// to the one catch-all case with the handle kept as it is, and
/// materializing that case returns the handle unchanged.
pub proof fn lemma_catch_all(val: Value, tag: TypeTag)
    requires
        is_internal_tag(tag),
    ensures
        spec_classify(val, tag) == TypedValue::Value(val),
        spec_materialize(spec_classify(val, tag)) == val,
{
}

impl TypedValue {
    /// Creates a new `TypedValue` from a handle and the type tag the host
    /// reports for it.
    ///
    /// The caller must have queried the tag from the host for this very
    /// handle, and the handle must still be live: the reclaimed tag is
    /// refused here, since classifying a dangling handle is a fatal misuse
    /// that the host binding answers by aborting, never by returning a
    /// case.
    pub fn from_value(val: Value, tag: TypeTag) -> (r: TypedValue)
        requires
            tag != TypeTag::Reclaimed,
        ensures
            r == spec_classify(val, tag),
    {
        match tag {
            TypeTag::Reclaimed => unreached(),
            TypeTag::Object => TypedValue::Object(RObject(val)),
            TypeTag::Class => TypedValue::Class(RClass(val)),
            TypeTag::Module => TypedValue::Module(RModule(val)),
            TypeTag::Float => TypedValue::Float(Float(val)),
            TypeTag::String => TypedValue::String(RString(val)),
            TypeTag::Regexp => TypedValue::Regexp(RRegexp(val)),
            TypeTag::Array => TypedValue::Array(RArray(val)),
            TypeTag::Hash => TypedValue::Hash(RHash(val)),
            TypeTag::Struct => TypedValue::Struct(RStruct(val)),
            TypeTag::Bignum => TypedValue::Integer(Integer(val)),
            TypeTag::File => TypedValue::File(RFile(val)),
            TypeTag::Data => TypedValue::TypedData(RTypedData(val)),
            TypeTag::Match => TypedValue::Match(RMatch(val)),
            TypeTag::Complex => TypedValue::Complex(RComplex(val)),
            TypeTag::Rational => TypedValue::Rational(RRational(val)),
            TypeTag::Nil => TypedValue::Nil,
            TypeTag::True => TypedValue::True,
            TypeTag::False => TypedValue::False,
            TypeTag::Symbol => TypedValue::Symbol(Symbol(val)),
            TypeTag::Fixnum => TypedValue::Integer(Integer(val)),
            TypeTag::Undef => TypedValue::Value(val),
            TypeTag::Imemo => TypedValue::Value(val),
            TypeTag::Node => TypedValue::Value(val),
            TypeTag::IClass => TypedValue::Value(val),
            TypeTag::Zombie => TypedValue::Value(val),
            TypeTag::Moved => TypedValue::Value(val),
            TypeTag::Mask => TypedValue::Value(val),
        }
    }

    /// The handle this case stands for: the wrapped handle, or the
    /// canonical constant handle for the singleton cases.
    pub fn as_value(&self) -> (r: Value)
        ensures
            r == spec_materialize(*self),
    {
        match self {
            TypedValue::Integer(i) => i.as_value(),
            TypedValue::Float(f) => f.as_value(),
            TypedValue::Complex(c) => c.as_value(),
            TypedValue::Rational(r) => r.as_value(),
            TypedValue::String(s) => s.as_value(),
            TypedValue::Symbol(s) => s.as_value(),
            TypedValue::Range(r) => r.as_value(),
            TypedValue::Array(a) => a.as_value(),
            TypedValue::Hash(h) => h.as_value(),
            TypedValue::Struct(s) => s.as_value(),
            TypedValue::TypedData(t) => t.as_value(),
            TypedValue::Object(o) => o.as_value(),
            TypedValue::Class(c) => c.as_value(),
            TypedValue::Module(m) => m.as_value(),
            TypedValue::File(f) => f.as_value(),
            TypedValue::Match(m) => m.as_value(),
            TypedValue::Enumerator(e) => e.as_value(),
            TypedValue::Regexp(r) => r.as_value(),
            TypedValue::Value(v) => *v,
            TypedValue::True => qtrue(),
            TypedValue::False => qfalse(),
            TypedValue::Nil => qnil(),
        }
    }
}

} // verus!
