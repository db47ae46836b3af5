//! The argument model: one parameter of a foreign function, and the four
//! fragments of wrapper code that it gives rise to.
//!
//! The fragments are token texts: tokens separated by single blanks. Each is
//! a function of the argument's name and type alone.
use vstd::prelude::*;
use vstd::string::*;
use crate::codegen::funcs::LvFunc;
use crate::codegen::rusty::Rusty;
use crate::codegen::skip::{outcome, SkipReason, SkipView, WrapperResult};
use crate::codegen::types::{
    const_object,
    const_str,
    const_style,
    mut_object,
    mut_str,
    mut_style,
    parameter_type,
    LvType,
};

verus! {

/// Whether `syn` reads `name` as one identifier that is not a keyword.
pub uninterp spec fn parses_as_ident(name: Seq<char>) -> bool;

/// Asks `syn::parse_str::<syn::Ident>` whether `name` is an identifier that
/// can stand as it is. The answer is a function of the text alone; the
/// contract gives it its name and claims nothing else of it.
#[verifier::external_body]
fn parse_ident(name: &str) -> (r: bool)
    ensures
        r == parses_as_ident(name@),
{
    syn::parse_str::<syn::Ident>(name).is_ok()
}

/// The identifier under which a parameter called `name` is declared: the
/// name itself where it can stand as an identifier, else the name as a raw
/// identifier.
pub open spec fn binding_name(name: Seq<char>, plain: bool) -> Seq<char> {
    if plain {
        name
    } else {
        "r#"@ + name
    }
}

/// The name of the raw buffer that stands for a mutable C string during the
/// foreign call.
pub open spec fn raw_buffer(name: Seq<char>) -> Seq<char> {
    name + "_raw"@
}

/// An argument as plain values: its name and its type descriptor.
pub ghost struct ArgView {
    pub name: Seq<char>,
    pub typ: Seq<char>,
}

impl ArgView {
    /// The identifier that declares the parameter.
    pub open spec fn ident(self) -> Seq<char> {
        binding_name(self.name, parses_as_ident(self.name))
    }

    /// The parameter in the wrapper's signature, `name : type`, or the
    /// reason why the type cannot be taken.
    pub open spec fn declaration(self) -> Result<Seq<char>, SkipView> {
        match parameter_type(self.typ) {
            Ok(t) => Ok(self.ident() + " : "@ + t),
            Err(reason) => Err(reason),
        }
    }

    /// What runs before the foreign call. A mutable C string gives up its
    /// buffer to a raw pointer; nothing else needs anything.
    pub open spec fn pre_call(self) -> Seq<char> {
        if mut_str(self.typ) {
            "let "@ + raw_buffer(self.name) + " = "@ + self.name + " . clone () . into_raw () ;"@
        } else {
            Seq::empty()
        }
    }

    /// What runs after the foreign call. A mutable C string takes its
    /// buffer back from the raw pointer; nothing else needs anything.
    pub open spec fn post_call(self) -> Seq<char> {
        if mut_str(self.typ) {
            "* "@ + self.name + " = :: alloc :: ffi :: CString :: from_raw ("@ + raw_buffer(
                self.name,
            ) + ") ;"@
        } else {
            Seq::empty()
        }
    }

    /// How the value is referred to in the foreign call: a C string by its
    /// pointer, a mutable C string by its raw buffer, a style by its raw
    /// pointer, anything else by its identifier.
    pub open spec fn value_usage(self) -> Seq<char> {
        if const_str(self.typ) {
            self.ident() + " . as_ptr ()"@
        } else if mut_str(self.typ) {
            raw_buffer(self.name)
        } else if const_style(self.typ) {
            self.ident() + " . raw ()"@
        } else if mut_style(self.typ) {
            self.ident() + " . raw_mut ()"@
        } else {
            self.ident()
        }
    }

    /// The expression handed to the foreign function: the value as it is
    /// referred to, an object handle by its raw pointer.
    pub open spec fn call_expression(self) -> Seq<char> {
        if mut_object(self.typ) {
            self.value_usage() + " . raw_mut ()"@
        } else if const_object(self.typ) {
            self.value_usage() + " . raw ()"@
        } else {
            self.value_usage()
        }
    }
}

/// One parameter of a foreign function.
#[derive(Debug)]
pub struct LvArg {
    pub name: String,
    pub typ: LvType,
}

impl View for LvArg {
    type V = ArgView;

    open spec fn view(&self) -> ArgView {
        ArgView { name: self.name@, typ: self.typ@ }
    }
}

impl Clone for LvArg {
    fn clone(&self) -> (r: Self)
        ensures
            r@ == self@,
    {
        LvArg { name: self.name.clone(), typ: self.typ.clone() }
    }
}

/// The identifier for a parameter called `name`, given whether the name can
/// stand as an identifier.
pub fn name_ident(name: &str, plain: bool) -> (r: String)
    ensures
        r@ == binding_name(name@, plain),
{
    if plain {
        String::from_str(name)
    } else {
        let mut r = String::from_str("r#");
        r.append(name);
        r
    }
}

impl LvArg {
    /// The argument called `name` of type `typ`.
    pub fn new(name: String, typ: LvType) -> (r: Self)
        ensures
            r@ == (ArgView { name: name@, typ: typ@ }),
    {
        LvArg { name, typ }
    }

    /// The argument's type.
    pub fn get_type(&self) -> (r: &LvType)
        ensures
            r@ == self@.typ,
    {
        &self.typ
    }

    /// The identifier that declares the parameter. Keywords are escaped.
    pub fn get_name_ident(&self) -> (r: String)
        ensures
            r@ == self@.ident(),
    {
        let plain = parse_ident(self.name.as_str());
        name_ident(self.name.as_str(), plain)
    }

    /// The name of the raw buffer of a mutable C string.
    fn raw_buffer_name(&self) -> (r: String)
        ensures
            r@ == raw_buffer(self@.name),
    {
        let mut r = self.name.clone();
        r.append("_raw");
        r
    }

    /// The code that runs before the foreign call.
    pub fn get_preprocessing(&self) -> (r: String)
        ensures
            r@ == self@.pre_call(),
    {
        if self.typ.is_mut_str() {
            let raw = self.raw_buffer_name();
            let mut r = String::from_str("let ");
            r.append(raw.as_str());
            r.append(" = ");
            r.append(self.name.as_str());
            r.append(" . clone () . into_raw () ;");
            r
        } else {
            String::new()
        }
    }

    /// The code that runs after the foreign call.
    pub fn get_postprocessing(&self) -> (r: String)
        ensures
            r@ == self@.post_call(),
    {
        if self.typ.is_mut_str() {
            let raw = self.raw_buffer_name();
            let mut r = String::from_str("* ");
            r.append(self.name.as_str());
            r.append(" = :: alloc :: ffi :: CString :: from_raw (");
            r.append(raw.as_str());
            r.append(") ;");
            r
        } else {
            String::new()
        }
    }

    /// How the value is referred to in the foreign call.
    pub fn get_value_usage(&self) -> (r: String)
        ensures
            r@ == self@.value_usage(),
    {
        if self.typ.is_const_str() {
            let mut r = self.get_name_ident();
            r.append(" . as_ptr ()");
            r
        } else if self.typ.is_mut_str() {
            self.raw_buffer_name()
        } else if self.typ.is_const_style() {
            let mut r = self.get_name_ident();
            r.append(" . raw ()");
            r
        } else if self.typ.is_mut_style() {
            let mut r = self.get_name_ident();
            r.append(" . raw_mut ()");
            r
        } else {
            self.get_name_ident()
        }
    }

    /// The expression handed to the foreign function.
    pub fn call_expression(&self) -> (r: String)
        ensures
            r@ == self@.call_expression(),
    {
        let mut r = self.get_value_usage();
        if self.typ.is_mut_native_object() {
            r.append(" . raw_mut ()");
        } else if self.typ.is_const_native_object() {
            r.append(" . raw ()");
        }
        r
    }

    /// The parameter in the wrapper's signature, or the reason why its type
    /// cannot be taken.
    pub fn declaration(&self) -> (r: WrapperResult<String>)
        ensures
            outcome(r) == self@.declaration(),
    {
        match self.typ.parameter_type() {
            Ok(t) => {
                let mut r = self.get_name_ident();
                r.append(" : ");
                r.append(t.as_str());
                Ok(r)
            },
            Err(reason) => Err(reason),
        }
    }
}

impl Rusty for LvArg {
    type Parent = LvFunc;

    /// The parameter in the wrapper's signature, or the reason why its type
    /// cannot be taken.
    fn code(&self, _parent: &LvFunc) -> (r: WrapperResult<String>)
        ensures
            outcome(r) == self@.declaration(),
    {
        self.declaration()
    }
}

} // verus!
