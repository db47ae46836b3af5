//! The type classifier: what a raw type descriptor stands for.
//!
//! A descriptor is the text of a foreign type as a token stream prints it:
//! tokens separated by single blanks, as in `* mut lv_obj_t`. Classification
//! looks at nothing but this text. The facets are independent predicates, not
//! one exclusive category, since later stages combine them.
use vstd::prelude::*;
use vstd::string::*;
use crate::codegen::args::LvArg;
use crate::codegen::rusty::Rusty;
use crate::codegen::skip::{outcome, SkipReason, SkipView, WrapperResult};
use crate::text::{has_prefix, remove_all, same_text, without};

verus! {

/// A pointer of any kind: the descriptor begins with a star.
pub open spec fn pointer(t: Seq<char>) -> bool {
    "*"@.is_prefix_of(t)
}

/// A pointer to constant data.
pub open spec fn const_pointer(t: Seq<char>) -> bool {
    "* const"@.is_prefix_of(t)
}

/// A pointer to mutable data.
pub open spec fn mut_pointer(t: Seq<char>) -> bool {
    "* mut"@.is_prefix_of(t)
}

/// An array: a pointer to a pointer.
pub open spec fn array_shaped(t: Seq<char>) -> bool {
    "* mut *"@.is_prefix_of(t) || "* const *"@.is_prefix_of(t)
}

/// A constant pointer to the object handle.
pub open spec fn const_object(t: Seq<char>) -> bool {
    t == "* const lv_obj_t"@ || t == "* const _lv_obj_t"@
}

/// A mutable pointer to the object handle.
pub open spec fn mut_object(t: Seq<char>) -> bool {
    t == "* mut lv_obj_t"@ || t == "* mut _lv_obj_t"@
}

/// A constant pointer to the style record.
pub open spec fn const_style(t: Seq<char>) -> bool {
    t == "* const lv_style_t"@
}

/// A mutable pointer to the style record.
pub open spec fn mut_style(t: Seq<char>) -> bool {
    t == "* mut lv_style_t"@
}

/// A constant C string: a constant pointer to the C character type, written
/// with its full path or bare.
pub open spec fn const_str(t: Seq<char>) -> bool {
    t == "* const :: core :: ffi :: c_char"@ || t == "* const c_char"@
}

/// A mutable C string: a mutable pointer to the C character type, written
/// with its full path or bare.
pub open spec fn mut_str(t: Seq<char>) -> bool {
    t == "* mut :: core :: ffi :: c_char"@ || t == "* mut c_char"@
}

/// The descriptor begins with the word `const`.
pub open spec fn leading_const(t: Seq<char>) -> bool {
    "const "@.is_prefix_of(t)
}

/// A pointer to the object handle or to the style record: what makes a
/// first argument a receiver.
pub open spec fn handle(t: Seq<char>) -> bool {
    const_object(t) || mut_object(t) || const_style(t) || mut_style(t)
}

/// The descriptor without its pointer markers: what is pointed to.
pub open spec fn pointee(t: Seq<char>) -> Seq<char> {
    without(without(t, "* const "@), "* mut "@)
}

/// Untyped data: what is pointed to is C's `void`.
pub open spec fn untyped_payload(t: Seq<char>) -> bool {
    pointee(t) == "cty :: c_void"@
}

/// The type under which a value of foreign type `t` is taken by a wrapper,
/// or the reason why it cannot be taken.
///
/// Handles and C strings become references to their safe counterparts, with
/// the mutability of the pointer. Arrays and untyped data are refused. Any
/// other type passes through as what it points to, behind a reference of the
/// pointer's mutability if it was a pointer.
pub open spec fn parameter_type(t: Seq<char>) -> Result<Seq<char>, SkipView> {
    if array_shaped(t) {
        Err(SkipView::ArrayArgument(t))
    } else if const_str(t) {
        Ok("& CStr"@)
    } else if mut_str(t) {
        Ok("& mut :: alloc :: ffi :: CString"@)
    } else if const_object(t) {
        Ok("& crate :: widgets :: Wdg"@)
    } else if mut_object(t) {
        Ok("& mut crate :: widgets :: Wdg"@)
    } else if const_style(t) {
        Ok("& crate :: styles :: Style"@)
    } else if mut_style(t) {
        Ok("& mut crate :: styles :: Style"@)
    } else if untyped_payload(t) {
        Err(SkipView::VoidPtrArgument(t))
    } else if mut_pointer(t) {
        Ok("& mut "@ + pointee(t))
    } else if pointer(t) {
        Ok("& "@ + pointee(t))
    } else {
        Ok(pointee(t))
    }
}

/// A classified foreign type. Its view is its descriptor.
#[derive(Debug)]
pub struct LvType {
    pub literal_name: String,
}

impl View for LvType {
    type V = Seq<char>;

    open spec fn view(&self) -> Seq<char> {
        self.literal_name@
    }
}

impl Clone for LvType {
    fn clone(&self) -> (r: Self)
        ensures
            r@ == self@,
    {
        LvType { literal_name: self.literal_name.clone() }
    }
}

impl LvType {
    /// Classifies a descriptor. Every text is accepted: one that fits no
    /// special shape is a plain value, or a plain pointer.
    pub fn new(literal_name: String) -> (r: Self)
        ensures
            r@ == literal_name@,
    {
        LvType { literal_name }
    }

    /// What is pointed to: the descriptor without `* const ` and `* mut `.
    pub fn raw_name(&self) -> (r: String)
        ensures
            r@ == pointee(self@),
    {
        let constless = remove_all(self.literal_name.as_str(), "* const ");
        remove_all(constless.as_str(), "* mut ")
    }

    /// Whether the descriptor begins with the word `const`.
    pub fn is_const(&self) -> (r: bool)
        ensures
            r == leading_const(self@),
    {
        has_prefix(self.literal_name.as_str(), "const ")
    }

    /// Whether the type is a constant C string.
    pub fn is_const_str(&self) -> (r: bool)
        ensures
            r == const_str(self@),
    {
        same_text(self.literal_name.as_str(), "* const :: core :: ffi :: c_char") || same_text(
            self.literal_name.as_str(),
            "* const c_char",
        )
    }

    /// Whether the type is a mutable C string.
    pub fn is_mut_str(&self) -> (r: bool)
        ensures
            r == mut_str(self@),
    {
        same_text(self.literal_name.as_str(), "* mut :: core :: ffi :: c_char") || same_text(
            self.literal_name.as_str(),
            "* mut c_char",
        )
    }

    /// Whether the type is a constant pointer to the object handle.
    pub fn is_const_native_object(&self) -> (r: bool)
        ensures
            r == const_object(self@),
    {
        same_text(self.literal_name.as_str(), "* const lv_obj_t") || same_text(
            self.literal_name.as_str(),
            "* const _lv_obj_t",
        )
    }

    /// Whether the type is a mutable pointer to the object handle.
    pub fn is_mut_native_object(&self) -> (r: bool)
        ensures
            r == mut_object(self@),
    {
        same_text(self.literal_name.as_str(), "* mut lv_obj_t") || same_text(
            self.literal_name.as_str(),
            "* mut _lv_obj_t",
        )
    }

    /// Whether the type is a mutable pointer to the style record.
    pub fn is_mut_style(&self) -> (r: bool)
        ensures
            r == mut_style(self@),
    {
        same_text(self.literal_name.as_str(), "* mut lv_style_t")
    }

    /// Whether the type is a constant pointer to the style record.
    pub fn is_const_style(&self) -> (r: bool)
        ensures
            r == const_style(self@),
    {
        same_text(self.literal_name.as_str(), "* const lv_style_t")
    }

    /// Whether the type is a pointer of any kind.
    pub fn is_pointer(&self) -> (r: bool)
        ensures
            r == pointer(self@),
    {
        has_prefix(self.literal_name.as_str(), "*")
    }

    /// Whether the type is a pointer to constant data.
    pub fn is_const_pointer(&self) -> (r: bool)
        ensures
            r == const_pointer(self@),
    {
        has_prefix(self.literal_name.as_str(), "* const")
    }

    /// Whether the type is a pointer to mutable data.
    pub fn is_mut_pointer(&self) -> (r: bool)
        ensures
            r == mut_pointer(self@),
    {
        has_prefix(self.literal_name.as_str(), "* mut")
    }

    /// Whether the type is an array: a pointer to a pointer.
    pub fn is_array(&self) -> (r: bool)
        ensures
            r == array_shaped(self@),
    {
        has_prefix(self.literal_name.as_str(), "* mut *") || has_prefix(
            self.literal_name.as_str(),
            "* const *",
        )
    }

    /// Whether the type is a handle: a pointer to the object or to the style.
    pub fn is_handle(&self) -> (r: bool)
        ensures
            r == handle(self@),
    {
        self.is_const_native_object() || self.is_mut_native_object() || self.is_const_style()
            || self.is_mut_style()
    }

    /// Whether the type points to untyped data.
    pub fn is_untyped_payload(&self) -> (r: bool)
        ensures
            r == untyped_payload(self@),
    {
        let raw = self.raw_name();
        same_text(raw.as_str(), "cty :: c_void")
    }

    /// The wrapper's parameter type for this foreign type, or the reason
    /// why a value of it cannot be taken.
    pub fn parameter_type(&self) -> (r: WrapperResult<String>)
        ensures
            outcome(r) == parameter_type(self@),
    {
        if self.is_array() {
            Err(SkipReason::ArrayArgument(self.literal_name.clone()))
        } else if self.is_const_str() {
            Ok(String::from_str("& CStr"))
        } else if self.is_mut_str() {
            Ok(String::from_str("& mut :: alloc :: ffi :: CString"))
        } else if self.is_const_native_object() {
            Ok(String::from_str("& crate :: widgets :: Wdg"))
        } else if self.is_mut_native_object() {
            Ok(String::from_str("& mut crate :: widgets :: Wdg"))
        } else if self.is_const_style() {
            Ok(String::from_str("& crate :: styles :: Style"))
        } else if self.is_mut_style() {
            Ok(String::from_str("& mut crate :: styles :: Style"))
        } else {
            let raw = self.raw_name();
            if same_text(raw.as_str(), "cty :: c_void") {
                Err(SkipReason::VoidPtrArgument(self.literal_name.clone()))
            } else if self.is_mut_pointer() {
                let mut r = String::from_str("& mut ");
                r.append(raw.as_str());
                Ok(r)
            } else if self.is_pointer() {
                let mut r = String::from_str("& ");
                r.append(raw.as_str());
                Ok(r)
            } else {
                Ok(raw)
            }
        }
    }
}

impl Rusty for LvType {
    type Parent = LvArg;

    /// The wrapper's parameter type for this foreign type, or the reason
    /// why a value of it cannot be taken.
    fn code(&self, _parent: &LvArg) -> (r: WrapperResult<String>)
        ensures
            outcome(r) == parameter_type(self@),
    {
        self.parameter_type()
    }
}

} // verus!
