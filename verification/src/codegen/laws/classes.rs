//! What holds of the classifier and of the argument model.
use vstd::prelude::*;
use crate::codegen::args::ArgView;
use crate::codegen::laws::texts::prefix_agrees;
use crate::codegen::skip::SkipView;
use crate::codegen::types::{
    array_shaped,
    const_object,
    const_pointer,
    const_str,
    const_style,
    handle,
    mut_object,
    mut_pointer,
    mut_str,
    mut_style,
    parameter_type,
};

verus! {

/// A handle is neither an array nor a C string, and it is a pointer to
/// constant data or a pointer to mutable data, never both.
pub proof fn handle_is_plain_pointer(t: Seq<char>)
    requires
        handle(t),
    ensures
        !array_shaped(t),
        !const_str(t),
        !mut_str(t),
        mut_pointer(t) != const_pointer(t),
        mut_pointer(t) == (mut_object(t) || mut_style(t)),
        const_object(t) ==> !mut_object(t) && !const_style(t) && !mut_style(t),
        mut_object(t) ==> !const_style(t) && !mut_style(t),
        const_style(t) ==> !mut_style(t),
{
    reveal_strlit("* const lv_obj_t");
    reveal_strlit("* const _lv_obj_t");
    reveal_strlit("* mut lv_obj_t");
    reveal_strlit("* mut _lv_obj_t");
    reveal_strlit("* const lv_style_t");
    reveal_strlit("* mut lv_style_t");
    reveal_strlit("* const :: core :: ffi :: c_char");
    reveal_strlit("* const c_char");
    reveal_strlit("* mut :: core :: ffi :: c_char");
    reveal_strlit("* mut c_char");
    reveal_strlit("* mut *");
    reveal_strlit("* const *");
    reveal_strlit("* mut");
    reveal_strlit("* const");
    if "* mut *"@.is_prefix_of(t) {
        prefix_agrees("* mut *"@, t, 2);
        prefix_agrees("* mut *"@, t, 6);
    }
    if "* const *"@.is_prefix_of(t) {
        prefix_agrees("* const *"@, t, 2);
        prefix_agrees("* const *"@, t, 8);
    }
    if "* mut"@.is_prefix_of(t) {
        prefix_agrees("* mut"@, t, 2);
    }
    if "* const"@.is_prefix_of(t) {
        prefix_agrees("* const"@, t, 2);
    }
    if const_object(t) || const_style(t) {
        assert(t[2] == 'c');
        assert("* const"@ =~= t.subrange(0, 7));
    } else {
        assert(t[2] == 'm');
        assert("* mut"@ =~= t.subrange(0, 5));
    }
    if const_object(t) || mut_object(t) {
        assert(t[t.len() - 5] == 'o');
    } else {
        assert(t[t.len() - 5] == 'y');
    }
    if const_str(t) || mut_str(t) {
        assert(t.len() == 32 || t.len() == 14 || t.len() == 30 || t.len() == 12);
    }
}

/// The wrapper takes a handle by a reference that mirrors the pointer: a
/// pointer to mutable data by `& mut`, a pointer to constant data by `&`
/// without `mut`.
pub proof fn handle_reference_mirrors_pointer(t: Seq<char>)
    requires
        handle(t),
    ensures
        parameter_type(t) is Ok,
        "& "@.is_prefix_of(parameter_type(t)->Ok_0),
        mut_pointer(t) <==> "& mut "@.is_prefix_of(parameter_type(t)->Ok_0),
{
    handle_is_plain_pointer(t);
    reveal_strlit("& ");
    reveal_strlit("& mut ");
    reveal_strlit("& crate :: widgets :: Wdg");
    reveal_strlit("& mut crate :: widgets :: Wdg");
    reveal_strlit("& crate :: styles :: Style");
    reveal_strlit("& mut crate :: styles :: Style");
    let p = parameter_type(t)->Ok_0;
    assert("& "@ =~= p.subrange(0, 2));
    if "& mut "@.is_prefix_of(p) {
        prefix_agrees("& mut "@, p, 2);
    }
    if mut_object(t) || mut_style(t) {
        assert("& mut "@ =~= p.subrange(0, 6));
    } else {
        assert(p[2] == 'c');
    }
}

/// A mutable C string is neither an array, nor a constant C string, nor a
/// handle.
pub proof fn mutable_string_is_nothing_else(t: Seq<char>)
    requires
        mut_str(t),
    ensures
        !array_shaped(t),
        !const_str(t),
        !handle(t),
{
    reveal_strlit("* mut :: core :: ffi :: c_char");
    reveal_strlit("* mut c_char");
    reveal_strlit("* const :: core :: ffi :: c_char");
    reveal_strlit("* const c_char");
    reveal_strlit("* mut lv_obj_t");
    reveal_strlit("* mut _lv_obj_t");
    reveal_strlit("* const lv_obj_t");
    reveal_strlit("* const _lv_obj_t");
    reveal_strlit("* const lv_style_t");
    reveal_strlit("* mut lv_style_t");
    reveal_strlit("* mut *");
    reveal_strlit("* const *");
    assert(t[2] == 'm');
    assert(t.len() == 30 || t.len() == 12);
    if "* mut *"@.is_prefix_of(t) {
        prefix_agrees("* mut *"@, t, 6);
    }
    if "* const *"@.is_prefix_of(t) {
        prefix_agrees("* const *"@, t, 2);
    }
}

/// An argument is refused for one of two reasons: it is an array, or it
/// points to untyped data.
pub proof fn refusal_is_array_or_void(arg: ArgView)
    requires
        arg.declaration() is Err,
    ensures
        arg.declaration() == Err::<Seq<char>, SkipView>(SkipView::ArrayArgument(arg.typ))
            || arg.declaration() == Err::<Seq<char>, SkipView>(
            SkipView::VoidPtrArgument(arg.typ),
        ),
        array_shaped(arg.typ) ==> arg.declaration() == Err::<Seq<char>, SkipView>(
            SkipView::ArrayArgument(arg.typ),
        ),
{
}

/// Whether the argument is refused as pointing to untyped data.
pub open spec fn refused_as_untyped(arg: ArgView) -> bool {
    arg.declaration() matches Err(SkipView::VoidPtrArgument(_))
}

/// A mutable C string makes a round trip through one raw buffer: the code
/// before the call moves the string into the buffer, the call is handed the
/// buffer, and the code after the call moves the buffer back into the
/// string. The buffer has another name than the string, and the wrapper
/// takes the string by exclusive reference.
pub proof fn mutable_string_round_trip(arg: ArgView)
    requires
        mut_str(arg.typ),
    ensures
        arg.pre_call() == "let "@ + arg.call_expression() + " = "@ + arg.name
            + " . clone () . into_raw () ;"@,
        arg.post_call() == "* "@ + arg.name + " = :: alloc :: ffi :: CString :: from_raw ("@
            + arg.call_expression() + ") ;"@,
        arg.call_expression() != arg.name,
        arg.declaration() == Ok::<Seq<char>, SkipView>(
            arg.ident() + " : "@ + "& mut :: alloc :: ffi :: CString"@,
        ),
{
    mutable_string_is_nothing_else(arg.typ);
    reveal_strlit("_raw");
    assert((arg.name + "_raw"@).len() != arg.name.len());
}

/// An argument that is no mutable C string needs no code before the call
/// and none after it.
pub proof fn other_arguments_need_no_code(arg: ArgView)
    requires
        !mut_str(arg.typ),
    ensures
        arg.pre_call().len() == 0,
        arg.post_call().len() == 0,
{
}

} // verus!
