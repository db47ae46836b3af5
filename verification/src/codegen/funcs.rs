//! The function model: one foreign function, and the wrapper emitted for it.
//!
//! A wrapper is emitted whole or not at all. It is a token text of the form
//!
//! ```text
//! pub fn NAME (PARAMETERS) RETURN { unsafe { PRE CALL POST RESULT } }
//! ```
//!
//! in which every part but the call may be empty.
use vstd::prelude::*;
use vstd::string::*;
use crate::codegen::args::{ArgView, LvArg};
use crate::codegen::rusty::Rusty;
use crate::codegen::skip::{outcome, SkipReason, SkipView, WrapperResult};
use crate::codegen::types::{
    array_shaped,
    const_object,
    const_str,
    handle,
    mut_object,
    mut_pointer,
    mut_str,
    pointee,
    pointer,
    LvType,
};
use crate::codegen::widgets::LvWidget;
use crate::text::{listed, push_listed, push_spaced, same_text, spaced};

verus! {

/// The functions that are never wrapped: each has a wrapper written by
/// hand, or cannot be wrapped safely.
pub open spec fn deny_listed(name: Seq<char>) -> bool {
    ||| name == "lv_obj_null_on_delete"@
    ||| name == "lv_obj_add_style"@
    ||| name == "lv_obj_replace_style"@
    ||| name == "lv_obj_remove_style"@
    ||| name == "lv_obj_remove_style_all"@
    ||| name == "lv_obj_set_parent"@
    ||| name == "lv_obj_add_event_cb"@
    ||| name == "lv_style_init"@
    ||| name == "lv_event_get_target"@
    ||| name == "lv_event_get_target_obj"@
    ||| name == "lv_event_get_current_target_obj"@
    ||| name == "lv_list_get_button_text"@
}

/// The name of the function that creates the widgets of `group`.
pub open spec fn constructor_name(group: Seq<char>) -> Seq<char> {
    "lv_"@ + group + "_create"@
}

/// Whether the constructor of `group` is left to be written by hand: so it
/// is for every group but that of the generic object.
pub open spec fn constructor_withheld(group: Seq<char>) -> bool {
    group != "obj"@
}

/// The wrapper's return type, with its arrow, for a foreign return type, or
/// the reason why the function cannot be wrapped.
///
/// Nothing for no return value; a plain value as it is; an object handle as
/// an optional handle; a C string as a string view; any other pointer as an
/// optional pointer (mutable) or an optional reference (constant).
pub open spec fn return_type(ret: Option<Seq<char>>) -> Result<Seq<char>, SkipView> {
    match ret {
        None => Ok(Seq::empty()),
        Some(t) => if !pointer(t) {
            Ok("-> "@ + t)
        } else if const_object(t) || mut_object(t) {
            Ok("-> Option < Wdg >"@)
        } else if const_str(t) || mut_str(t) {
            Ok("-> & CStr"@)
        } else if array_shaped(t) {
            Err(SkipView::ReturnArray(t))
        } else if mut_pointer(t) {
            Ok("-> Option < NonNull < "@ + pointee(t) + " > >"@)
        } else {
            Ok("-> Option < & "@ + pointee(t) + " >"@)
        },
    }
}

/// Whether the foreign call returns a pointer that the wrapper converts.
pub open spec fn converts_pointer(ret: Option<Seq<char>>) -> bool {
    match ret {
        None => false,
        Some(t) => const_object(t) || mut_object(t) || const_str(t) || mut_str(t) || pointer(t),
    }
}

/// The words that bind the foreign call's result, if it is bound: a pointer
/// to convert is bound always, any other result only where code follows the
/// call.
pub open spec fn result_binding(ret: Option<Seq<char>>, post: Seq<char>) -> Seq<char> {
    if converts_pointer(ret) {
        "let pointer ="@
    } else if post.len() == 0 {
        Seq::empty()
    } else {
        "let rust_result ="@
    }
}

/// The wrapper's last expression: the converted pointer, or the bound
/// result, or nothing where the call itself is the last expression.
pub open spec fn result_expression(ret: Option<Seq<char>>, post: Seq<char>) -> Seq<char> {
    match ret {
        Some(t) if const_object(t) || mut_object(t) => "Wdg :: try_from_ptr (pointer)"@,
        Some(t) if const_str(t) || mut_str(t) => "CStr :: from_ptr (pointer)"@,
        Some(t) if pointer(t) && mut_pointer(t) => "NonNull :: new (pointer)"@,
        Some(t) if pointer(t) => "if ! pointer . is_null () { Some (& * pointer) } else { None }"@,
        _ => if post.len() == 0 {
            Seq::empty()
        } else {
            "rust_result"@
        },
    }
}

/// A function as plain values: its name, its arguments in order, and the
/// descriptor of its return type if it returns anything.
pub ghost struct FuncView {
    pub name: Seq<char>,
    pub args: Seq<ArgView>,
    pub ret: Option<Seq<char>>,
}

impl FuncView {
    /// A method is a function whose first argument is a handle.
    pub open spec fn is_method(self) -> bool {
        self.args.len() > 0 && handle(self.args[0].typ)
    }

    /// The reason for which the first argument at or after index `from`
    /// that cannot be declared is refused, if there is one.
    pub open spec fn first_rejection(self, from: int) -> Option<SkipView>
        decreases self.args.len() - from,
    {
        if from < 0 || from >= self.args.len() {
            None
        } else {
            match self.args[from].declaration() {
                Err(reason) => Some(reason),
                Ok(_) => self.first_rejection(from + 1),
            }
        }
    }

    /// The parameter list made of the first `n` arguments: the declarations
    /// of those that can be declared, in order, separated by commas.
    pub open spec fn declarations(self, n: int) -> Seq<char>
        decreases n,
    {
        if n <= 0 || n > self.args.len() {
            Seq::empty()
        } else {
            match self.args[n - 1].declaration() {
                Ok(d) => listed(self.declarations(n - 1), d),
                Err(_) => self.declarations(n - 1),
            }
        }
    }

    /// The code before the call for the first `n` arguments, in order.
    pub open spec fn pre_calls(self, n: int) -> Seq<char>
        decreases n,
    {
        if n <= 0 || n > self.args.len() {
            Seq::empty()
        } else {
            spaced(self.pre_calls(n - 1), self.args[n - 1].pre_call())
        }
    }

    /// The code after the call for the first `n` arguments, in order.
    pub open spec fn post_calls(self, n: int) -> Seq<char>
        decreases n,
    {
        if n <= 0 || n > self.args.len() {
            Seq::empty()
        } else {
            spaced(self.post_calls(n - 1), self.args[n - 1].post_call())
        }
    }

    /// The foreign call's argument list made of the first `n` arguments.
    pub open spec fn call_arguments(self, n: int) -> Seq<char>
        decreases n,
    {
        if n <= 0 || n > self.args.len() {
            Seq::empty()
        } else {
            listed(self.call_arguments(n - 1), self.args[n - 1].call_expression())
        }
    }

    /// The call of the foreign function with every argument.
    pub open spec fn foreign_call(self) -> Seq<char> {
        "lightvgl_sys :: "@ + self.name + " ("@ + self.call_arguments(self.args.len() as int)
            + ")"@
    }

    /// The call as a statement: bound and closed by a semicolon where the
    /// result is bound, bare where the call is the wrapper's last expression.
    pub open spec fn call_statement(self) -> Seq<char> {
        let post = self.post_calls(self.args.len() as int);
        let binding = result_binding(self.ret, post);
        if binding.len() == 0 {
            self.foreign_call()
        } else {
            binding + " "@ + self.foreign_call() + " ;"@
        }
    }

    /// What stands inside the wrapper's `unsafe` block: the code before the
    /// call, the call, the code after the call, the result.
    pub open spec fn body(self) -> Seq<char> {
        let n = self.args.len() as int;
        let post = self.post_calls(n);
        spaced(
            spaced(spaced(self.pre_calls(n), self.call_statement()), post),
            result_expression(self.ret, post),
        )
    }

    /// The wrapper, given its return type.
    pub open spec fn wrapper(self, returning: Seq<char>) -> Seq<char> {
        spaced(
            "pub fn "@ + self.name + " ("@ + self.declarations(self.args.len() as int) + ")"@,
            returning,
        ) + " { unsafe { "@ + self.body() + " } }"@
    }

    /// The wrapper for the function as a member of `group`, or the reason
    /// for which there is none.
    ///
    /// A function on the deny-list is refused whatever its shape. The
    /// group's own constructor is refused unless the group is that of the
    /// generic object. Then the return type is examined, then the arguments
    /// after the first, in order: the first that cannot be taken gives the
    /// reason. A first argument that cannot be declared is left out of the
    /// parameter list.
    pub open spec fn code(self, group: Seq<char>) -> Result<Seq<char>, SkipView> {
        if deny_listed(self.name) {
            Err(SkipView::Blacklisted(self.name))
        } else if self.name == constructor_name(group) && constructor_withheld(group) {
            Err(SkipView::Constructor(self.name))
        } else {
            match return_type(self.ret) {
                Err(reason) => Err(reason),
                Ok(returning) => match self.first_rejection(1) {
                    Some(reason) => Err(reason),
                    None => Ok(self.wrapper(returning)),
                },
            }
        }
    }
}

/// One foreign function.
#[derive(Debug)]
pub struct LvFunc {
    pub name: String,
    pub args: Vec<LvArg>,
    pub ret: Option<LvType>,
}

impl View for LvFunc {
    type V = FuncView;

    open spec fn view(&self) -> FuncView {
        FuncView {
            name: self.name@,
            args: self.args@.map_values(|a: LvArg| a@),
            ret: match self.ret {
                Some(t) => Some(t@),
                None => None,
            },
        }
    }
}

impl Clone for LvFunc {
    fn clone(&self) -> (r: Self)
        ensures
            r@ == self@,
    {
        let mut args: Vec<LvArg> = Vec::new();
        let mut i: usize = 0;
        while i < self.args.len()
            invariant
                i <= self.args.len(),
                args.len() == i,
                forall|j: int| 0 <= j < i ==> args@[j]@ == self.args@[j]@,
            decreases self.args.len() - i,
        {
            args.push(self.args[i].clone());
            i += 1;
        }
        let ret = match &self.ret {
            Some(t) => Some(t.clone()),
            None => None,
        };
        let r = LvFunc { name: self.name.clone(), args, ret };
        assert(r@.args =~= self@.args);
        r
    }
}

/// Whether `name` is on the deny-list.
pub fn is_deny_listed(name: &str) -> (r: bool)
    ensures
        r == deny_listed(name@),
{
    same_text(name, "lv_obj_null_on_delete") || same_text(name, "lv_obj_add_style") || same_text(
        name,
        "lv_obj_replace_style",
    ) || same_text(name, "lv_obj_remove_style") || same_text(name, "lv_obj_remove_style_all")
        || same_text(name, "lv_obj_set_parent") || same_text(name, "lv_obj_add_event_cb")
        || same_text(name, "lv_style_init") || same_text(name, "lv_event_get_target") || same_text(
        name,
        "lv_event_get_target_obj",
    ) || same_text(name, "lv_event_get_current_target_obj") || same_text(
        name,
        "lv_list_get_button_text",
    )
}

impl LvFunc {
    /// The function called `name` that takes `args` and returns `ret`, or
    /// nothing where there is no `ret`.
    pub fn new(name: String, args: Vec<LvArg>, ret: Option<LvType>) -> (r: Self)
        ensures
            r.name == name,
            r.args == args,
            r.ret == ret,
    {
        LvFunc { name, args, ret }
    }

    /// Whether the function is a method: whether its first argument is a
    /// handle, which the wrapper takes as its receiver.
    pub fn is_method(&self) -> (r: bool)
        ensures
            r == self@.is_method(),
    {
        if self.args.len() > 0 {
            self.args[0].typ.is_handle()
        } else {
            false
        }
    }

    /// Whether the function creates the widgets of `group`.
    pub fn is_constructor_of(&self, group: &str) -> (r: bool)
        ensures
            r == (self@.name == constructor_name(group@)),
    {
        let mut expected = String::from_str("lv_");
        expected.append(group);
        expected.append("_create");
        same_text(self.name.as_str(), expected.as_str())
    }

    /// The wrapper's return type, or the reason why there is no wrapper.
    pub fn return_tokens(&self) -> (r: WrapperResult<String>)
        ensures
            outcome(r) == return_type(self@.ret),
    {
        match &self.ret {
            None => Ok(String::new()),
            Some(t) => {
                if !t.is_pointer() {
                    let mut r = String::from_str("-> ");
                    r.append(t.literal_name.as_str());
                    Ok(r)
                } else if t.is_const_native_object() || t.is_mut_native_object() {
                    Ok(String::from_str("-> Option < Wdg >"))
                } else if t.is_const_str() || t.is_mut_str() {
                    Ok(String::from_str("-> & CStr"))
                } else if t.is_array() {
                    Err(SkipReason::ReturnArray(t.literal_name.clone()))
                } else if t.is_mut_pointer() {
                    let raw = t.raw_name();
                    let mut r = String::from_str("-> Option < NonNull < ");
                    r.append(raw.as_str());
                    r.append(" > >");
                    Ok(r)
                } else {
                    let raw = t.raw_name();
                    let mut r = String::from_str("-> Option < & ");
                    r.append(raw.as_str());
                    r.append(" >");
                    Ok(r)
                }
            },
        }
    }

    /// The reason for which the first argument after the receiver that
    /// cannot be declared is refused, if there is one.
    pub fn rejected_argument(&self) -> (r: Option<SkipReason>)
        ensures
            match r {
                Some(reason) => self@.first_rejection(1) == Some(reason@),
                None => self@.first_rejection(1) is None,
            },
    {
        let mut i: usize = 1;
        while i < self.args.len()
            invariant
                1 <= i,
                self@.first_rejection(1) == self@.first_rejection(i as int),
            decreases self.args.len() - i,
        {
            match self.args[i].declaration() {
                Err(reason) => {
                    return Some(reason);
                },
                Ok(_) => {},
            }
            i += 1;
        }
        None
    }

    /// The wrapper's parameter list.
    pub fn args_decl(&self) -> (r: String)
        ensures
            r@ == self@.declarations(self@.args.len() as int),
    {
        let mut r = String::new();
        let mut i: usize = 0;
        while i < self.args.len()
            invariant
                i <= self.args.len(),
                r@ == self@.declarations(i as int),
            decreases self.args.len() - i,
        {
            match self.args[i].declaration() {
                Ok(d) => {
                    push_listed(&mut r, d.as_str());
                },
                Err(_) => {},
            }
            i += 1;
        }
        r
    }

    /// The code that runs before the foreign call.
    pub fn args_preprocessing(&self) -> (r: String)
        ensures
            r@ == self@.pre_calls(self@.args.len() as int),
    {
        let mut r = String::new();
        let mut i: usize = 0;
        while i < self.args.len()
            invariant
                i <= self.args.len(),
                r@ == self@.pre_calls(i as int),
            decreases self.args.len() - i,
        {
            let pre = self.args[i].get_preprocessing();
            push_spaced(&mut r, pre.as_str());
            i += 1;
        }
        r
    }

    /// The code that runs after the foreign call.
    pub fn args_postprocessing(&self) -> (r: String)
        ensures
            r@ == self@.post_calls(self@.args.len() as int),
    {
        let mut r = String::new();
        let mut i: usize = 0;
        while i < self.args.len()
            invariant
                i <= self.args.len(),
                r@ == self@.post_calls(i as int),
            decreases self.args.len() - i,
        {
            let post = self.args[i].get_postprocessing();
            push_spaced(&mut r, post.as_str());
            i += 1;
        }
        r
    }

    /// The argument list of the foreign call.
    pub fn ffi_args(&self) -> (r: String)
        ensures
            r@ == self@.call_arguments(self@.args.len() as int),
    {
        let mut r = String::new();
        let mut i: usize = 0;
        while i < self.args.len()
            invariant
                i <= self.args.len(),
                r@ == self@.call_arguments(i as int),
            decreases self.args.len() - i,
        {
            let expression = self.args[i].call_expression();
            push_listed(&mut r, expression.as_str());
            i += 1;
        }
        r
    }

    /// The words that bind the foreign call's result, given the code that
    /// runs after the call.
    pub fn return_assignment(&self, post: &str) -> (r: String)
        ensures
            r@ == result_binding(self@.ret, post@),
    {
        let converts = match &self.ret {
            None => false,
            Some(t) => t.is_const_native_object() || t.is_mut_native_object() || t.is_const_str()
                || t.is_mut_str() || t.is_pointer(),
        };
        if converts {
            String::from_str("let pointer =")
        } else if post.is_empty() {
            String::new()
        } else {
            String::from_str("let rust_result =")
        }
    }

    /// The wrapper's last expression, given the code that runs after the
    /// call.
    pub fn return_expr(&self, post: &str) -> (r: String)
        ensures
            r@ == result_expression(self@.ret, post@),
    {
        match &self.ret {
            Some(t) => {
                if t.is_const_native_object() || t.is_mut_native_object() {
                    return String::from_str("Wdg :: try_from_ptr (pointer)");
                } else if t.is_const_str() || t.is_mut_str() {
                    return String::from_str("CStr :: from_ptr (pointer)");
                } else if t.is_pointer() {
                    if t.is_mut_pointer() {
                        return String::from_str("NonNull :: new (pointer)");
                    } else {
                        return String::from_str(
                            "if ! pointer . is_null () { Some (& * pointer) } else { None }",
                        );
                    }
                }
            },
            None => {},
        }
        if post.is_empty() {
            String::new()
        } else {
            String::from_str("rust_result")
        }
    }

    /// The wrapper, given its return type.
    pub fn wrapper(&self, returning: &str) -> (r: String)
        ensures
            r@ == self@.wrapper(returning@),
    {
        let decls = self.args_decl();
        let pre = self.args_preprocessing();
        let post = self.args_postprocessing();
        let ffi = self.ffi_args();
        let binding = self.return_assignment(post.as_str());
        let result = self.return_expr(post.as_str());

        let mut call = String::from_str("lightvgl_sys :: ");
        call.append(self.name.as_str());
        call.append(" (");
        call.append(ffi.as_str());
        call.append(")");
        assert(call@ == self@.foreign_call());

        let mut statement = String::new();
        if binding.as_str().is_empty() {
            statement.append(call.as_str());
            assert(statement@ =~= call@);
        } else {
            statement.append(binding.as_str());
            statement.append(" ");
            statement.append(call.as_str());
            statement.append(" ;");
            assert(statement@ =~= binding@ + " "@ + call@ + " ;"@);
        }
        assert(statement@ == self@.call_statement());

        let mut body = pre;
        push_spaced(&mut body, statement.as_str());
        push_spaced(&mut body, post.as_str());
        push_spaced(&mut body, result.as_str());
        assert(body@ == self@.body());

        let mut r = String::from_str("pub fn ");
        r.append(self.name.as_str());
        r.append(" (");
        r.append(decls.as_str());
        r.append(")");
        push_spaced(&mut r, returning);
        r.append(" { unsafe { ");
        r.append(body.as_str());
        r.append(" } }");
        r
    }
}

impl Rusty for LvFunc {
    type Parent = LvWidget;

    /// The wrapper for the function as a member of `parent`, or the reason
    /// for which there is none.
    fn code(&self, parent: &LvWidget) -> (r: WrapperResult<String>)
        ensures
            outcome(r) == self@.code(parent@.name),
    {
        if is_deny_listed(self.name.as_str()) {
            return Err(SkipReason::Blacklisted(self.name.clone()));
        }
        if self.is_constructor_of(parent.name.as_str()) && !same_text(
            parent.name.as_str(),
            "obj",
        ) {
            return Err(SkipReason::Constructor(self.name.clone()));
        }
        let returning = match self.return_tokens() {
            Ok(returning) => returning,
            Err(reason) => {
                return Err(reason);
            },
        };
        match self.rejected_argument() {
            Some(reason) => {
                return Err(reason);
            },
            None => {},
        }
        Ok(self.wrapper(returning.as_str()))
    }
}

} // verus!
