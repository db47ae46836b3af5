//! What holds of the wrappers that are emitted, and of those that are not.
use vstd::prelude::*;
use crate::codegen::funcs::{
    constructor_name,
    constructor_withheld,
    deny_listed,
    result_binding,
    result_expression,
    return_type,
    FuncView,
};
use crate::codegen::laws::classes::{
    handle_reference_mirrors_pointer,
    refusal_is_array_or_void,
    refused_as_untyped,
};
use crate::codegen::laws::texts::{
    in_order,
    occurrence_after,
    occurrence_in_prefix,
    spaced_begins_with_left,
    spaced_ends_with_right,
};
use crate::codegen::skip::SkipView;
use crate::codegen::types::{array_shaped, handle, mut_str, parameter_type};
use crate::text::{occurs_at, spaced};

verus! {

/// The parameter list of the first `n` arguments begins with the parameter
/// list of the first `m`, for `m` up to `n`.
pub proof fn declarations_grow(f: FuncView, m: int, n: int)
    requires
        0 <= m <= n <= f.args.len(),
    ensures
        f.declarations(m).is_prefix_of(f.declarations(n)),
    decreases n - m,
{
    if m == n {
        assert(f.declarations(n).subrange(0, f.declarations(n).len() as int) =~= f.declarations(
            n,
        ));
    } else {
        declarations_grow(f, m, n - 1);
        let shorter = f.declarations(n - 1);
        let longer = f.declarations(n);
        assert(shorter.is_prefix_of(longer)) by {
            assert(shorter =~= longer.subrange(0, shorter.len() as int));
        }
        assert(f.declarations(m) =~= longer.subrange(0, f.declarations(m).len() as int));
    }
}

/// A function whose first argument is a handle is a method, and every
/// wrapper emitted for it begins with the receiver: after `pub fn`, the name
/// and the opening parenthesis stands the declaration of the first
/// argument, whose reference mirrors the pointer
/// (`handle_reference_mirrors_pointer`).
pub proof fn receiver_comes_first(f: FuncView, group: Seq<char>)
    requires
        f.args.len() > 0,
        handle(f.args[0].typ),
    ensures
        f.is_method(),
        f.args[0].declaration() == Ok::<Seq<char>, SkipView>(
            f.args[0].ident() + " : "@ + parameter_type(f.args[0].typ)->Ok_0,
        ),
        f.code(group) matches Ok(text) ==> ("pub fn "@ + f.name + " ("@
            + f.args[0].declaration()->Ok_0).is_prefix_of(text),
{
    handle_reference_mirrors_pointer(f.args[0].typ);
    let n = f.args.len() as int;
    let receiver = f.args[0].declaration()->Ok_0;
    assert(f.declarations(0) =~= Seq::<char>::empty());
    assert(f.declarations(1) == receiver);
    declarations_grow(f, 1, n);
    if f.code(group) is Ok {
        let text = f.code(group)->Ok_0;
        let arrow = return_type(f.ret)->Ok_0;
        let opening = "pub fn "@ + f.name + " ("@;
        let head = opening + f.declarations(n) + ")"@;
        let signature = spaced(head, arrow);
        reveal_strlit(")");
        assert(head.len() > 0);
        assert(head =~= signature.subrange(0, head.len() as int));
        assert(text == signature + " { unsafe { "@ + f.body() + " } }"@);
        let wanted = opening + receiver;
        assert(receiver =~= f.declarations(n).subrange(0, receiver.len() as int));
        assert(wanted =~= text.subrange(0, wanted.len() as int));
    }
}

/// Where the argument at `i` cannot be declared, a search that starts at or
/// before `i` finds an argument that cannot.
pub proof fn rejection_found(f: FuncView, from: int, i: int)
    requires
        0 <= from <= i < f.args.len(),
        f.args[i].declaration() is Err,
    ensures
        f.first_rejection(from) is Some,
    decreases i - from,
{
    if from < i && f.args[from].declaration() is Ok {
        rejection_found(f, from + 1, i);
    }
}

/// Where every argument from `from` up to `i` can be declared and the one
/// at `i` cannot, the search from `from` gives the reason of the one at `i`.
pub proof fn first_rejection_is_earliest(f: FuncView, from: int, i: int)
    requires
        0 <= from <= i < f.args.len(),
        forall|j: int| from <= j < i ==> f.args[j].declaration() is Ok,
        f.args[i].declaration() is Err,
    ensures
        f.first_rejection(from) == Some(f.args[i].declaration()->Err_0),
    decreases i - from,
{
    if from < i {
        first_rejection_is_earliest(f, from + 1, i);
    }
}

/// Where the argument at `i` is an array and no argument from `from` up to
/// `i` is refused as untyped data, the search from `from` finds an array.
pub proof fn first_rejection_is_an_array(f: FuncView, from: int, i: int)
    requires
        0 <= from <= i < f.args.len(),
        array_shaped(f.args[i].typ),
        forall|j: int| from <= j < i ==> !refused_as_untyped(#[trigger] f.args[j]),
    ensures
        f.first_rejection(from) matches Some(SkipView::ArrayArgument(_)),
    decreases i - from,
{
    refusal_is_array_or_void(f.args[i]);
    if from < i {
        if f.args[from].declaration() is Err {
            refusal_is_array_or_void(f.args[from]);
        } else {
            first_rejection_is_an_array(f, from + 1, i);
        }
    }
}

/// Where the search for an argument that cannot be declared finds none
/// from `from` on, every argument from `from` on can be declared.
pub proof fn no_rejection_means_all_declared(f: FuncView, from: int, i: int)
    requires
        0 <= from <= i < f.args.len(),
        f.first_rejection(from) is None,
    ensures
        f.args[i].declaration() is Ok,
    decreases i - from,
{
    if from < i {
        no_rejection_means_all_declared(f, from + 1, i);
    }
}

/// No wrapper is emitted for a function that takes an array after its
/// first argument, whatever else holds of it.
pub proof fn array_argument_stops_emission(f: FuncView, group: Seq<char>, i: int)
    requires
        1 <= i < f.args.len(),
        array_shaped(f.args[i].typ),
    ensures
        f.code(group) is Err,
{
    rejection_found(f, 1, i);
}

/// A function that takes an array after its first argument is refused as
/// taking an array, unless a rule that comes first refuses it: the
/// deny-list, the withheld constructor, the return type, or an argument
/// before the array that points to untyped data.
pub proof fn array_argument_is_refused_as_such(f: FuncView, group: Seq<char>, i: int)
    requires
        1 <= i < f.args.len(),
        array_shaped(f.args[i].typ),
        !deny_listed(f.name),
        !(f.name == constructor_name(group) && constructor_withheld(group)),
        return_type(f.ret) is Ok,
        forall|j: int| 1 <= j < i ==> !refused_as_untyped(#[trigger] f.args[j]),
    ensures
        f.code(group) matches Err(SkipView::ArrayArgument(_)),
{
    first_rejection_is_an_array(f, 1, i);
}

/// The reason names the first argument after the receiver that cannot be
/// declared: where that is the array at `i`, the subject is its type.
pub proof fn array_argument_is_named(f: FuncView, group: Seq<char>, i: int)
    requires
        1 <= i < f.args.len(),
        array_shaped(f.args[i].typ),
        !deny_listed(f.name),
        !(f.name == constructor_name(group) && constructor_withheld(group)),
        return_type(f.ret) is Ok,
        forall|j: int| 1 <= j < i ==> f.args[j].declaration() is Ok,
    ensures
        f.code(group) == Err::<Seq<char>, SkipView>(SkipView::ArrayArgument(f.args[i].typ)),
{
    first_rejection_is_earliest(f, 1, i);
}

/// A function on the deny-list is refused as such, whatever its arguments,
/// its return type and its group.
pub proof fn deny_list_wins(f: FuncView, group: Seq<char>)
    requires
        deny_listed(f.name),
    ensures
        f.code(group) == Err::<Seq<char>, SkipView>(SkipView::Blacklisted(f.name)),
{
}

/// A wrapper is emitted whole or not at all: where one is emitted, the
/// function is not on the deny-list, its return type can be returned, and
/// every argument after the first can be declared.
pub proof fn emitted_wrapper_is_whole(f: FuncView, group: Seq<char>, i: int)
    requires
        f.code(group) is Ok,
        1 <= i < f.args.len(),
    ensures
        !deny_listed(f.name),
        return_type(f.ret) is Ok,
        f.args[i].declaration() is Ok,
        f.code(group) == Ok::<Seq<char>, SkipView>(f.wrapper(return_type(f.ret)->Ok_0)),
{
    no_rejection_means_all_declared(f, 1, i);
}

/// Only where nothing is to be done after the call is the call itself the
/// wrapper's last expression: otherwise the result is bound first, the code
/// after the call runs, and the result comes last.
pub proof fn post_call_runs_before_result(f: FuncView)
    ensures
        f.body() == spaced(
            spaced(spaced(f.pre_calls(f.args.len() as int), f.call_statement()), f.post_calls(
                f.args.len() as int,
            )),
            result_expression(f.ret, f.post_calls(f.args.len() as int)),
        ),
        f.post_calls(f.args.len() as int).len() > 0 ==> result_binding(
            f.ret,
            f.post_calls(f.args.len() as int),
        ).len() > 0 && result_expression(
            f.ret,
            f.post_calls(f.args.len() as int),
        ).len() > 0,
{
    reveal_strlit("let pointer =");
    reveal_strlit("let rust_result =");
    reveal_strlit("Wdg :: try_from_ptr (pointer)");
    reveal_strlit("CStr :: from_ptr (pointer)");
    reveal_strlit("NonNull :: new (pointer)");
    reveal_strlit("if ! pointer . is_null () { Some (& * pointer) } else { None }");
    reveal_strlit("rust_result");
}

/// The code before the call of a mutable C string stands in the code
/// before the call of the function.
pub proof fn pre_call_is_included(f: FuncView, i: int, n: int) -> (at: int)
    requires
        0 <= i < n <= f.args.len(),
        mut_str(f.args[i].typ),
    ensures
        occurs_at(f.pre_calls(n), at, f.args[i].pre_call()),
        f.pre_calls(n).len() > 0,
    decreases n,
{
    reveal_strlit("let ");
    let part = f.args[i].pre_call();
    assert(part.len() > 0);
    let earlier = f.pre_calls(n - 1);
    let last = f.args[n - 1].pre_call();
    if i == n - 1 {
        spaced_ends_with_right(earlier, last);
        f.pre_calls(n).len() - part.len()
    } else {
        let at = pre_call_is_included(f, i, n - 1);
        spaced_begins_with_left(earlier, last);
        occurrence_in_prefix(part, at, earlier, f.pre_calls(n));
        at
    }
}

/// The code after the call of a mutable C string stands in the code after
/// the call of the function.
pub proof fn post_call_is_included(f: FuncView, i: int, n: int) -> (at: int)
    requires
        0 <= i < n <= f.args.len(),
        mut_str(f.args[i].typ),
    ensures
        occurs_at(f.post_calls(n), at, f.args[i].post_call()),
        f.post_calls(n).len() > 0,
    decreases n,
{
    reveal_strlit("* ");
    let part = f.args[i].post_call();
    assert(part.len() > 0);
    let earlier = f.post_calls(n - 1);
    let last = f.args[n - 1].post_call();
    if i == n - 1 {
        spaced_ends_with_right(earlier, last);
        f.post_calls(n).len() - part.len()
    } else {
        let at = post_call_is_included(f, i, n - 1);
        spaced_begins_with_left(earlier, last);
        occurrence_in_prefix(part, at, earlier, f.post_calls(n));
        at
    }
}

/// In the body of every wrapper, the round trip of a mutable C string
/// encloses the foreign call: the string is moved into its raw buffer
/// before the call, and the buffer is moved back after it.
pub proof fn round_trip_encloses_the_call(f: FuncView, i: int)
    requires
        0 <= i < f.args.len(),
        mut_str(f.args[i].typ),
    ensures
        in_order(f.args[i].pre_call(), f.foreign_call(), f.args[i].post_call(), f.body()),
{
    reveal_strlit("let pointer =");
    reveal_strlit("let rust_result =");
    reveal_strlit(" ");
    reveal_strlit(" ;");
    let n = f.args.len() as int;
    let pre = f.pre_calls(n);
    let post = f.post_calls(n);
    let call = f.foreign_call();
    let statement = f.call_statement();
    let binding = result_binding(f.ret, post);
    let result = result_expression(f.ret, post);
    let first = f.args[i].pre_call();
    let third = f.args[i].post_call();

    let at_pre = pre_call_is_included(f, i, n);
    let at_post = post_call_is_included(f, i, n);
    assert(binding.len() > 0);
    assert(statement == binding + " "@ + call + " ;"@);

    // The call within its statement.
    let lead = binding + " "@;
    assert(occurs_at(statement, lead.len() as int, call)) by {
        assert(statement.subrange(lead.len() as int, (lead.len() + call.len()) as int) =~= call);
    }

    // The statement after the code before the call.
    let upto_call = spaced(pre, statement);
    spaced_begins_with_left(pre, statement);
    spaced_ends_with_right(pre, statement);
    assert(upto_call =~= (pre + " "@) + statement);
    occurrence_in_prefix(first, at_pre, pre, upto_call);
    occurrence_after(call, lead.len() as int, pre + " "@, statement);
    let at_call: int = (pre.len() + 1 + lead.len()) as int;
    assert(occurs_at(upto_call, at_call, call));

    // The code after the call.
    let upto_post = spaced(upto_call, post);
    spaced_begins_with_left(upto_call, post);
    assert(upto_post =~= (upto_call + " "@) + post);
    occurrence_in_prefix(first, at_pre, upto_call, upto_post);
    occurrence_in_prefix(call, at_call, upto_call, upto_post);
    occurrence_after(third, at_post, upto_call + " "@, post);
    let at_third: int = upto_call.len() + 1 + at_post;
    assert(occurs_at(upto_post, at_third, third));

    // The result comes last.
    let body = f.body();
    assert(body == spaced(upto_post, result));
    spaced_begins_with_left(upto_post, result);
    occurrence_in_prefix(first, at_pre, upto_post, body);
    occurrence_in_prefix(call, at_call, upto_post, body);
    occurrence_in_prefix(third, at_third, upto_post, body);
    assert(at_pre + first.len() <= pre.len());
    assert(at_call + call.len() <= upto_call.len());
}

/// No function on the deny-list is named like a constructor: the deny-list
/// and the rule that withholds constructors never both apply, so the order
/// in which they are asked makes no difference.
pub proof fn deny_list_holds_no_constructor(name: Seq<char>, group: Seq<char>)
    requires
        deny_listed(name),
    ensures
        name != constructor_name(group),
{
    reveal_strlit("lv_obj_null_on_delete");
    reveal_strlit("lv_obj_add_style");
    reveal_strlit("lv_obj_replace_style");
    reveal_strlit("lv_obj_remove_style");
    reveal_strlit("lv_obj_remove_style_all");
    reveal_strlit("lv_obj_set_parent");
    reveal_strlit("lv_obj_add_event_cb");
    reveal_strlit("lv_style_init");
    reveal_strlit("lv_event_get_target");
    reveal_strlit("lv_event_get_target_obj");
    reveal_strlit("lv_event_get_current_target_obj");
    reveal_strlit("lv_list_get_button_text");
    reveal_strlit("lv_");
    reveal_strlit("_create");
    let made = constructor_name(group);
    // The name of a constructor ends in `a`, some character, `e`; no name
    // on the deny-list does.
    assert(made.len() == group.len() + 10);
    assert(made[made.len() - 3] == 'a' && made[made.len() - 1] == 'e');
    assert(name[name.len() - 3] != 'a' || name[name.len() - 1] != 'e');
}

} // verus!
