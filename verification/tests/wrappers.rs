use lv_bevy_ecs::codegen::{LvArg, LvFunc, LvType, LvWidget, Rusty, SkipReason};
use proc_macro2::TokenStream;
use std::str::FromStr;

fn ty(descriptor: &str) -> LvType {
    LvType::new(descriptor.to_string())
}

fn arg(name: &str, descriptor: &str) -> LvArg {
    LvArg::new(name.to_string(), ty(descriptor))
}

fn func(name: &str, args: Vec<LvArg>, ret: Option<&str>) -> LvFunc {
    LvFunc::new(name.to_string(), args, ret.map(ty))
}

fn widget(name: &str, methods: Vec<LvFunc>) -> LvWidget {
    LvWidget {
        name: name.to_string(),
        methods,
    }
}

fn printed(source: &str) -> String {
    TokenStream::from_str(source).unwrap().to_string()
}

#[test]
fn function_without_arguments() {
    let f = func("lv_refr_now_all", vec![], None);
    assert_eq!(
        f.code(&widget("refr", vec![])).unwrap(),
        "pub fn lv_refr_now_all () { unsafe { lightvgl_sys :: lv_refr_now_all () } }"
    );
    assert_eq!(
        f.code(&widget("refr", vec![])).unwrap(),
        printed("pub fn lv_refr_now_all() { unsafe { lightvgl_sys::lv_refr_now_all() } }")
    );
    assert!(!f.is_method());
}

#[test]
fn receiver_mirrors_the_pointer() {
    let exclusive = func(
        "lv_obj_invalidate",
        vec![arg("obj", "* mut lv_obj_t")],
        None,
    );
    let shared = func(
        "lv_obj_is_valid",
        vec![arg("obj", "* const lv_obj_t")],
        Some("bool"),
    );
    let style = func(
        "lv_style_reset",
        vec![arg("style", "* mut lv_style_t")],
        None,
    );
    let const_style = func(
        "lv_style_is_empty",
        vec![arg("style", "* const lv_style_t")],
        Some("bool"),
    );
    assert!(exclusive.is_method());
    assert!(shared.is_method());
    assert!(style.is_method());
    assert!(const_style.is_method());
    let obj = widget("obj", vec![]);
    let sty = widget("style", vec![]);
    assert!(exclusive
        .code(&obj)
        .unwrap()
        .starts_with("pub fn lv_obj_invalidate (obj : & mut crate :: widgets :: Wdg)"));
    assert!(shared
        .code(&obj)
        .unwrap()
        .starts_with("pub fn lv_obj_is_valid (obj : & crate :: widgets :: Wdg)"));
    assert!(style
        .code(&sty)
        .unwrap()
        .starts_with("pub fn lv_style_reset (style : & mut crate :: styles :: Style)"));
    assert!(const_style
        .code(&sty)
        .unwrap()
        .starts_with("pub fn lv_style_is_empty (style : & crate :: styles :: Style)"));
    assert_eq!(
        style.code(&sty).unwrap(),
        printed(
            "pub fn lv_style_reset(style: &mut crate::styles::Style) {
                unsafe { lightvgl_sys::lv_style_reset(style.raw_mut()) }
            }"
        )
    );
}

#[test]
fn methods_are_told_by_the_first_argument_alone() {
    assert!(!func("lv_f", vec![], None).is_method());
    assert!(!func("lv_f", vec![arg("x", "u32")], None).is_method());
    assert!(!func(
        "lv_f",
        vec![arg("x", "u32"), arg("obj", "* mut lv_obj_t")],
        None
    )
    .is_method());
    assert!(!func("lv_f", vec![arg("objs", "* mut * mut lv_obj_t")], None).is_method());
    assert!(func(
        "lv_f",
        vec![arg("obj", "* mut lv_obj_t"), arg("x", "u32")],
        None
    )
    .is_method());
}

#[test]
fn array_argument_rejects_the_whole_function() {
    let f = func(
        "lv_obj_set_children",
        vec![
            arg("obj", "* mut lv_obj_t"),
            arg("count", "u32"),
            arg("children", "* mut * mut lv_obj_t"),
        ],
        None,
    );
    let refused = f.code(&widget("obj", vec![])).unwrap_err();
    assert!(matches!(&refused, SkipReason::ArrayArgument(t) if t == "* mut * mut lv_obj_t"));
    assert!(matches!(
        f.rejected_argument(),
        Some(SkipReason::ArrayArgument(_))
    ));
}

#[test]
fn first_argument_that_cannot_be_taken_gives_the_reason() {
    let f = func(
        "lv_obj_f",
        vec![
            arg("obj", "* mut lv_obj_t"),
            arg("data", "* mut cty :: c_void"),
            arg("children", "* mut * mut lv_obj_t"),
        ],
        None,
    );
    assert!(matches!(
        f.code(&widget("obj", vec![])),
        Err(SkipReason::VoidPtrArgument(t)) if t == "* mut cty :: c_void"
    ));
    let g = func(
        "lv_obj_g",
        vec![
            arg("obj", "* mut lv_obj_t"),
            arg("children", "* const * const u8"),
            arg("data", "* mut cty :: c_void"),
        ],
        None,
    );
    assert!(matches!(
        g.code(&widget("obj", vec![])),
        Err(SkipReason::ArrayArgument(t)) if t == "* const * const u8"
    ));
}

#[test]
fn undeclarable_first_argument_is_left_out() {
    let f = func(
        "lv_f",
        vec![arg("list", "* mut * mut u8"), arg("n", "u32")],
        None,
    );
    assert!(f.rejected_argument().is_none());
    assert_eq!(f.args_decl(), "n : u32");
    assert_eq!(f.ffi_args(), "list , n");
    assert_eq!(
        f.code(&widget("x", vec![])).unwrap(),
        "pub fn lv_f (n : u32) { unsafe { lightvgl_sys :: lv_f (list , n) } }"
    );
}

#[test]
fn deny_listed_functions_are_refused_whatever_their_shape() {
    let names = [
        "lv_obj_null_on_delete",
        "lv_obj_add_style",
        "lv_obj_replace_style",
        "lv_obj_remove_style",
        "lv_obj_remove_style_all",
        "lv_obj_set_parent",
        "lv_obj_add_event_cb",
        "lv_style_init",
        "lv_event_get_target",
        "lv_event_get_target_obj",
        "lv_event_get_current_target_obj",
        "lv_list_get_button_text",
    ];
    for name in names {
        let shapes = [
            func(name, vec![], None),
            func(name, vec![arg("obj", "* mut lv_obj_t")], Some("bool")),
            func(
                name,
                vec![arg("obj", "* mut lv_obj_t"), arg("a", "* mut * mut u8")],
                Some("* mut * mut u8"),
            ),
        ];
        for f in shapes {
            for group in ["obj", "style", "event", "list", ""] {
                let refused = f.code(&widget(group, vec![])).unwrap_err();
                assert!(matches!(&refused, SkipReason::Blacklisted(n) if n == name));
                assert!(!refused.is_reportable());
            }
        }
    }
    let refused = func("lv_style_init", vec![], None)
        .code(&widget("style", vec![]))
        .unwrap_err();
    assert_eq!(refused.to_string(), "Blacklisted function (lv_style_init)");
}

#[test]
fn names_near_the_deny_list_are_wrapped() {
    for name in ["lv_obj_add_style2", "lv_obj_add_styl", "Lv_obj_add_style", ""] {
        assert!(func(name, vec![], None).code(&widget("obj", vec![])).is_ok());
    }
}

#[test]
fn constructor_is_withheld_but_for_the_generic_object() {
    let create = func(
        "lv_arc_create",
        vec![arg("parent", "* mut lv_obj_t")],
        Some("* mut lv_obj_t"),
    );
    let refused = create.code(&widget("arc", vec![])).unwrap_err();
    assert!(matches!(&refused, SkipReason::Constructor(n) if n == "lv_arc_create"));
    assert_eq!(refused.to_string(), "Constructor function (lv_arc_create)");
    assert!(!refused.is_reportable());
    // Another group's constructor is an ordinary member.
    assert!(create.code(&widget("label", vec![])).is_ok());

    let obj_create = func(
        "lv_obj_create",
        vec![arg("parent", "* mut lv_obj_t")],
        Some("* mut lv_obj_t"),
    );
    assert_eq!(
        obj_create.code(&widget("obj", vec![])).unwrap(),
        printed(
            "pub fn lv_obj_create(parent: &mut crate::widgets::Wdg) -> Option<Wdg> {
                unsafe {
                    let pointer = lightvgl_sys::lv_obj_create(parent.raw_mut());
                    Wdg::try_from_ptr(pointer)
                }
            }"
        )
    );
    assert!(create.is_constructor_of("arc"));
    assert!(!create.is_constructor_of("ar"));
    assert!(!create.is_constructor_of("obj"));
}

#[test]
fn array_return_is_refused() {
    let f = func(
        "lv_obj_get_children",
        vec![arg("obj", "* mut lv_obj_t")],
        Some("* mut * mut lv_obj_t"),
    );
    let refused = f.code(&widget("obj", vec![])).unwrap_err();
    assert!(matches!(&refused, SkipReason::ReturnArray(t) if t == "* mut * mut lv_obj_t"));
    assert_eq!(
        refused.to_string(),
        "Return value is array (* mut * mut lv_obj_t)"
    );
    assert!(refused.is_reportable());
    // The return type is looked at before the arguments.
    let g = func(
        "lv_obj_g",
        vec![arg("obj", "* mut lv_obj_t"), arg("a", "* mut * mut u8")],
        Some("* const * const u8"),
    );
    assert!(matches!(
        g.code(&widget("obj", vec![])),
        Err(SkipReason::ReturnArray(_))
    ));
}

#[test]
fn return_types_by_shape() {
    let returning = |ret: Option<&str>| func("lv_f", vec![], ret).return_tokens().unwrap();
    assert_eq!(returning(None), "");
    assert_eq!(returning(Some("bool")), "-> bool");
    assert_eq!(returning(Some("lv_result_t")), "-> lv_result_t");
    assert_eq!(returning(Some("* mut lv_obj_t")), "-> Option < Wdg >");
    assert_eq!(returning(Some("* const lv_obj_t")), "-> Option < Wdg >");
    assert_eq!(returning(Some("* const c_char")), "-> & CStr");
    assert_eq!(returning(Some("* mut :: core :: ffi :: c_char")), "-> & CStr");
    assert_eq!(
        returning(Some("* mut lv_style_t")),
        "-> Option < NonNull < lv_style_t > >"
    );
    assert_eq!(
        returning(Some("* const lv_font_t")),
        "-> Option < & lv_font_t >"
    );
    assert_eq!(returning(Some("* mut lv_obj_t")), printed("-> Option<Wdg>"));
    assert_eq!(
        returning(Some("* mut lv_style_t")),
        printed("-> Option<NonNull<lv_style_t> >")
    );
    assert_eq!(
        returning(Some("* const lv_font_t")),
        printed("-> Option< &lv_font_t>")
    );
}

#[test]
fn mutable_pointer_return_becomes_an_optional_pointer() {
    let f = func(
        "lv_obj_get_display",
        vec![arg("obj", "* mut lv_obj_t")],
        Some("* mut lv_display_t"),
    );
    assert_eq!(
        f.code(&widget("obj", vec![])).unwrap(),
        printed(
            "pub fn lv_obj_get_display(obj: &mut crate::widgets::Wdg) -> Option<NonNull<lv_display_t> > {
                unsafe {
                    let pointer = lightvgl_sys::lv_obj_get_display(obj.raw_mut());
                    NonNull::new(pointer)
                }
            }"
        )
    );
}

#[test]
fn constant_pointer_return_becomes_an_optional_reference() {
    let f = func(
        "lv_obj_get_class",
        vec![arg("obj", "* const lv_obj_t")],
        Some("* const lv_obj_class_t"),
    );
    assert_eq!(
        f.code(&widget("obj", vec![])).unwrap(),
        "pub fn lv_obj_get_class (obj : & crate :: widgets :: Wdg) -> Option < & lv_obj_class_t > \
         { unsafe { let pointer = lightvgl_sys :: lv_obj_get_class (obj . raw ()) ; \
         if ! pointer . is_null () { Some (& * pointer) } else { None } } }"
    );
    assert_eq!(
        f.code(&widget("obj", vec![])).unwrap(),
        printed(
            "pub fn lv_obj_get_class(obj: &crate::widgets::Wdg) -> Option< &lv_obj_class_t> {
                unsafe {
                    let pointer = lightvgl_sys::lv_obj_get_class(obj.raw());
                    if !pointer.is_null() { Some(& *pointer) } else { None }
                }
            }"
        )
    );
}

#[test]
fn screen_getter_gives_an_optional_handle() {
    let f = func(
        "lv_obj_get_screen",
        vec![arg("obj", "* const lv_obj_t")],
        Some("* mut lv_obj_t"),
    );
    assert!(f.is_method());
    let widgets = lv_bevy_ecs::codegen::CodeGen::extract_widgets(&[
        func("lv_obj_create", vec![arg("parent", "* mut lv_obj_t")], Some("* mut lv_obj_t")),
        f.clone(),
    ])
    .unwrap();
    assert_eq!(widgets.len(), 1);
    assert_eq!(widgets[0].name, "obj");
    assert_eq!(widgets[0].methods.len(), 2);
    assert_eq!(widgets[0].methods[1].name, "lv_obj_get_screen");
    assert_eq!(
        f.code(&widgets[0]).unwrap(),
        printed(
            "pub fn lv_obj_get_screen(obj: &crate::widgets::Wdg) -> Option<Wdg> {
                unsafe {
                    let pointer = lightvgl_sys::lv_obj_get_screen(obj.raw());
                    Wdg::try_from_ptr(pointer)
                }
            }"
        )
    );
}

#[test]
fn label_text_is_taken_as_a_string_view() {
    let f = func(
        "lv_label_set_text",
        vec![arg("label", "* mut lv_obj_t"), arg("text", "* const c_char")],
        None,
    );
    let code = f.code(&widget("label", vec![])).unwrap();
    assert_eq!(
        code,
        "pub fn lv_label_set_text (label : & mut crate :: widgets :: Wdg , text : & CStr) \
         { unsafe { lightvgl_sys :: lv_label_set_text (label . raw_mut () , text . as_ptr ()) } }"
    );
    assert!(!code.contains("->"));
    assert_eq!(f.return_tokens().unwrap(), "");
}

#[test]
fn roller_option_buffer_makes_its_round_trip() {
    let f = func(
        "lv_roller_get_option_str",
        vec![
            arg("obj", "* const lv_obj_t"),
            arg("option", "u32"),
            arg("buf", "* mut c_char"),
            arg("buf_size", "u32"),
        ],
        Some("lv_result_t"),
    );
    assert_eq!(
        f.args_preprocessing(),
        "let buf_raw = buf . clone () . into_raw () ;"
    );
    assert_eq!(f.ffi_args(), "obj . raw () , option , buf_raw , buf_size");
    assert_eq!(
        f.args_postprocessing(),
        "* buf = :: alloc :: ffi :: CString :: from_raw (buf_raw) ;"
    );
    let post = f.args_postprocessing();
    assert_eq!(f.return_assignment(&post), "let rust_result =");
    assert_eq!(f.return_expr(&post), "rust_result");
    assert_eq!(f.return_tokens().unwrap(), "-> lv_result_t");
    assert_eq!(
        f.code(&widget("roller", vec![])).unwrap(),
        "pub fn lv_roller_get_option_str (obj : & crate :: widgets :: Wdg , option : u32 , \
         buf : & mut :: alloc :: ffi :: CString , buf_size : u32) -> lv_result_t { unsafe { \
         let buf_raw = buf . clone () . into_raw () ; \
         let rust_result = lightvgl_sys :: lv_roller_get_option_str (obj . raw () , option , buf_raw , buf_size) ; \
         * buf = :: alloc :: ffi :: CString :: from_raw (buf_raw) ; rust_result } }"
    );
}

#[test]
fn two_mutable_strings_each_make_their_round_trip() {
    let f = func(
        "lv_x_copy",
        vec![
            arg("obj", "* mut lv_obj_t"),
            arg("a", "* mut c_char"),
            arg("n", "u32"),
            arg("b", "* mut :: core :: ffi :: c_char"),
        ],
        None,
    );
    assert_eq!(
        f.code(&widget("x", vec![])).unwrap(),
        printed(
            "pub fn lv_x_copy(obj: &mut crate::widgets::Wdg, a: &mut ::alloc::ffi::CString, n: u32, b: &mut ::alloc::ffi::CString) {
                unsafe {
                    let a_raw = a.clone().into_raw();
                    let b_raw = b.clone().into_raw();
                    let rust_result = lightvgl_sys::lv_x_copy(obj.raw_mut(), a_raw, n, b_raw);
                    *a = ::alloc::ffi::CString::from_raw(a_raw);
                    *b = ::alloc::ffi::CString::from_raw(b_raw);
                    rust_result
                }
            }"
        )
    );
}

#[test]
fn pointer_result_is_converted_after_the_strings_are_restored() {
    let f = func(
        "lv_x_find",
        vec![arg("obj", "* mut lv_obj_t"), arg("key", "* mut c_char")],
        Some("* mut lv_obj_t"),
    );
    assert_eq!(
        f.code(&widget("x", vec![])).unwrap(),
        printed(
            "pub fn lv_x_find(obj: &mut crate::widgets::Wdg, key: &mut ::alloc::ffi::CString) -> Option<Wdg> {
                unsafe {
                    let key_raw = key.clone().into_raw();
                    let pointer = lightvgl_sys::lv_x_find(obj.raw_mut(), key_raw);
                    *key = ::alloc::ffi::CString::from_raw(key_raw);
                    Wdg::try_from_ptr(pointer)
                }
            }"
        )
    );
}

#[test]
fn widget_code_is_the_wrappers_of_its_members() {
    let set = func(
        "lv_arc_set_value",
        vec![arg("obj", "* mut lv_obj_t"), arg("value", "i32")],
        None,
    );
    let create = func(
        "lv_arc_create",
        vec![arg("parent", "* mut lv_obj_t")],
        Some("* mut lv_obj_t"),
    );
    let list = func(
        "lv_arc_get_parts",
        vec![arg("obj", "* mut lv_obj_t"), arg("parts", "* mut * mut u8")],
        None,
    );
    let get = func(
        "lv_arc_get_value",
        vec![arg("obj", "* const lv_obj_t")],
        Some("i32"),
    );
    let arc = widget("arc", vec![set, create, list, get]);
    assert_eq!(
        arc.code(&()).unwrap(),
        printed(
            "pub fn lv_arc_set_value(obj: &mut crate::widgets::Wdg, value: i32) {
                unsafe { lightvgl_sys::lv_arc_set_value(obj.raw_mut(), value) }
            }
            pub fn lv_arc_get_value(obj: &crate::widgets::Wdg) -> i32 {
                unsafe { lightvgl_sys::lv_arc_get_value(obj.raw()) }
            }"
        )
    );
    assert_eq!(arc.wrappers(), arc.code(&()).unwrap());

    let skipped = arc.skipped();
    assert_eq!(skipped.len(), 2);
    assert_eq!(skipped[0].function, "lv_arc_create");
    assert!(matches!(skipped[0].reason, SkipReason::Constructor(_)));
    assert!(!skipped[0].reason.is_reportable());
    assert_eq!(skipped[1].function, "lv_arc_get_parts");
    assert!(matches!(skipped[1].reason, SkipReason::ArrayArgument(_)));
    assert!(skipped[1].reason.is_reportable());
    assert_eq!(
        skipped[1].reason.to_string(),
        "Array as argument (* mut * mut u8)"
    );

    let generated = arc.generate();
    assert_eq!(generated.code, arc.code(&()).unwrap());
    assert_eq!(generated.reported.len(), 1);
    assert_eq!(generated.reported[0].function, "lv_arc_get_parts");
    assert!(matches!(
        generated.reported[0].reason,
        SkipReason::ArrayArgument(_)
    ));
    assert_eq!(generated.silent.len(), 1);
    assert_eq!(generated.silent[0].function, "lv_arc_create");
    assert!(matches!(
        generated.silent[0].reason,
        SkipReason::Constructor(_)
    ));
}

#[test]
fn every_member_is_wrapped_or_listed() {
    let members = vec![
        func("lv_obj_null_on_delete", vec![arg("obj", "* mut lv_obj_t")], None),
        func("lv_obj_a", vec![arg("obj", "* mut lv_obj_t")], Some("* mut * mut u8")),
        func("lv_obj_b", vec![arg("obj", "* mut lv_obj_t")], None),
        func(
            "lv_obj_c",
            vec![arg("obj", "* mut lv_obj_t"), arg("d", "* mut cty :: c_void")],
            None,
        ),
        func("lv_obj_create", vec![arg("obj", "* mut lv_obj_t")], None),
    ];
    let generated = widget("obj", members).generate();
    assert_eq!(generated.code.matches("pub fn ").count(), 2);
    let reported: Vec<&str> = generated
        .reported
        .iter()
        .map(|s| s.function.as_str())
        .collect();
    let silent: Vec<&str> = generated
        .silent
        .iter()
        .map(|s| s.function.as_str())
        .collect();
    assert_eq!(reported, vec!["lv_obj_a", "lv_obj_c"]);
    assert_eq!(silent, vec!["lv_obj_null_on_delete"]);
    assert!(matches!(generated.reported[0].reason, SkipReason::ReturnArray(_)));
    assert!(matches!(
        generated.reported[1].reason,
        SkipReason::VoidPtrArgument(_)
    ));
    assert!(matches!(generated.silent[0].reason, SkipReason::Blacklisted(_)));
}

#[test]
fn marker_declaration_names_the_constructor() {
    assert_eq!(
        widget("arc", vec![]).gen_impl().unwrap(),
        "impl_widget ! (Arc , lightvgl_sys :: lv_arc_create) ;"
    );
    assert_eq!(
        widget("arc", vec![]).gen_impl().unwrap(),
        printed("impl_widget!(Arc, lightvgl_sys::lv_arc_create);")
    );
    assert_eq!(
        widget("buttonmatrix", vec![]).gen_impl().unwrap(),
        printed("impl_widget!(Buttonmatrix, lightvgl_sys::lv_buttonmatrix_create);")
    );
    assert_eq!(
        widget("anim_img", vec![]).gen_impl().unwrap(),
        format!(
            "impl_widget ! ({} , lightvgl_sys :: lv_anim_img_create) ;",
            inflector::cases::pascalcase::to_pascal_case("anim_img")
        )
    );
    assert_eq!(
        widget("anim_img", vec![]).gen_impl().unwrap(),
        "impl_widget ! (AnimImg , lightvgl_sys :: lv_anim_img_create) ;"
    );
}

#[test]
fn hand_written_groups_have_no_marker() {
    let obj = widget("obj", vec![]).gen_impl().unwrap_err();
    assert!(matches!(&obj, SkipReason::CustomStruct(n) if n == "obj"));
    assert_eq!(obj.to_string(), "Already implemented (obj)");
    assert!(!obj.is_reportable());
    assert!(matches!(
        widget("style", vec![]).gen_impl(),
        Err(SkipReason::CustomStruct(n)) if n == "style"
    ));
}

#[test]
fn copies_keep_every_field() {
    let f = func(
        "lv_arc_set_value",
        vec![arg("obj", "* mut lv_obj_t"), arg("value", "i32")],
        Some("bool"),
    );
    let g = f.clone();
    assert_eq!(g.name, f.name);
    assert_eq!(g.args.len(), 2);
    assert_eq!(g.args[1].name, "value");
    assert_eq!(g.args[1].typ.literal_name, "i32");
    assert_eq!(g.ret.as_ref().unwrap().literal_name, "bool");
    let w = widget("arc", vec![f]);
    let v = w.clone();
    assert_eq!(v.name, "arc");
    assert_eq!(v.methods.len(), 1);
    assert_eq!(v.methods[0].name, "lv_arc_set_value");
    let reason = SkipReason::ReturnArray("* mut * mut u8".to_string());
    assert_eq!(reason.clone().to_string(), reason.to_string());
}
