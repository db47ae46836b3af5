//! Reading foreign function declarations out of Rust source text.
//!
//! The text is parsed by `syn`. What this module believes of `syn` is stated
//! by the contracts of the private functions below, over a model of the
//! syntax tree that holds what the loader reads and nothing else. On top
//! of them, verified code picks the declarations that belong to the library.
//!
//! Names and types come as token texts, as token streams print them outside
//! of a procedural macro: tokens separated by single blanks.
use vstd::prelude::*;
use vstd::string::*;
use quote::ToTokens;
use crate::codegen::args::{ArgView, LvArg};
use crate::codegen::funcs::{FuncView, LvFunc};
use crate::codegen::groups::func_views;
use crate::codegen::types::LvType;
use crate::text::has_prefix;

verus! {

/// `syn::File`: a parsed source file. Nothing is known of what is inside
/// but through the functions below.
#[verifier::external_type_specification]
#[verifier::external_body]
pub struct ExFile(syn::File);

/// `syn::ForeignItemFn`: a parsed foreign function declaration. Nothing is
/// known of what is inside but through the functions below.
#[verifier::external_type_specification]
#[verifier::external_body]
pub struct ExForeignItemFn(syn::ForeignItemFn);

/// A foreign function declaration as it is written: its name, its inputs
/// in order (nothing for a `self` input), and its return type if it has one.
/// Patterns and types are token texts.
pub ghost struct SignatureModel {
    pub name: Seq<char>,
    pub inputs: Seq<Option<ArgView>>,
    pub output: Option<Seq<char>>,
}

/// An item of a foreign block: a function, or anything else.
pub ghost enum EntryModel {
    Function(SignatureModel),
    Other,
}

/// An item of a source file: a foreign block with its items, or anything
/// else.
pub ghost enum ItemModel {
    ForeignBlock(Seq<EntryModel>),
    Other,
}

/// The items of the file that `syn` parses `code` into, or nothing where
/// `code` is no Rust source file.
pub uninterp spec fn parsed_items(code: Seq<char>) -> Option<Seq<ItemModel>>;

/// The message with which `syn` refuses `code`.
pub uninterp spec fn syntax_error(code: Seq<char>) -> Seq<char>;

/// The items that a parsed file holds.
pub uninterp spec fn file_items(file: syn::File) -> Seq<ItemModel>;

/// What a parsed foreign function declaration holds.
pub uninterp spec fn fn_signature(f: syn::ForeignItemFn) -> SignatureModel;

/// Calls `syn::parse_str::<syn::File>`. On success the file holds the items
/// that `code` parses into; on failure `code` parses into nothing, and the
/// error comes back as its message.
#[verifier::external_body]
fn parse_file(code: &str) -> (r: Result<syn::File, String>)
    ensures
        match r {
            Ok(file) => parsed_items(code@) == Some(file_items(file)),
            Err(message) => parsed_items(code@) is None && message@ == syntax_error(code@),
        },
{
    syn::parse_str::<syn::File>(code).map_err(|e| e.to_string())
}

/// The number of items of a file: the length of `syn::File::items`.
#[verifier::external_body]
fn item_count(file: &syn::File) -> (r: usize)
    ensures
        r == file_items(*file).len(),
{
    file.items.len()
}

/// The number of items of the foreign block that item `i` of the file is,
/// or nothing where that item is no foreign block (`syn::Item::ForeignMod`).
#[verifier::external_body]
fn block_len(file: &syn::File, i: usize) -> (r: Option<usize>)
    requires
        i < file_items(*file).len(),
    ensures
        match r {
            Some(n) => file_items(*file)[i as int] matches ItemModel::ForeignBlock(entries)
                && entries.len() == n,
            None => file_items(*file)[i as int] is Other,
        },
{
    match &file.items[i] {
        syn::Item::ForeignMod(block) => Some(block.items.len()),
        _ => None,
    }
}

/// The function declaration that item `j` of the foreign block at `i` is, or
/// nothing where that item is no function (`syn::ForeignItem::Fn`).
#[verifier::external_body]
fn foreign_fn(file: &syn::File, i: usize, j: usize) -> (r: Option<&syn::ForeignItemFn>)
    requires
        i < file_items(*file).len(),
        file_items(*file)[i as int] matches ItemModel::ForeignBlock(entries) && j < entries.len(),
    ensures
        match r {
            Some(f) => file_items(*file)[i as int] matches ItemModel::ForeignBlock(entries)
                && entries[j as int] == EntryModel::Function(fn_signature(*f)),
            None => file_items(*file)[i as int] matches ItemModel::ForeignBlock(entries)
                && entries[j as int] is Other,
        },
{
    match &file.items[i] {
        syn::Item::ForeignMod(block) => match &block.items[j] {
            syn::ForeignItem::Fn(f) => Some(f),
            _ => None,
        },
        _ => None,
    }
}

/// The name of a declaration: its identifier (`syn::Signature::ident`),
/// printed by `to_string`.
#[verifier::external_body]
fn fn_name(f: &syn::ForeignItemFn) -> (r: String)
    ensures
        r@ == fn_signature(*f).name,
{
    f.sig.ident.to_string()
}

/// The number of inputs of a declaration: the length of
/// `syn::Signature::inputs`.
#[verifier::external_body]
fn input_count(f: &syn::ForeignItemFn) -> (r: usize)
    ensures
        r == fn_signature(*f).inputs.len(),
{
    f.sig.inputs.len()
}

/// Input `k` of a declaration (`syn::Signature::inputs`), as an argument
/// whose name is the input's pattern and whose type is the input's type,
/// both turned into tokens by `quote::ToTokens::to_token_stream` and
/// printed by `to_string`; or nothing where the input is `self`
/// (`syn::FnArg::Receiver`).
#[verifier::external_body]
fn typed_input(f: &syn::ForeignItemFn, k: usize) -> (r: Option<LvArg>)
    requires
        k < fn_signature(*f).inputs.len(),
    ensures
        match r {
            Some(arg) => fn_signature(*f).inputs[k as int] == Some(arg@),
            None => fn_signature(*f).inputs[k as int] is None,
        },
{
    match &f.sig.inputs[k] {
        syn::FnArg::Typed(t) => Some(
            LvArg {
                name: t.pat.to_token_stream().to_string(),
                typ: LvType { literal_name: t.ty.to_token_stream().to_string() },
            },
        ),
        syn::FnArg::Receiver(_) => None,
    }
}

/// The return type of a declaration (`syn::Signature::output`), turned into
/// tokens by `quote::ToTokens::to_token_stream` and printed by `to_string`,
/// or nothing where none is written (`syn::ReturnType::Default`).
#[verifier::external_body]
fn output_type(f: &syn::ForeignItemFn) -> (r: Option<LvType>)
    ensures
        match r {
            Some(t) => fn_signature(*f).output == Some(t@),
            None => fn_signature(*f).output is None,
        },
{
    match &f.sig.output {
        syn::ReturnType::Default => None,
        syn::ReturnType::Type(_, t) => Some(LvType { literal_name: t.to_token_stream().to_string() }),
    }
}

/// The arguments among the first `n` inputs: the inputs that are no `self`,
/// in order.
pub open spec fn typed_inputs(inputs: Seq<Option<ArgView>>, n: int) -> Seq<ArgView>
    decreases n,
{
    if n <= 0 || n > inputs.len() {
        Seq::empty()
    } else {
        match inputs[n - 1] {
            Some(arg) => typed_inputs(inputs, n - 1).push(arg),
            None => typed_inputs(inputs, n - 1),
        }
    }
}

/// The function that a declaration stands for.
pub open spec fn declared(sig: SignatureModel) -> FuncView {
    FuncView {
        name: sig.name,
        args: typed_inputs(sig.inputs, sig.inputs.len() as int),
        ret: sig.output,
    }
}

/// Whether a function of this name belongs to the library: whether the
/// name begins with the library's prefix.
pub open spec fn library_name(name: Seq<char>) -> bool {
    "lv_"@.is_prefix_of(name)
}

/// The library's functions among the first `n` items of a foreign block,
/// in order.
pub open spec fn block_functions(entries: Seq<EntryModel>, n: int) -> Seq<FuncView>
    decreases n,
{
    if n <= 0 || n > entries.len() {
        Seq::empty()
    } else {
        match entries[n - 1] {
            EntryModel::Function(sig) => if library_name(sig.name) {
                block_functions(entries, n - 1).push(declared(sig))
            } else {
                block_functions(entries, n - 1)
            },
            EntryModel::Other => block_functions(entries, n - 1),
        }
    }
}

/// The library's functions in the foreign blocks among the first `n` items
/// of a file, in order.
pub open spec fn file_functions(items: Seq<ItemModel>, n: int) -> Seq<FuncView>
    decreases n,
{
    if n <= 0 || n > items.len() {
        Seq::empty()
    } else {
        match items[n - 1] {
            ItemModel::ForeignBlock(entries) => file_functions(items, n - 1) + block_functions(
                entries,
                entries.len() as int,
            ),
            ItemModel::Other => file_functions(items, n - 1),
        }
    }
}

/// The library's functions that `code` declares, or nothing where `code` is
/// no Rust source file.
pub open spec fn declared_functions(code: Seq<char>) -> Option<Seq<FuncView>> {
    match parsed_items(code) {
        Some(items) => Some(file_functions(items, items.len() as int)),
        None => None,
    }
}

impl LvFunc {
    /// The function that a parsed declaration stands for: its name, its
    /// typed inputs as arguments, its return type.
    pub fn from(ffi: &syn::ForeignItemFn) -> (r: LvFunc)
        ensures
            r@ == declared(fn_signature(*ffi)),
    {
        let n = input_count(ffi);
        let mut args: Vec<LvArg> = Vec::new();
        let mut k: usize = 0;
        while k < n
            invariant
                k <= n,
                n == fn_signature(*ffi).inputs.len(),
                args@.map_values(|a: LvArg| a@) == typed_inputs(
                    fn_signature(*ffi).inputs,
                    k as int,
                ),
            decreases n - k,
        {
            match typed_input(ffi, k) {
                Some(arg) => {
                    let ghost before = args@;
                    args.push(arg);
                    assert(args@.map_values(|a: LvArg| a@) =~= before.map_values(
                        |a: LvArg| a@,
                    ).push(arg@));
                },
                None => {},
            }
            k += 1;
        }
        LvFunc { name: fn_name(ffi), args, ret: output_type(ffi) }
    }
}

/// Reads the library's functions out of `code`: the functions declared in
/// foreign blocks whose names begin with the library's prefix, in the order
/// in which they are written. Where `code` is no Rust source file, the
/// parser's message comes back.
pub fn load_functions(code: &str) -> (r: Result<Vec<LvFunc>, String>)
    ensures
        match r {
            Ok(fns) => declared_functions(code@) == Some(func_views(fns@)),
            Err(message) => declared_functions(code@) is None && message@ == syntax_error(code@),
        },
{
    let file = match parse_file(code) {
        Ok(file) => file,
        Err(message) => {
            return Err(message);
        },
    };
    let ghost items = file_items(file);
    let count = item_count(&file);
    let mut fns: Vec<LvFunc> = Vec::new();
    let mut i: usize = 0;
    while i < count
        invariant
            i <= count,
            count == items.len(),
            items == file_items(file),
            func_views(fns@) == file_functions(items, i as int),
        decreases count - i,
    {
        match block_len(&file, i) {
            Some(len) => {
                let ghost entries = items[i as int]->ForeignBlock_0;
                let ghost earlier = func_views(fns@);
                let mut j: usize = 0;
                while j < len
                    invariant
                        j <= len,
                        i < count,
                        count == items.len(),
                        items == file_items(file),
                        items[i as int] == ItemModel::ForeignBlock(entries),
                        len == entries.len(),
                        func_views(fns@) == earlier + block_functions(entries, j as int),
                    decreases len - j,
                {
                    match foreign_fn(&file, i, j) {
                        Some(f) => {
                            let name = fn_name(f);
                            if has_prefix(name.as_str(), "lv_") {
                                let ghost before = fns@;
                                let func = LvFunc::from(f);
                                fns.push(func);
                                assert(func_views(fns@) =~= func_views(before).push(func@));
                                assert(func_views(fns@) =~= earlier + block_functions(
                                    entries,
                                    j as int,
                                ).push(func@));
                            }
                        },
                        None => {},
                    }
                    j += 1;
                }
            },
            None => {},
        }
        i += 1;
    }
    Ok(fns)
}

} // verus!
