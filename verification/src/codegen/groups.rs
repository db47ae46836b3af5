//! The group extractor: which widgets there are, and which functions belong
//! to each.
//!
//! Groups are found by name alone. A function called `lv_NAME_create` or
//! `lv_NAME_init` that takes exactly one argument makes `NAME` a group,
//! whatever the function does. A method whose name begins with `lv_NAME_`
//! is a member of the group `NAME`; whether it can be wrapped plays no part.
use vstd::prelude::*;
use vstd::string::*;
use crate::codegen::funcs::{FuncView, LvFunc};
use crate::codegen::widgets::{LvWidget, WidgetView};
use crate::text::{chars_of, has_prefix, matches_at, same_text};

verus! {

/// What stands between the library prefix and `suffix` in `name`, where
/// `name` is made of the prefix, a non-empty word without underscore, and
/// `suffix`.
pub open spec fn word_before(name: Seq<char>, suffix: Seq<char>) -> Option<Seq<char>> {
    let start = "lv_"@.len() as int;
    let end = name.len() - suffix.len();
    if start < end && "lv_"@.is_prefix_of(name) && suffix.is_suffix_of(name) && !name.subrange(
        start,
        end,
    ).contains('_') {
        Some(name.subrange(start, end))
    } else {
        None
    }
}

/// The group that a function called `name` would construct: `NAME` for
/// `lv_NAME_create` and for `lv_NAME_init`.
pub open spec fn constructed_group(name: Seq<char>) -> Option<Seq<char>> {
    match word_before(name, "_create"@) {
        Some(group) => Some(group),
        None => word_before(name, "_init"@),
    }
}

/// The group that `f` makes known, if it does: `f` is named like a
/// constructor and takes exactly one argument.
pub open spec fn announces(f: FuncView) -> Option<Seq<char>> {
    if f.args.len() == 1 {
        constructed_group(f.name)
    } else {
        None
    }
}

/// The groups that the first `n` functions make known: each once, in the
/// order in which they first appear.
pub open spec fn group_names(fs: Seq<FuncView>, n: int) -> Seq<Seq<char>>
    decreases n,
{
    if n <= 0 || n > fs.len() {
        Seq::empty()
    } else {
        let earlier = group_names(fs, n - 1);
        match announces(fs[n - 1]) {
            Some(group) => if earlier.contains(group) {
                earlier
            } else {
                earlier.push(group)
            },
            None => earlier,
        }
    }
}

/// The prefix that the names of a group's members share.
pub open spec fn member_prefix(group: Seq<char>) -> Seq<char> {
    "lv_"@ + group + "_"@
}

/// Whether `f` is a member of `group`: a method whose name begins with the
/// group's prefix.
pub open spec fn belongs_to(f: FuncView, group: Seq<char>) -> bool {
    member_prefix(group).is_prefix_of(f.name) && f.is_method()
}

/// The members of `group` among the first `n` functions, in order.
pub open spec fn members(fs: Seq<FuncView>, group: Seq<char>, n: int) -> Seq<FuncView>
    decreases n,
{
    if n <= 0 || n > fs.len() {
        Seq::empty()
    } else if belongs_to(fs[n - 1], group) {
        members(fs, group, n - 1).push(fs[n - 1])
    } else {
        members(fs, group, n - 1)
    }
}

/// The widgets of the first `k` of `names`, in that order: one for each
/// name that has a member.
pub open spec fn widgets_of(fs: Seq<FuncView>, names: Seq<Seq<char>>, k: int) -> Seq<WidgetView>
    decreases k,
{
    if k <= 0 || k > names.len() {
        Seq::empty()
    } else {
        let methods = members(fs, names[k - 1], fs.len() as int);
        if methods.len() > 0 {
            widgets_of(fs, names, k - 1).push(WidgetView { name: names[k - 1], methods })
        } else {
            widgets_of(fs, names, k - 1)
        }
    }
}

/// The widgets found in `fs`: for each group that `fs` makes known and
/// that has a member, in the order in which the groups first appear, the
/// group's members in the order of `fs`.
pub open spec fn extracted(fs: Seq<FuncView>) -> Seq<WidgetView> {
    let names = group_names(fs, fs.len() as int);
    widgets_of(fs, names, names.len() as int)
}

/// Functions as plain values.
pub open spec fn func_views(fs: Seq<LvFunc>) -> Seq<FuncView> {
    fs.map_values(|f: LvFunc| f@)
}

/// Widgets as plain values.
pub open spec fn widget_views(ws: Seq<LvWidget>) -> Seq<WidgetView> {
    ws.map_values(|w: LvWidget| w@)
}

/// Texts as characters.
pub open spec fn text_views(ts: Seq<String>) -> Seq<Seq<char>> {
    ts.map_values(|t: String| t@)
}

/// `word_before`, computed.
pub fn find_word_before(name: &str, suffix: &str) -> (r: Option<String>)
    ensures
        match r {
            Some(word) => word_before(name@, suffix@) == Some(word@),
            None => word_before(name@, suffix@) is None,
        },
{
    let n = chars_of(name);
    let p = chars_of("lv_");
    let s = chars_of(suffix);
    if n.len() < s.len() || n.len() - s.len() <= p.len() {
        return None;
    }
    let end = n.len() - s.len();
    if !matches_at(&n, 0, &p) {
        return None;
    }
    if !matches_at(&n, end, &s) {
        return None;
    }
    let ghost middle = n@.subrange(p.len() as int, end as int);
    let mut k: usize = p.len();
    while k < end
        invariant
            p.len() <= k <= end <= n.len(),
            n@ == name@,
            p@ == "lv_"@,
            s@ == suffix@,
            end == n.len() - s.len(),
            middle == n@.subrange(p.len() as int, end as int),
            forall|j: int| 0 <= j < k - p.len() ==> middle[j] != '_',
        decreases end - k,
    {
        if n[k] == '_' {
            assert(middle[k - p.len()] == '_');
            assert(middle.contains('_'));
            return None;
        }
        k += 1;
    }
    assert(!middle.contains('_'));
    Some(String::from_str(name.substring_char(p.len(), end)))
}

/// `constructed_group`, computed.
pub fn find_constructed_group(name: &str) -> (r: Option<String>)
    ensures
        match r {
            Some(group) => constructed_group(name@) == Some(group@),
            None => constructed_group(name@) is None,
        },
{
    match find_word_before(name, "_create") {
        Some(group) => Some(group),
        None => find_word_before(name, "_init"),
    }
}

/// Whether one of `names` holds the characters of `name`.
pub fn holds_name(names: &Vec<String>, name: &str) -> (r: bool)
    ensures
        r == text_views(names@).contains(name@),
{
    let mut i: usize = 0;
    while i < names.len()
        invariant
            i <= names.len(),
            forall|j: int| 0 <= j < i ==> names@[j]@ != name@,
        decreases names.len() - i,
    {
        if same_text(names[i].as_str(), name) {
            assert(text_views(names@)[i as int] == name@);
            return true;
        }
        i += 1;
    }
    false
}

/// Whether `f` is a member of `group`.
pub fn is_member(f: &LvFunc, group: &str) -> (r: bool)
    ensures
        r == belongs_to(f@, group@),
{
    let mut prefix = String::from_str("lv_");
    prefix.append(group);
    prefix.append("_");
    has_prefix(f.name.as_str(), prefix.as_str()) && f.is_method()
}

/// The groups that `functions` make known: each once, in the order in
/// which they first appear.
pub fn widget_names(functions: &[LvFunc]) -> (r: Vec<String>)
    ensures
        text_views(r@) == group_names(func_views(functions@), functions@.len() as int),
{
    let mut names: Vec<String> = Vec::new();
    let mut i: usize = 0;
    while i < functions.len()
        invariant
            i <= functions.len(),
            text_views(names@) == group_names(func_views(functions@), i as int),
        decreases functions.len() - i,
    {
        let f = &functions[i];
        assert(func_views(functions@)[i as int] == f@);
        if f.args.len() == 1 {
            match find_constructed_group(f.name.as_str()) {
                Some(group) => {
                    if !holds_name(&names, group.as_str()) {
                        let ghost before = names@;
                        names.push(group);
                        assert(text_views(names@) =~= text_views(before).push(group@));
                    }
                },
                None => {},
            }
        }
        i += 1;
    }
    names
}

/// The members of `group` among `functions`, in order.
pub fn members_of(functions: &[LvFunc], group: &str) -> (r: Vec<LvFunc>)
    ensures
        func_views(r@) == members(func_views(functions@), group@, functions@.len() as int),
{
    let mut methods: Vec<LvFunc> = Vec::new();
    let mut i: usize = 0;
    while i < functions.len()
        invariant
            i <= functions.len(),
            func_views(methods@) == members(func_views(functions@), group@, i as int),
        decreases functions.len() - i,
    {
        let f = &functions[i];
        assert(func_views(functions@)[i as int] == f@);
        if is_member(f, group) {
            let ghost before = methods@;
            let member = f.clone();
            methods.push(member);
            assert(func_views(methods@) =~= func_views(before).push(f@));
        }
        i += 1;
    }
    methods
}

/// The widgets found in `functions`.
pub fn widgets_in(functions: &[LvFunc]) -> (r: Vec<LvWidget>)
    ensures
        widget_views(r@) == extracted(func_views(functions@)),
{
    let names = widget_names(functions);
    let mut widgets: Vec<LvWidget> = Vec::new();
    let mut k: usize = 0;
    while k < names.len()
        invariant
            k <= names.len(),
            text_views(names@) == group_names(func_views(functions@), functions@.len() as int),
            widget_views(widgets@) == widgets_of(
                func_views(functions@),
                text_views(names@),
                k as int,
            ),
        decreases names.len() - k,
    {
        assert(text_views(names@)[k as int] == names@[k as int]@);
        let methods = members_of(functions, names[k].as_str());
        if methods.len() > 0 {
            let ghost before = widgets@;
            let widget = LvWidget { name: names[k].clone(), methods };
            widgets.push(widget);
            assert(widget_views(widgets@) =~= widget_views(before).push(widget@));
        }
        k += 1;
    }
    widgets
}

} // verus!
