//! What holds of the groups that are extracted.
use vstd::prelude::*;
use crate::codegen::funcs::{FuncView, LvFunc};
use crate::codegen::groups::{
    belongs_to,
    constructed_group,
    extracted,
    func_views,
    group_names,
    member_prefix,
    members,
    widget_views,
    widgets_of,
};
use crate::codegen::widgets::{LvWidget, WidgetView};

verus! {

/// Extraction is a function of the functions as plain values: two runs
/// over the same functions give the same widgets, with the same members in
/// the same order.
pub proof fn extraction_is_repeatable(
    fs: Seq<LvFunc>,
    again: Seq<LvFunc>,
    first: Seq<LvWidget>,
    second: Seq<LvWidget>,
)
    requires
        func_views(fs) == func_views(again),
        widget_views(first) == extracted(func_views(fs)),
        widget_views(second) == extracted(func_views(again)),
    ensures
        widget_views(first) == widget_views(second),
{
}

/// The word that `word_before` finds holds no underscore.
pub proof fn constructed_group_is_one_word(name: Seq<char>)
    requires
        constructed_group(name) is Some,
    ensures
        !constructed_group(name)->0.contains('_'),
        constructed_group(name)->0.len() > 0,
{
}

/// Every group name holds no underscore.
pub proof fn group_names_are_words(fs: Seq<FuncView>, n: int, k: int)
    requires
        0 <= k < group_names(fs, n).len(),
    ensures
        !group_names(fs, n)[k].contains('_'),
    decreases n,
{
    if n <= 0 || n > fs.len() {
    } else {
        let earlier = group_names(fs, n - 1);
        if k < earlier.len() {
            group_names_are_words(fs, n - 1, k);
        } else {
            constructed_group_is_one_word(fs[n - 1].name);
        }
    }
}

/// No group is named twice.
pub proof fn group_names_are_distinct(fs: Seq<FuncView>, n: int)
    ensures
        group_names(fs, n).no_duplicates(),
    decreases n,
{
    if n <= 0 || n > fs.len() {
    } else {
        group_names_are_distinct(fs, n - 1);
    }
}

/// A function is a member of at most one group: of two groups whose names
/// hold no underscore, only one can begin its name.
pub proof fn at_most_one_group(f: FuncView, one: Seq<char>, other: Seq<char>)
    requires
        belongs_to(f, one),
        belongs_to(f, other),
        !one.contains('_'),
        !other.contains('_'),
    ensures
        one == other,
{
    reveal_strlit("lv_");
    reveal_strlit("_");
    let a = member_prefix(one);
    let b = member_prefix(other);
    assert(a.len() == one.len() + 4);
    assert(b.len() == other.len() + 4);
    assert forall|i: int| 0 <= i < one.len() implies f.name[3 + i] == one[i] by {
        assert(a[3 + i] == one[i]);
        assert(f.name.subrange(0, a.len() as int)[3 + i] == f.name[3 + i]);
    }
    assert forall|i: int| 0 <= i < other.len() implies f.name[3 + i] == other[i] by {
        assert(b[3 + i] == other[i]);
        assert(f.name.subrange(0, b.len() as int)[3 + i] == f.name[3 + i]);
    }
    let end_one = 3 + one.len() as int;
    let end_other = 3 + other.len() as int;
    assert(f.name[end_one] == '_') by {
        assert(a[end_one] == '_');
        assert(f.name.subrange(0, a.len() as int)[end_one] == f.name[end_one]);
    }
    assert(f.name[end_other] == '_') by {
        assert(b[end_other] == '_');
        assert(f.name.subrange(0, b.len() as int)[end_other] == f.name[end_other]);
    }
    if one.len() < other.len() {
        assert(other[one.len() as int] == '_');
        assert(other.contains('_'));
    }
    if other.len() < one.len() {
        assert(one[other.len() as int] == '_');
        assert(one.contains('_'));
    }
    assert(one =~= other);
}

/// Every member of a group is one of the functions, is a method, and has
/// the group's prefix. Whether it can be wrapped plays no part.
pub proof fn members_belong(fs: Seq<FuncView>, group: Seq<char>, n: int, k: int)
    requires
        0 <= k < members(fs, group, n).len(),
    ensures
        belongs_to(members(fs, group, n)[k], group),
        fs.contains(members(fs, group, n)[k]),
    decreases n,
{
    if n <= 0 || n > fs.len() {
    } else {
        let earlier = members(fs, group, n - 1);
        if k < earlier.len() {
            members_belong(fs, group, n - 1, k);
        } else {
            assert(fs[n - 1] == members(fs, group, n)[k]);
        }
    }
}

/// Every function that belongs to a group is among the group's members.
pub proof fn members_are_complete(fs: Seq<FuncView>, group: Seq<char>, n: int, i: int)
    requires
        0 <= i < n <= fs.len(),
        belongs_to(fs[i], group),
    ensures
        members(fs, group, n).contains(fs[i]),
    decreases n,
{
    let all = members(fs, group, n);
    if i == n - 1 {
        assert(all[all.len() - 1] == fs[i]);
    } else {
        members_are_complete(fs, group, n - 1, i);
        let earlier = members(fs, group, n - 1);
        let k = choose|k: int| 0 <= k < earlier.len() && earlier[k] == fs[i];
        assert(all[k] == fs[i]);
    }
}

/// The members of a group are the functions that belong to it, in the
/// order of the functions: what a filter keeps.
pub proof fn members_are_the_filter(fs: Seq<FuncView>, group: Seq<char>, n: int)
    requires
        0 <= n <= fs.len(),
    ensures
        members(fs, group, n) == fs.take(n).filter(|f: FuncView| belongs_to(f, group)),
    decreases n,
{
    reveal(Seq::filter);
    let keep = |f: FuncView| belongs_to(f, group);
    if n > 0 {
        members_are_the_filter(fs, group, n - 1);
        assert(fs.take(n).drop_last() =~= fs.take(n - 1));
        assert(fs.take(n).last() == fs[n - 1]);
    }
}

/// Every widget found has a member, is named by one of the groups, and
/// holds exactly the members of that group.
pub proof fn widgets_are_groups(fs: Seq<FuncView>, names: Seq<Seq<char>>, k: int, i: int)
    requires
        0 <= i < widgets_of(fs, names, k).len(),
    ensures
        widgets_of(fs, names, k)[i].methods.len() > 0,
        names.contains(widgets_of(fs, names, k)[i].name),
        widgets_of(fs, names, k)[i].methods == members(
            fs,
            widgets_of(fs, names, k)[i].name,
            fs.len() as int,
        ),
    decreases k,
{
    if k <= 0 || k > names.len() {
    } else {
        let earlier = widgets_of(fs, names, k - 1);
        if i < earlier.len() {
            widgets_are_groups(fs, names, k - 1, i);
        } else {
            assert(names[k - 1] == widgets_of(fs, names, k)[i].name);
        }
    }
}

/// No member that is left unwrapped is lost: each is counted among those
/// worth reporting or among those expected, never among both.
pub proof fn skipped_members_are_sorted(w: WidgetView, n: int)
    requires
        0 <= n <= w.methods.len(),
    ensures
        w.skipped(n).len() == w.skipped_as(n, true).len() + w.skipped_as(n, false).len(),
        forall|k: int|
            0 <= k < w.skipped_as(n, true).len() ==> (#[trigger] w.skipped_as(
                n,
                true,
            )[k]).reason.reportable(),
        forall|k: int|
            0 <= k < w.skipped_as(n, false).len() ==> !(#[trigger] w.skipped_as(
                n,
                false,
            )[k]).reason.reportable(),
    decreases n,
{
    if n > 0 {
        skipped_members_are_sorted(w, n - 1);
    }
}

} // verus!
