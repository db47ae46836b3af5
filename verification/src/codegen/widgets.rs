//! The widget: a group of methods under one name, and the code emitted for
//! the group.
//!
//! A member that cannot be wrapped is left out of the code and never stops
//! the rest. Every such member is listed with its reason: by `generate`,
//! which tells those worth reporting from those expected, and by `skipped`.
use vstd::prelude::*;
use vstd::string::*;
use crate::codegen::funcs::{FuncView, LvFunc};
use crate::codegen::rusty::Rusty;
use crate::codegen::skip::{outcome, SkipReason, SkipView, WrapperResult};
use crate::text::{push_spaced, same_text, spaced};

verus! {

/// The name of `name` in Pascal case, as the `Inflector` crate gives it.
pub uninterp spec fn pascal_case(name: Seq<char>) -> Seq<char>;

/// Calls `inflector::cases::pascalcase::to_pascal_case`. The result is a
/// function of the text alone; the contract gives it its name and claims
/// nothing else of it.
#[verifier::external_body]
fn to_pascal_case(name: &str) -> (r: String)
    ensures
        r@ == pascal_case(name@),
{
    inflector::cases::pascalcase::to_pascal_case(name)
}

/// The line that declares the marker type of the widget called `name`,
/// whose name in Pascal case is `pascal`.
pub open spec fn marker_declaration(name: Seq<char>, pascal: Seq<char>) -> Seq<char> {
    "impl_widget ! ("@ + pascal + " , lightvgl_sys :: lv_"@ + name + "_create) ;"@
}

/// Whether the group called `name` is implemented by hand: so are the
/// generic object and the style.
pub open spec fn hand_written(name: Seq<char>) -> bool {
    name == "obj"@ || name == "style"@
}

/// A member that was left unwrapped, as plain values.
pub ghost struct SkippedView {
    pub function: Seq<char>,
    pub reason: SkipView,
}

/// What is generated for one widget, as plain values.
pub ghost struct GeneratedView {
    pub code: Seq<char>,
    pub reported: Seq<SkippedView>,
    pub silent: Seq<SkippedView>,
}

/// A widget as plain values: its name and its members in order.
pub ghost struct WidgetView {
    pub name: Seq<char>,
    pub methods: Seq<FuncView>,
}

impl WidgetView {
    /// The code of the first `n` members: the wrappers of those that can
    /// be wrapped, in order.
    pub open spec fn code(self, n: int) -> Seq<char>
        decreases n,
    {
        if n <= 0 || n > self.methods.len() {
            Seq::empty()
        } else {
            match self.methods[n - 1].code(self.name) {
                Ok(wrapper) => spaced(self.code(n - 1), wrapper),
                Err(_) => self.code(n - 1),
            }
        }
    }

    /// Those of the first `n` members that cannot be wrapped, in order,
    /// each with its reason.
    pub open spec fn skipped(self, n: int) -> Seq<SkippedView>
        decreases n,
    {
        if n <= 0 || n > self.methods.len() {
            Seq::empty()
        } else {
            match self.methods[n - 1].code(self.name) {
                Ok(_) => self.skipped(n - 1),
                Err(reason) => self.skipped(n - 1).push(
                    SkippedView { function: self.methods[n - 1].name, reason },
                ),
            }
        }
    }

    /// Those of the first `n` members that are left unwrapped for a reason
    /// worth reporting (`loud`) or for an expected one (not `loud`), in
    /// order.
    pub open spec fn skipped_as(self, n: int, loud: bool) -> Seq<SkippedView>
        decreases n,
    {
        if n <= 0 || n > self.methods.len() {
            Seq::empty()
        } else {
            match self.methods[n - 1].code(self.name) {
                Err(reason) if reason.reportable() == loud => self.skipped_as(n - 1, loud).push(
                    SkippedView { function: self.methods[n - 1].name, reason },
                ),
                _ => self.skipped_as(n - 1, loud),
            }
        }
    }

    /// Everything that is generated for the widget.
    pub open spec fn generated(self) -> GeneratedView {
        let n = self.methods.len() as int;
        GeneratedView {
            code: self.code(n),
            reported: self.skipped_as(n, true),
            silent: self.skipped_as(n, false),
        }
    }

    /// The declaration of the widget's marker type, or the reason why the
    /// widget has none.
    pub open spec fn marker(self) -> Result<Seq<char>, SkipView> {
        if hand_written(self.name) {
            Err(SkipView::CustomStruct(self.name))
        } else {
            Ok(marker_declaration(self.name, pascal_case(self.name)))
        }
    }
}

/// A member that was left unwrapped, and why.
#[derive(Debug)]
pub struct Skipped {
    pub function: String,
    pub reason: SkipReason,
}

impl View for Skipped {
    type V = SkippedView;

    open spec fn view(&self) -> SkippedView {
        SkippedView { function: self.function@, reason: self.reason@ }
    }
}

/// Members that were left unwrapped, as plain values.
pub open spec fn skipped_views(list: Seq<Skipped>) -> Seq<SkippedView> {
    list.map_values(|s: Skipped| s@)
}

/// What is generated for one widget: the code, and the members that were
/// left out of it, those worth reporting apart from those expected.
#[derive(Debug)]
pub struct GeneratedCode {
    /// The wrappers of the members that can be wrapped.
    pub code: String,
    /// The members left out for a reason that shows a gap in what the
    /// generator can wrap.
    pub reported: Vec<Skipped>,
    /// The members left out for an expected reason.
    pub silent: Vec<Skipped>,
}

impl View for GeneratedCode {
    type V = GeneratedView;

    open spec fn view(&self) -> GeneratedView {
        GeneratedView {
            code: self.code@,
            reported: skipped_views(self.reported@),
            silent: skipped_views(self.silent@),
        }
    }
}

/// A group of methods that share a name prefix.
#[derive(Debug)]
pub struct LvWidget {
    pub name: String,
    pub methods: Vec<LvFunc>,
}

impl View for LvWidget {
    type V = WidgetView;

    open spec fn view(&self) -> WidgetView {
        WidgetView { name: self.name@, methods: self.methods@.map_values(|f: LvFunc| f@) }
    }
}

impl Clone for LvWidget {
    fn clone(&self) -> (r: Self)
        ensures
            r@ == self@,
    {
        let mut methods: Vec<LvFunc> = Vec::new();
        let mut i: usize = 0;
        while i < self.methods.len()
            invariant
                i <= self.methods.len(),
                methods.len() == i,
                forall|j: int| 0 <= j < i ==> methods@[j]@ == self.methods@[j]@,
            decreases self.methods.len() - i,
        {
            methods.push(self.methods[i].clone());
            i += 1;
        }
        let r = LvWidget { name: self.name.clone(), methods };
        assert(r@.methods =~= self@.methods);
        r
    }
}

/// The line that declares the marker type of the widget called `name`,
/// given the name in Pascal case.
pub fn marker_line(name: &str, pascal: &str) -> (r: String)
    ensures
        r@ == marker_declaration(name@, pascal@),
{
    let mut r = String::from_str("impl_widget ! (");
    r.append(pascal);
    r.append(" , lightvgl_sys :: lv_");
    r.append(name);
    r.append("_create) ;");
    r
}

impl LvWidget {
    /// The declaration of the widget's marker type. The generic object and
    /// the style are implemented by hand and have none.
    pub fn gen_impl(&self) -> (r: WrapperResult<String>)
        ensures
            outcome(r) == self@.marker(),
    {
        if same_text(self.name.as_str(), "obj") || same_text(self.name.as_str(), "style") {
            Err(SkipReason::CustomStruct(self.name.clone()))
        } else {
            let pascal = to_pascal_case(self.name.as_str());
            Ok(marker_line(self.name.as_str(), pascal.as_str()))
        }
    }

    /// The wrappers of the members that can be wrapped, in order.
    pub fn wrappers(&self) -> (r: String)
        ensures
            r@ == self@.code(self@.methods.len() as int),
    {
        let mut r = String::new();
        let mut i: usize = 0;
        while i < self.methods.len()
            invariant
                i <= self.methods.len(),
                r@ == self@.code(i as int),
            decreases self.methods.len() - i,
        {
            match self.methods[i].code(self) {
                Ok(wrapper) => {
                    push_spaced(&mut r, wrapper.as_str());
                },
                Err(_) => {},
            }
            i += 1;
        }
        r
    }

    /// Everything that is generated for the widget, in one pass over its
    /// members: the wrappers of those that can be wrapped, and the others
    /// with their reasons, sorted into those worth reporting and those
    /// expected. No member is lost: each is wrapped or listed.
    pub fn generate(&self) -> (r: GeneratedCode)
        ensures
            r@ == self@.generated(),
    {
        let mut code = String::new();
        let mut reported: Vec<Skipped> = Vec::new();
        let mut silent: Vec<Skipped> = Vec::new();
        let mut i: usize = 0;
        while i < self.methods.len()
            invariant
                i <= self.methods.len(),
                code@ == self@.code(i as int),
                skipped_views(reported@) == self@.skipped_as(i as int, true),
                skipped_views(silent@) == self@.skipped_as(i as int, false),
            decreases self.methods.len() - i,
        {
            match self.methods[i].code(self) {
                Ok(wrapper) => {
                    push_spaced(&mut code, wrapper.as_str());
                },
                Err(reason) => {
                    let loud = reason.is_reportable();
                    let entry = Skipped { function: self.methods[i].name.clone(), reason };
                    if loud {
                        let ghost before = reported@;
                        reported.push(entry);
                        assert(skipped_views(reported@) =~= skipped_views(before).push(entry@));
                    } else {
                        let ghost before = silent@;
                        silent.push(entry);
                        assert(skipped_views(silent@) =~= skipped_views(before).push(entry@));
                    }
                },
            }
            i += 1;
        }
        GeneratedCode { code, reported, silent }
    }

    /// The members that cannot be wrapped, in order, each with its reason.
    /// None is left out: the silent reasons are told from the others by
    /// `SkipReason::is_reportable`.
    pub fn skipped(&self) -> (r: Vec<Skipped>)
        ensures
            skipped_views(r@) == self@.skipped(self@.methods.len() as int),
    {
        let mut r: Vec<Skipped> = Vec::new();
        let mut i: usize = 0;
        while i < self.methods.len()
            invariant
                i <= self.methods.len(),
                skipped_views(r@) == self@.skipped(i as int),
            decreases self.methods.len() - i,
        {
            match self.methods[i].code(self) {
                Ok(_) => {},
                Err(reason) => {
                    let ghost before = r@;
                    let entry = Skipped { function: self.methods[i].name.clone(), reason };
                    r.push(entry);
                    assert(skipped_views(r@) =~= skipped_views(before).push(entry@));
                },
            }
            i += 1;
        }
        r
    }
}

impl Rusty for LvWidget {
    type Parent = ();

    /// The code of the widget: the wrappers of the members that can be
    /// wrapped. A member that cannot is no error of the widget.
    fn code(&self, _parent: &()) -> (r: WrapperResult<String>)
        ensures
            outcome(r) == Ok::<Seq<char>, SkipView>(self@.code(self@.methods.len() as int)),
    {
        Ok(self.wrappers())
    }
}

} // verus!
