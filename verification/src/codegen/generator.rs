//! The generator: the functions read from a source text, and the widgets
//! found among them.
use vstd::prelude::*;
use vstd::string::*;
use crate::codegen::funcs::{FuncView, LvFunc};
use crate::codegen::groups::{
    extracted,
    func_views,
    group_names,
    text_views,
    widget_names,
    widget_views,
    widgets_in,
};
use crate::codegen::source::{declared_functions, load_functions, syntax_error};
use crate::codegen::widgets::{GeneratedCode, GeneratedView, LvWidget, WidgetView};

verus! {

/// Why a source text could not be turned into a generator.
#[derive(Debug)]
pub enum CodeGenError {
    /// The text is no Rust source file. The parser's message is attached.
    Syntax(String),
}

/// What making a generator gives: the value, or the reason for none.
pub type CGResult<T> = Result<T, CodeGenError>;

impl CodeGenError {
    /// The parser's message.
    pub open spec fn message(&self) -> Seq<char> {
        match self {
            CodeGenError::Syntax(message) => message@,
        }
    }

    /// The error as a line of text.
    pub fn to_string(&self) -> (r: String)
        ensures
            r@ == self.message(),
    {
        match self {
            CodeGenError::Syntax(message) => message.clone(),
        }
    }
}

/// The names of `fs`, in order.
pub open spec fn names_of(fs: Seq<FuncView>) -> Seq<Seq<char>> {
    fs.map_values(|f: FuncView| f.name)
}

/// The functions of one source text and the widgets found among them.
pub struct CodeGen {
    functions: Vec<LvFunc>,
    widgets: Vec<LvWidget>,
}

impl CodeGen {
    /// The functions that the generator was made from.
    pub closed spec fn functions(&self) -> Seq<FuncView> {
        func_views(self.functions@)
    }

    /// The widgets that the generator holds.
    pub closed spec fn widgets(&self) -> Seq<WidgetView> {
        widget_views(self.widgets@)
    }

    /// The widgets are those found among the functions.
    #[verifier::type_invariant]
    spec fn consistent(&self) -> bool {
        widget_views(self.widgets@) == extracted(func_views(self.functions@))
    }

    /// Makes a generator from source text: reads the library's functions
    /// and groups them into widgets. Fails where the text is no Rust source
    /// file, and only there.
    pub fn from(code: &str) -> (r: CGResult<CodeGen>)
        ensures
            match r {
                Ok(generator) => declared_functions(code@) == Some(generator.functions())
                    && generator.widgets() == extracted(generator.functions()),
                Err(error) => declared_functions(code@) is None && error.message()
                    == syntax_error(code@),
            },
    {
        let functions = match CodeGen::load_func_defs(code) {
            Ok(functions) => functions,
            Err(error) => {
                return Err(error);
            },
        };
        let widgets = widgets_in(functions.as_slice());
        Ok(CodeGen { functions, widgets })
    }

    /// The widgets, each with its members.
    pub fn get_widgets(&self) -> (r: &Vec<LvWidget>)
        ensures
            widget_views(r@) == self.widgets(),
            self.widgets() == extracted(self.functions()),
    {
        proof {
            use_type_invariant(self);
        }
        &self.widgets
    }

    /// The widgets found in `functions`: for each group that `functions`
    /// make known and that has a member, the group's members. Never fails.
    pub fn extract_widgets(functions: &[LvFunc]) -> (r: CGResult<Vec<LvWidget>>)
        ensures
            r matches Ok(widgets) && widget_views(widgets@) == extracted(func_views(functions@)),
    {
        Ok(widgets_in(functions))
    }

    /// The names of the groups that `functions` make known, each once, in
    /// the order in which they first appear.
    pub fn get_widget_names(functions: &[LvFunc]) -> (r: Vec<String>)
        ensures
            text_views(r@) == group_names(func_views(functions@), functions@.len() as int),
    {
        widget_names(functions)
    }

    /// Reads the library's functions out of source text, in the order in
    /// which they are declared. Fails where the text is no Rust source
    /// file, and only there.
    pub fn load_func_defs(bindgen_code: &str) -> (r: CGResult<Vec<LvFunc>>)
        ensures
            match r {
                Ok(functions) => declared_functions(bindgen_code@) == Some(
                    func_views(functions@),
                ),
                Err(error) => declared_functions(bindgen_code@) is None && error.message()
                    == syntax_error(bindgen_code@),
            },
    {
        match load_functions(bindgen_code) {
            Ok(functions) => Ok(functions),
            Err(message) => Err(CodeGenError::Syntax(message)),
        }
    }

    /// What is generated for each widget, in the order of the widgets. A
    /// member that cannot be wrapped is listed with its reason and stops
    /// nothing: neither the rest of its widget nor any other widget.
    pub fn generate(&self) -> (r: Vec<GeneratedCode>)
        ensures
            r@.map_values(|g: GeneratedCode| g@) == self.widgets().map_values(
                |w: WidgetView| w.generated(),
            ),
    {
        let mut all: Vec<GeneratedCode> = Vec::new();
        let mut i: usize = 0;
        while i < self.widgets.len()
            invariant
                i <= self.widgets.len(),
                all.len() == i,
                forall|j: int| 0 <= j < i ==> all@[j]@ == self.widgets@[j]@.generated(),
            decreases self.widgets.len() - i,
        {
            all.push(self.widgets[i].generate());
            i += 1;
        }
        assert(all@.map_values(|g: GeneratedCode| g@) =~= self.widgets().map_values(
            |w: WidgetView| w.generated(),
        ));
        all
    }

    /// The names of the functions, in order. Never fails.
    pub fn get_function_names(&self) -> (r: CGResult<Vec<String>>)
        ensures
            r matches Ok(names) && text_views(names@) == names_of(self.functions()),
    {
        let mut names: Vec<String> = Vec::new();
        let mut i: usize = 0;
        while i < self.functions.len()
            invariant
                i <= self.functions.len(),
                names.len() == i,
                forall|j: int| 0 <= j < i ==> names@[j]@ == self.functions@[j]@.name,
            decreases self.functions.len() - i,
        {
            names.push(self.functions[i].name.clone());
            i += 1;
        }
        assert(text_views(names@) =~= names_of(self.functions()));
        Ok(names)
    }
}

} // verus!
