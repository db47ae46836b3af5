//! The closed set of reasons for which a function is left unwrapped.
use vstd::prelude::*;
use vstd::string::*;

verus! {

/// Why a foreign function, argument or type cannot be wrapped. Each reason
/// carries the name or the type descriptor of what was refused.
#[derive(Debug)]
pub enum SkipReason {
    /// The return type is an array (a pointer to a pointer).
    ReturnArray(String),
    /// An argument is an array (a pointer to a pointer).
    ArrayArgument(String),
    /// An argument is an untyped data pointer.
    VoidPtrArgument(String),
    /// The group is implemented by hand.
    CustomStruct(String),
    /// The function is the constructor of its group.
    Constructor(String),
    /// The function is on the deny-list.
    Blacklisted(String),
}

/// `SkipReason` with its text as characters.
pub ghost enum SkipView {
    ReturnArray(Seq<char>),
    ArrayArgument(Seq<char>),
    VoidPtrArgument(Seq<char>),
    CustomStruct(Seq<char>),
    Constructor(Seq<char>),
    Blacklisted(Seq<char>),
}

/// What emission gives: the code, or the reason for none.
pub type WrapperResult<T> = Result<T, SkipReason>;

impl View for SkipReason {
    type V = SkipView;

    open spec fn view(&self) -> SkipView {
        match self {
            SkipReason::ReturnArray(s) => SkipView::ReturnArray(s@),
            SkipReason::ArrayArgument(s) => SkipView::ArrayArgument(s@),
            SkipReason::VoidPtrArgument(s) => SkipView::VoidPtrArgument(s@),
            SkipReason::CustomStruct(s) => SkipView::CustomStruct(s@),
            SkipReason::Constructor(s) => SkipView::Constructor(s@),
            SkipReason::Blacklisted(s) => SkipView::Blacklisted(s@),
        }
    }
}

impl SkipView {
    /// What the reason is about: a name or a type descriptor.
    pub open spec fn subject(self) -> Seq<char> {
        match self {
            SkipView::ReturnArray(s) => s,
            SkipView::ArrayArgument(s) => s,
            SkipView::VoidPtrArgument(s) => s,
            SkipView::CustomStruct(s) => s,
            SkipView::Constructor(s) => s,
            SkipView::Blacklisted(s) => s,
        }
    }

    /// The words that introduce the subject in the reason's message.
    pub open spec fn headline(self) -> Seq<char> {
        match self {
            SkipView::ReturnArray(_) => "Return value is array"@,
            SkipView::ArrayArgument(_) => "Array as argument"@,
            SkipView::VoidPtrArgument(_) => "Void pointer as argument"@,
            SkipView::CustomStruct(_) => "Already implemented"@,
            SkipView::Constructor(_) => "Constructor function"@,
            SkipView::Blacklisted(_) => "Blacklisted function"@,
        }
    }

    /// The message: the headline, then the subject in parentheses.
    pub open spec fn message(self) -> Seq<char> {
        self.headline() + " ("@ + self.subject() + ")"@
    }

    /// Reasons that show a gap in what the generator can wrap. The others
    /// are expected and stay silent.
    pub open spec fn reportable(self) -> bool {
        self is ReturnArray || self is ArrayArgument || self is VoidPtrArgument
    }
}

/// The view of an emission result: the text, or the reason for none.
pub open spec fn outcome(r: WrapperResult<String>) -> Result<Seq<char>, SkipView> {
    match r {
        Ok(text) => Ok(text@),
        Err(reason) => Err(reason@),
    }
}

impl Clone for SkipReason {
    fn clone(&self) -> (r: Self)
        ensures
            r@ == self@,
    {
        match self {
            SkipReason::ReturnArray(s) => SkipReason::ReturnArray(s.clone()),
            SkipReason::ArrayArgument(s) => SkipReason::ArrayArgument(s.clone()),
            SkipReason::VoidPtrArgument(s) => SkipReason::VoidPtrArgument(s.clone()),
            SkipReason::CustomStruct(s) => SkipReason::CustomStruct(s.clone()),
            SkipReason::Constructor(s) => SkipReason::Constructor(s.clone()),
            SkipReason::Blacklisted(s) => SkipReason::Blacklisted(s.clone()),
        }
    }
}

impl SkipReason {
    /// Whether a maintainer should be told of this reason.
    pub fn is_reportable(&self) -> (r: bool)
        ensures
            r == self@.reportable(),
    {
        match self {
            SkipReason::ReturnArray(_) => true,
            SkipReason::ArrayArgument(_) => true,
            SkipReason::VoidPtrArgument(_) => true,
            _ => false,
        }
    }

    /// The reason as a line of text.
    pub fn to_string(&self) -> (r: String)
        ensures
            r@ == self@.message(),
    {
        let (headline, subject) = match self {
            SkipReason::ReturnArray(s) => ("Return value is array", s),
            SkipReason::ArrayArgument(s) => ("Array as argument", s),
            SkipReason::VoidPtrArgument(s) => ("Void pointer as argument", s),
            SkipReason::CustomStruct(s) => ("Already implemented", s),
            SkipReason::Constructor(s) => ("Constructor function", s),
            SkipReason::Blacklisted(s) => ("Blacklisted function", s),
        };
        let mut r = String::from_str(headline);
        r.append(" (");
        r.append(subject.as_str());
        r.append(")");
        r
    }
}

} // verus!
