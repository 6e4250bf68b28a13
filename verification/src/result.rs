use vstd::prelude::*;

use crate::diagnostic::{lemma_attach_keeps_form, lemma_attached_content, lemma_copy_keeps_form, Diagnostic};
use crate::level::Level;
use proc_macro2::Span;

use crate::span::{call_site, MultiSpan};

verus! {

/// The type of top-level message contained in a `DiagnosticResult`.
#[derive(Clone, Debug, PartialEq, Eq, Structural)]
pub enum DiagnosticResultKind {
    Valid,
    Warning,
    Error,
}

/// What a `DiagnosticResult` holds: a valid value, a valid value with a warning,
/// or an error.
#[derive(Debug)]
pub enum Outcome<T> {
    Valid(T),
    Warning(T, Diagnostic),
    Error(Diagnostic),
}

impl<T> Outcome<T> {
    /// The type of top-level message.
    pub open spec fn kind(self) -> DiagnosticResultKind {
        match self {
            Outcome::Valid(_) => DiagnosticResultKind::Valid,
            Outcome::Warning(_, _) => DiagnosticResultKind::Warning,
            Outcome::Error(_) => DiagnosticResultKind::Error,
        }
    }

    /// A warning's message is a warning and an error's an error, and what is
    /// attached to either is helps and notes, with nothing attached to them.
    pub open spec fn well_formed(self) -> bool {
        match self {
            Outcome::Valid(_) => true,
            Outcome::Warning(_, d) => d.well_formed_at(Level::Warning),
            Outcome::Error(d) => d.well_formed_at(Level::Error),
        }
    }

    /// `r` is `self` with a message of level `level`, text `message` and spans
    /// `spans` attached to its warning or error; a valid value alone is left as
    /// it is.
    pub open spec fn annotated(self, r: Outcome<T>, level: Level, message: Seq<char>, spans: Seq<Span>) -> bool {
        match self {
            Outcome::Valid(_) => r == self,
            Outcome::Warning(v, d) => r matches Outcome::Warning(v2, d2) && v2 == v && d.attached(d2, level, message, spans),
            Outcome::Error(d) => r matches Outcome::Error(d2) && d.attached(d2, level, message, spans),
        }
    }

    /// What `?` does with `self`.
    pub open spec fn step(self) -> Step<T> {
        match self {
            Outcome::Valid(v) => Step::Continue(v),
            Outcome::Warning(v, d) => Step::EmitAndContinue(v, d),
            Outcome::Error(d) => Step::Break(d),
        }
    }
}

/// Adding a help or a note never changes the type of top-level message, leaves
/// a valid value alone as it is, and keeps a result well formed.
pub proof fn lemma_annotation_keeps_kind<T>(o: Outcome<T>, r: Outcome<T>, level: Level, message: Seq<char>, spans: Seq<Span>)
    requires
        o.annotated(r, level, message, spans),
    ensures
        r.kind() == o.kind(),
        o is Valid ==> r == o,
        o.well_formed() && level.is_attached() ==> r.well_formed(),
{
    if o.well_formed() && level.is_attached() {
        match o {
            Outcome::Valid(_) => {},
            Outcome::Warning(_, d) => {
                let d2 = r->Warning_1;
                lemma_attach_keeps_form(d, d2, Level::Warning, level, message, spans);
            },
            Outcome::Error(d) => {
                let d2 = r->Error_0;
                lemma_attach_keeps_form(d, d2, Level::Error, level, message, spans);
            },
        }
    }
}

/// Adding a help or a note to a warning or an error keeps its value and its
/// message, and attaches exactly one message of the level asked for (a note
/// stays a note and a help a help, on a warning as on an error), with the text
/// and the spans given.
pub proof fn lemma_annotation_content<T>(o: Outcome<T>, r: Outcome<T>, level: Level, message: Seq<char>, spans: Seq<Span>)
    requires
        o.annotated(r, level, message, spans),
        !(o is Valid),
    ensures
        o is Warning ==> r is Warning && r->Warning_0 == o->Warning_0,
        o is Error ==> r is Error,
        ({
            let d = if o is Warning { o->Warning_1 } else { o->Error_0 };
            let d2 = if r is Warning { r->Warning_1 } else { r->Error_0 };
            &&& d2.level == d.level
            &&& d2.message@ == d.message@
            &&& d2.spans@ == d.spans@
            &&& d2.children@.len() == d.children@.len() + 1
            &&& d2.children@[d.children@.len() as int].level == level
            &&& d2.children@[d.children@.len() as int].message@ == message
            &&& d2.children@[d.children@.len() as int].spans@ == spans
        }),
{
    let d = if o is Warning { o->Warning_1 } else { o->Error_0 };
    let d2 = if r is Warning { r->Warning_1 } else { r->Error_0 };
    lemma_attached_content(d, d2, level, message, spans);
}

/// What being well formed means: a warning's message is a warning and an error's
/// an error, and every message attached to either is a help or a note with
/// nothing attached to it; a valid value alone is always well formed.
pub proof fn lemma_well_formed_content<T>(o: Outcome<T>)
    ensures
        o is Valid ==> o.well_formed(),
        o.well_formed() && o is Warning ==> o->Warning_1.level == Level::Warning,
        o.well_formed() && o is Error ==> o->Error_0.level == Level::Error,
        o.well_formed() && !(o is Valid) ==> ({
            let d = if o is Warning { o->Warning_1 } else { o->Error_0 };
            forall|i: int| 0 <= i < d.children@.len() ==> {
                &&& ((#[trigger] d.children@[i]).level == Level::Note || d.children@[i].level == Level::Help)
                &&& d.children@[i].children@.len() == 0
            }
        }),
{
}

/// The type of top-level message names the variant held.
pub proof fn lemma_kind_names_variant<T>(o: Outcome<T>)
    ensures
        o is Valid <==> o.kind() == DiagnosticResultKind::Valid,
        o is Warning <==> o.kind() == DiagnosticResultKind::Warning,
        o is Error <==> o.kind() == DiagnosticResultKind::Error,
{
}

/// `?` and the two ways back into a result undo each other: a valid value goes
/// on as itself, a warning's value goes on once the warning is emitted, and an
/// error that is handed on comes back as the same error.
pub proof fn lemma_step_round_trip<T>(o: Outcome<T>)
    ensures
        o.step() matches Step::Continue(v) ==> o == Outcome::Valid(v),
        o.step() matches Step::EmitAndContinue(v, d) ==> o == Outcome::Warning(v, d),
        o.step() matches Step::Break(d) ==> o == Outcome::<T>::Error(d),
        o is Valid <==> o.step() is Continue,
        o is Warning <==> o.step() is EmitAndContinue,
        o is Error <==> o.step() is Break,
{
}

/// What `?` does with a `DiagnosticResult`: go on with the value; emit the warning
/// and go on with the value; or stop and hand the error on, without emitting it
/// (it is emitted once, at the final conversion).
#[derive(Debug)]
pub enum Step<T> {
    Continue(T),
    EmitAndContinue(T, Diagnostic),
    Break(Diagnostic),
}

/// Result-like type which can represent a valid return value, an error or a
/// warning accompanying a valid return value. Warnings are emitted upon `?`,
/// letting the code continue with the valid value. Errors short-circuit upon
/// `?` and are emitted upon final conversion.
#[derive(Debug)]
#[must_use]
pub struct DiagnosticResult<T> {
    inner: Outcome<T>,
}

impl<T> DiagnosticResult<T> {
    /// Every result is well formed: no public way makes one that is not.
    #[verifier::type_invariant]
    spec fn inv(self) -> bool {
        self.inner.well_formed()
    }
}

impl<T> View for DiagnosticResult<T> {
    type V = Outcome<T>;

    closed spec fn view(&self) -> Outcome<T> {
        self.inner
    }
}

/// Create a result holding a valid value alone.
pub fn ok<T>(val: T) -> (r: DiagnosticResult<T>)
    ensures
        r@ == Outcome::Valid(val),
{
    DiagnosticResult { inner: Outcome::Valid(val) }
}

/// Create a result holding an `Error` message that spans the macro call site.
pub fn error<T>(message: String) -> (r: DiagnosticResult<T>)
    ensures
        r@ is Error,
        r@.well_formed(),
        r@ matches Outcome::Error(d) && d.message == message && d.spans@.len() == 1 && d.is_leaf(),
{
    let d = Diagnostic::new(Level::Error, call_site(), message);
    DiagnosticResult { inner: Outcome::Error(d) }
}

/// Create a result holding _both_ a `Warning` message at one or more spans _and_
/// a valid value.
pub fn warn_spanned<T, SPN: MultiSpan>(value: T, span: SPN, message: String) -> (r: DiagnosticResult<T>)
    ensures
        r@.well_formed(),
        r@ matches Outcome::Warning(v, d) && v == value && d.message == message
            && d.spans@ == span.span_seq() && d.is_leaf(),
{
    let d = Diagnostic::new(Level::Warning, span, message);
    DiagnosticResult { inner: Outcome::Warning(value, d) }
}

impl<T> DiagnosticResult<T> {
    /// Add a `Help` message at one or more spans to a warning or an error; a
    /// valid value alone is returned unchanged.
    pub fn add_help<SPN: MultiSpan>(self, span: SPN, message: String) -> (r: Self)
        ensures
            self@.annotated(r@, Level::Help, message@, span.span_seq()),
            r@.well_formed(),
    {
        self.add_child(Level::Help, span, message)
    }

    /// Add a `Note` at one or more spans to a warning or an error; a valid value
    /// alone is returned unchanged.
    pub fn add_note<SPN: MultiSpan>(self, span: SPN, message: String) -> (r: Self)
        ensures
            self@.annotated(r@, Level::Note, message@, span.span_seq()),
            r@.well_formed(),
    {
        self.add_child(Level::Note, span, message)
    }

    fn add_child<SPN: MultiSpan>(self, level: Level, span: SPN, message: String) -> (r: Self)
        requires
            level.is_attached(),
        ensures
            self@.annotated(r@, level, message@, span.span_seq()),
            r@.well_formed(),
    {
        proof {
            use_type_invariant(&self);
        }
        let ghost before = self@;
        match self.inner {
            Outcome::Valid(v) => DiagnosticResult { inner: Outcome::Valid(v) },
            Outcome::Warning(v, d) => {
                let mut d = d;
                let ghost d0 = d;
                d.add_child(level, span, message);
                proof {
                    lemma_attach_keeps_form(d0, d, Level::Warning, level, message@, span.span_seq());
                }
                DiagnosticResult { inner: Outcome::Warning(v, d) }
            },
            Outcome::Error(d) => {
                let mut d = d;
                let ghost d0 = d;
                d.add_child(level, span, message);
                proof {
                    lemma_attach_keeps_form(d0, d, Level::Error, level, message@, span.span_seq());
                }
                DiagnosticResult { inner: Outcome::Error(d) }
            },
        }
    }

    /// Whether this holds a valid value alone.
    pub fn is_ok(&self) -> (r: bool)
        ensures
            r == (self@.kind() == DiagnosticResultKind::Valid),
    {
        matches!(self.kind(), DiagnosticResultKind::Valid)
    }

    /// Whether this holds a valid value with a warning.
    pub fn is_warning(&self) -> (r: bool)
        ensures
            r == (self@.kind() == DiagnosticResultKind::Warning),
    {
        matches!(self.kind(), DiagnosticResultKind::Warning)
    }

    /// Whether this holds an error.
    pub fn is_error(&self) -> (r: bool)
        ensures
            r == (self@.kind() == DiagnosticResultKind::Error),
    {
        matches!(self.kind(), DiagnosticResultKind::Error)
    }

    /// The type of top-level message.
    pub fn kind(&self) -> (r: DiagnosticResultKind)
        ensures
            r == self@.kind(),
    {
        match self.inner {
            Outcome::Valid(_) => DiagnosticResultKind::Valid,
            Outcome::Warning(_, _) => DiagnosticResultKind::Warning,
            Outcome::Error(_) => DiagnosticResultKind::Error,
        }
    }

    /// The valid value of a result that holds nothing else.
    pub fn unwrap(self) -> (r: T)
        requires
            self@ is Valid,
        ensures
            self@ == Outcome::Valid(r),
    {
        match self.inner {
            Outcome::Valid(t) => t,
            Outcome::Warning(_, _) => vstd::pervasive::unreached(),
            Outcome::Error(_) => vstd::pervasive::unreached(),
        }
    }

    /// What `?` does with this result.
    pub fn branch(self) -> (r: Step<T>)
        ensures
            r == self@.step(),
            self@.well_formed(),
    {
        proof {
            use_type_invariant(&self);
        }
        match self.inner {
            Outcome::Valid(t) => Step::Continue(t),
            Outcome::Warning(t, d) => Step::EmitAndContinue(t, d),
            Outcome::Error(d) => Step::Break(d),
        }
    }

    /// The result that `?` makes of a valid value.
    pub fn from_output(output: T) -> (r: Self)
        ensures
            r@ == Outcome::Valid(output),
    {
        DiagnosticResult { inner: Outcome::Valid(output) }
    }

    /// The result that `?` makes of an error handed on from another result.
    pub fn from_residual(residual: Diagnostic) -> (r: Self)
        requires
            residual.well_formed_at(Level::Error),
        ensures
            r@ == Outcome::<T>::Error(residual),
    {
        DiagnosticResult { inner: Outcome::Error(residual) }
    }

    /// What the final conversion makes of this result: the valid value, if there
    /// is one, and the message to emit, if there is one.
    pub fn into_parts(self) -> (r: (Option<T>, Option<Diagnostic>))
        ensures
            self@.well_formed(),
            match self@ {
                Outcome::Valid(v) => r == (Some(v), None::<Diagnostic>),
                Outcome::Warning(v, d) => r == (Some(v), Some(d)),
                Outcome::Error(d) => r == (None::<T>, Some(d)),
            },
    {
        proof {
            use_type_invariant(&self);
        }
        match self.inner {
            Outcome::Valid(t) => (Some(t), None),
            Outcome::Warning(t, d) => (Some(t), Some(d)),
            Outcome::Error(d) => (None, Some(d)),
        }
    }
}

impl<T: Clone> Clone for DiagnosticResult<T> {
    fn clone(&self) -> (r: Self)
        ensures
            match (self@, r@) {
                (Outcome::Valid(v), Outcome::Valid(v2)) => cloned(v, v2),
                (Outcome::Warning(v, d), Outcome::Warning(v2, d2)) => cloned(v, v2) && d2.copy_of(d),
                (Outcome::Error(d), Outcome::Error(d2)) => d2.copy_of(d),
                _ => false,
            },
            r@.well_formed(),
    {
        proof {
            use_type_invariant(self);
        }
        match &self.inner {
            Outcome::Valid(v) => DiagnosticResult { inner: Outcome::Valid(v.clone()) },
            Outcome::Warning(v, d) => {
                let c = d.clone();
                proof {
                    lemma_copy_keeps_form(*d, c, Level::Warning);
                }
                DiagnosticResult { inner: Outcome::Warning(v.clone(), c) }
            },
            Outcome::Error(d) => {
                let c = d.clone();
                proof {
                    lemma_copy_keeps_form(*d, c, Level::Error);
                }
                DiagnosticResult { inner: Outcome::Error(c) }
            },
        }
    }
}

} // verus!
