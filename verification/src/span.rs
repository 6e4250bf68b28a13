use vstd::prelude::*;

use proc_macro2::Span;

verus! {

/// A region of source code, from `proc_macro2`. The library keeps it opaque: it
/// carries spans through to the compiler, and compares spans only by the
/// locations that are read for them when a message is emitted.
#[verifier::external_type_specification]
#[verifier::external_body]
pub struct ExSpan(proc_macro2::Span);

/// A line and a column in a source file (lines count from 1, columns from 0).
#[derive(Debug, Clone, Copy, PartialEq, Eq, Structural)]
pub struct LineColumn {
    pub line: usize,
    pub column: usize,
}

/// Where a span lies: the path on disk of its file, if there is one, given as the
/// platform-encoded bytes of each of its components, and the span's two ends.
#[derive(Debug, Clone)]
pub struct SpanLocation {
    pub file: Option<Vec<Vec<u8>>>,
    pub start: LineColumn,
    pub end: LineColumn,
}

/// What a location is, as plain values.
pub struct SpanLocationView {
    pub file: Option<Seq<Seq<u8>>>,
    pub start: LineColumn,
    pub end: LineColumn,
}

/// The components of a path, each as a byte string.
pub open spec fn components_view(c: Vec<Vec<u8>>) -> Seq<Seq<u8>> {
    c@.map_values(|b: Vec<u8>| b@)
}

impl View for SpanLocation {
    type V = SpanLocationView;

    open spec fn view(&self) -> SpanLocationView {
        SpanLocationView {
            file: match self.file {
                Some(f) => Some(components_view(f)),
                None => None,
            },
            start: self.start,
            end: self.end,
        }
    }
}

/// Whether two byte strings are the same, byte for byte.
pub fn bytes_equal(a: &Vec<u8>, b: &Vec<u8>) -> (r: bool)
    ensures
        r == (a@ == b@),
{
    if a.len() != b.len() {
        return false;
    }
    let n = a.len();
    for i in 0..n
        invariant
            n == a@.len(),
            n == b@.len(),
            forall|j: int| 0 <= j < i ==> a@[j] == b@[j],
    {
        if a[i] != b[i] {
            return false;
        }
    }
    assert(a@ =~= b@);
    true
}

/// Whether two paths, given by their components, are the same path: the same
/// components in the same order.
pub fn components_equal(a: &Vec<Vec<u8>>, b: &Vec<Vec<u8>>) -> (r: bool)
    ensures
        r == (components_view(*a) == components_view(*b)),
{
    if a.len() != b.len() {
        assert(components_view(*a).len() != components_view(*b).len());
        return false;
    }
    let n = a.len();
    for i in 0..n
        invariant
            n == a@.len(),
            n == b@.len(),
            forall|j: int| 0 <= j < i ==> a@[j]@ == b@[j]@,
    {
        if !bytes_equal(&a[i], &b[i]) {
            assert(components_view(*a)[i as int] != components_view(*b)[i as int]);
            return false;
        }
    }
    assert(components_view(*a) =~= components_view(*b));
    true
}

impl SpanLocation {
    /// Two locations are the same when they lie in the same file and both their
    /// ends agree: a span that only crosses another is not the same.
    pub fn same_as(&self, other: &SpanLocation) -> (r: bool)
        ensures
            r == (self@ == other@),
    {
        let same_file = match &self.file {
            Some(a) => match &other.file {
                Some(b) => components_equal(a, b),
                None => false,
            },
            None => other.file.is_none(),
        };
        same_file && self.start == other.start && self.end == other.end
    }
}

/// `proc_macro2::Span::call_site`: the span of the macro invocation being
/// expanded. Nothing is stated of the result: it depends on which invocation the
/// compiler is expanding (outside a procedural macro, it is a fixed fallback span).
#[verifier::external_body]
pub(crate) fn call_site() -> Span {
    Span::call_site()
}

/// APIs that accept one or more spans take any `MultiSpan`: a `Span`, a
/// `Vec<Span>` or a `&[Span]`.
pub trait MultiSpan: Sized {
    /// The spans, in order.
    spec fn span_seq(&self) -> Seq<Span>;

    /// Consume `self` and convert into an owned `Vec<Span>`.
    fn into_spans(self) -> (r: Vec<Span>)
        ensures
            r@ == self.span_seq(),
    ;
}

impl MultiSpan for Span {
    open spec fn span_seq(&self) -> Seq<Span> {
        seq![*self]
    }

    fn into_spans(self) -> (r: Vec<Span>) {
        let mut r: Vec<Span> = Vec::new();
        r.push(self);
        r
    }
}

impl MultiSpan for Vec<Span> {
    open spec fn span_seq(&self) -> Seq<Span> {
        self@
    }

    fn into_spans(self) -> (r: Vec<Span>) {
        self
    }
}

impl<'a> MultiSpan for &'a [Span] {
    open spec fn span_seq(&self) -> Seq<Span> {
        self@
    }

    fn into_spans(self) -> (r: Vec<Span>) {
        let mut r: Vec<Span> = Vec::new();
        let n = self.len();
        for i in 0..n
            invariant
                n == self@.len(),
                r@ == self@.subrange(0, i as int),
        {
            r.push(self[i]);
        }
        r
    }
}

/// Two locations are the same exactly when both their ends agree and they lie in
/// the same file: both without a file, or both in files whose paths have the same
/// components, byte for byte, in the same order.
pub proof fn lemma_location_equality(a: SpanLocation, b: SpanLocation)
    ensures
        a@ == b@ <==> {
            &&& a.start == b.start
            &&& a.end == b.end
            &&& (a.file is None <==> b.file is None)
            &&& (a.file is Some && b.file is Some) ==> {
                &&& a.file->0@.len() == b.file->0@.len()
                &&& forall|i: int| 0 <= i < a.file->0@.len() ==> (#[trigger] a.file->0@[i])@ == b.file->0@[i]@
            }
        },
{
    if a.file is Some && b.file is Some {
        let fa = a.file->0;
        let fb = b.file->0;
        if fa@.len() == fb@.len() && forall|i: int| 0 <= i < fa@.len() ==> (#[trigger] fa@[i])@ == fb@[i]@ {
            assert(components_view(fa) =~= components_view(fb));
        }
        if components_view(fa) == components_view(fb) {
            assert(components_view(fa).len() == fa@.len());
            assert(components_view(fb).len() == fb@.len());
            assert forall|i: int| 0 <= i < fa@.len() implies (#[trigger] fa@[i])@ == fb@[i]@ by {
                assert(components_view(fa)[i] == fa@[i]@);
                assert(components_view(fb)[i] == fb@[i]@);
            }
        }
    }
}

/// Every way of giving spans keeps every span, in order: one span is itself
/// alone, and a `Vec` or a slice gives all of its spans, whatever its length.
pub proof fn lemma_span_seq_keeps_all(span: Span, spans: Vec<Span>, slice: &[Span])
    ensures
        span.span_seq() == seq![span],
        spans.span_seq() == spans@,
        spans.span_seq().len() == spans@.len(),
        forall|i: int| 0 <= i < spans@.len() ==> spans.span_seq()[i] == spans@[i],
        slice.span_seq() == slice@,
        slice.span_seq().len() == slice@.len(),
{
}

} // verus!
