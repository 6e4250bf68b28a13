use vstd::prelude::*;
use vstd::string::*;

use proc_macro2::Span;

use crate::level::Level;
use crate::span::{MultiSpan, SpanLocation, SpanLocationView};

verus! {

/// A message for the compiler, with the spans it points at and the helps and
/// notes attached to it: one for one with the structure of the compiler's own
/// diagnostics.
#[derive(Debug)]
pub struct Diagnostic {
    pub level: Level,
    pub message: String,
    pub spans: Vec<Span>,
    pub children: Vec<Diagnostic>,
}

/// The text of the note that points a message back at the macro invocation.
pub open spec fn origin_message(level: Level) -> Seq<char> {
    "this "@ + level.name() + " originates from the macro invocation here"@
}

/// The spans of the diagnostics in `ds` and of all that is attached to them, in
/// order: each diagnostic's own spans first, then those of what is attached to it.
pub open spec fn tree_of(ds: Seq<Diagnostic>) -> Seq<Span>
    decreases ds,
{
    if ds.len() == 0 {
        Seq::empty()
    } else {
        tree_of(ds.drop_last()) + ds.last().span_tree()
    }
}

/// Each of `a` is a copy of the diagnostic at the same place in `b`.
pub open spec fn all_copies(a: Seq<Diagnostic>, b: Seq<Diagnostic>) -> bool
    decreases a,
{
    &&& a.len() == b.len()
    &&& a.len() > 0 ==> a.last().copy_of(b.last()) && all_copies(a.drop_last(), b.drop_last())
}

/// The locations, as plain values.
pub open spec fn locations_view(locations: Seq<SpanLocation>) -> Seq<SpanLocationView> {
    locations.map_values(|l: SpanLocation| l@)
}

/// Whether one of `locations` is `loc`.
pub open spec fn lies_at(locations: Seq<SpanLocationView>, loc: SpanLocationView) -> bool {
    exists|i: int| 0 <= i < locations.len() && locations[i] == loc
}

/// The locations of a message's spans once the call-site note has been
/// considered: unchanged where one of them already is the call site's location,
/// and else with the call site's location at the end, for the note's span.
pub open spec fn noted_locations(locations: Seq<SpanLocationView>, call_site_location: SpanLocationView) -> Seq<SpanLocationView> {
    if lies_at(locations, call_site_location) {
        locations
    } else {
        locations.push(call_site_location)
    }
}

/// Whether one of `locations` is `loc`.
pub fn any_at(locations: &Vec<SpanLocation>, loc: &SpanLocation) -> (r: bool)
    ensures
        r == lies_at(locations_view(locations@), loc@),
{
    let n = locations.len();
    for i in 0..n
        invariant
            n == locations@.len(),
            forall|j: int| 0 <= j < i ==> (#[trigger] locations@[j])@ != loc@,
    {
        if locations[i].same_as(loc) {
            assert(locations_view(locations@)[i as int] == loc@);
            return true;
        }
    }
    assert forall|j: int| 0 <= j < locations_view(locations@).len() implies locations_view(locations@)[j] != loc@ by {
        assert(locations_view(locations@)[j] == locations@[j]@);
    }
    false
}

/// A copy of a message is a copy of itself.
pub proof fn lemma_copy_reflexive(d: Diagnostic)
    ensures
        d.copy_of(d),
    decreases d,
{
    lemma_all_copies_reflexive(d.children@);
}

/// Each diagnostic of a sequence is a copy of itself.
pub proof fn lemma_all_copies_reflexive(ds: Seq<Diagnostic>)
    ensures
        all_copies(ds, ds),
    decreases ds,
{
    if ds.len() > 0 {
        lemma_copy_reflexive(ds.last());
        lemma_all_copies_reflexive(ds.drop_last());
    }
}

/// `all_copies` holds exactly when the two sequences have one length and each
/// diagnostic is a copy of its counterpart.
pub proof fn lemma_all_copies(a: Seq<Diagnostic>, b: Seq<Diagnostic>)
    ensures
        all_copies(a, b) <==> (a.len() == b.len() && forall|i: int| 0 <= i < a.len() ==> (#[trigger] a[i]).copy_of(b[i])),
    decreases a.len(),
{
    if a.len() > 0 && a.len() == b.len() {
        lemma_all_copies(a.drop_last(), b.drop_last());
        if all_copies(a, b) {
            assert forall|i: int| 0 <= i < a.len() implies (#[trigger] a[i]).copy_of(b[i]) by {
                if i < a.len() - 1 {
                    assert(a.drop_last()[i] == a[i]);
                    assert(b.drop_last()[i] == b[i]);
                }
            }
        }
        if forall|i: int| 0 <= i < a.len() ==> (#[trigger] a[i]).copy_of(b[i]) {
            assert(a.last().copy_of(b.last()));
            assert forall|i: int| 0 <= i < a.drop_last().len() implies (#[trigger] a.drop_last()[i]).copy_of(b.drop_last()[i]) by {
                assert(a.drop_last()[i] == a[i]);
                assert(b.drop_last()[i] == b[i]);
            }
        }
    }
}

/// Attaching the same message to two copies of a message gives two copies: so
/// `add_help` and `add_note` do exactly what `add_child` does with a help or a
/// note, and nothing else.
pub proof fn lemma_attach_deterministic(
    d1: Diagnostic,
    d2: Diagnostic,
    r1: Diagnostic,
    r2: Diagnostic,
    level: Level,
    message: Seq<char>,
    spans: Seq<Span>,
)
    requires
        d1.copy_of(d2),
        d1.attached(r1, level, message, spans),
        d2.attached(r2, level, message, spans),
    ensures
        r1.copy_of(r2),
{
    let c1 = r1.children@.last();
    let c2 = r2.children@.last();
    assert(c1.children@ =~= Seq::<Diagnostic>::empty());
    assert(c2.children@ =~= Seq::<Diagnostic>::empty());
    assert(all_copies(c1.children@, c2.children@));
    assert(c1.copy_of(c2));
    assert(all_copies(r1.children@, r2.children@));
}

/// Once a message has gone through `with_origin_note`, its spans, read in order,
/// are the old ones with the call site added where the note was attached; and, if
/// `locations` are where the old spans lie, one of the new ones lies exactly at
/// the call site: the compiler always shows where the message came from.
pub proof fn lemma_origin_note_anchors(
    d: Diagnostic,
    r: Diagnostic,
    locations: Seq<SpanLocationView>,
    call_site: Span,
    call_site_location: SpanLocationView,
)
    requires
        d.origin_noted(r, locations, call_site, call_site_location),
    ensures
        lies_at(noted_locations(locations, call_site_location), call_site_location),
        lies_at(locations, call_site_location) ==> r.span_tree() == d.span_tree(),
        !lies_at(locations, call_site_location) ==> r.span_tree() == d.span_tree().push(call_site),
{
    let nl = noted_locations(locations, call_site_location);
    if !lies_at(locations, call_site_location) {
        assert(nl[locations.len() as int] == call_site_location);
        let note = r.children@.last();
        assert(tree_of(note.children@) =~= Seq::<Span>::empty());
        assert(note.span_tree() =~= seq![call_site]);
        assert(r.children@.drop_last() == d.children@);
        assert(tree_of(r.children@) == tree_of(d.children@) + note.span_tree());
        assert(r.span_tree() =~= d.span_tree().push(call_site));
    }
}

/// Considering the call-site note a second time, with the locations of the noted
/// message, changes nothing.
pub proof fn lemma_origin_note_idempotent(
    d: Diagnostic,
    r: Diagnostic,
    r2: Diagnostic,
    locations: Seq<SpanLocationView>,
    call_site: Span,
    call_site_location: SpanLocationView,
)
    requires
        d.origin_noted(r, locations, call_site, call_site_location),
        r.origin_noted(r2, noted_locations(locations, call_site_location), call_site, call_site_location),
    ensures
        r2 == r,
{
    lemma_origin_note_anchors(d, r, locations, call_site, call_site_location);
}

/// The call-site note keeps a message's form: an error or a warning stays one,
/// and what is attached to it stays helps and notes with nothing attached.
pub proof fn lemma_origin_note_keeps_form(
    d: Diagnostic,
    r: Diagnostic,
    locations: Seq<SpanLocationView>,
    call_site: Span,
    call_site_location: SpanLocationView,
    level: Level,
)
    requires
        d.origin_noted(r, locations, call_site, call_site_location),
        d.well_formed_at(level),
    ensures
        r.well_formed_at(level),
{
    if !lies_at(locations, call_site_location) {
        assert forall|i: int| 0 <= i < r.children@.len() implies {
            &&& (#[trigger] r.children@[i]).level.is_attached()
            &&& r.children@[i].is_leaf()
        } by {
            if i < d.children@.len() {
                assert(r.children@[i] == r.children@.drop_last()[i]);
            }
        }
    }
}

/// Attaching a help or a note keeps a message's form.
pub proof fn lemma_attach_keeps_form(d: Diagnostic, r: Diagnostic, level: Level, child: Level, message: Seq<char>, spans: Seq<Span>)
    requires
        d.attached(r, child, message, spans),
        d.well_formed_at(level),
        child.is_attached(),
    ensures
        r.well_formed_at(level),
{
    assert forall|i: int| 0 <= i < r.children@.len() implies {
        &&& (#[trigger] r.children@[i]).level.is_attached()
        &&& r.children@[i].is_leaf()
    } by {
        if i < d.children@.len() {
            assert(r.children@[i] == r.children@.drop_last()[i]);
        }
    }
}

/// A copy of a well-formed message is well formed.
pub proof fn lemma_copy_keeps_form(d: Diagnostic, r: Diagnostic, level: Level)
    requires
        r.copy_of(d),
        d.well_formed_at(level),
    ensures
        r.well_formed_at(level),
{
    lemma_all_copies(r.children@, d.children@);
    assert forall|i: int| 0 <= i < r.children@.len() implies {
        &&& (#[trigger] r.children@[i]).level.is_attached()
        &&& r.children@[i].is_leaf()
    } by {
        assert(r.children@[i].copy_of(d.children@[i]));
        assert(d.children@[i].is_leaf());
        assert(all_copies(r.children@[i].children@, d.children@[i].children@));
    }
}

impl Diagnostic {
    /// The spans of this message and of all attached to it, in order: its own
    /// spans first, then those of each attached message in turn.
    pub open spec fn span_tree(self) -> Seq<Span>
        decreases self,
    {
        self.spans@ + tree_of(self.children@)
    }

    /// `self` is a copy of `other`: the same level, text and spans, with copies
    /// of the same messages attached.
    pub open spec fn copy_of(self, other: Diagnostic) -> bool
        decreases self,
    {
        &&& self.level == other.level
        &&& self.message@ == other.message@
        &&& self.spans@ == other.spans@
        &&& all_copies(self.children@, other.children@)
    }

    /// A message with nothing attached to it.
    pub open spec fn is_leaf(self) -> bool {
        self.children@.len() == 0
    }

    /// A top-level message of level `level`, an error or a warning, whose attached
    /// messages are helps and notes with nothing attached to them in turn.
    pub open spec fn well_formed_at(self, level: Level) -> bool {
        &&& self.level == level
        &&& level.is_top_level()
        &&& forall|i: int|
            0 <= i < self.children@.len() ==> {
                &&& (#[trigger] self.children@[i]).level.is_attached()
                &&& self.children@[i].is_leaf()
            }
    }

    /// `r` is `self` with one more message attached at the end, of level `level`,
    /// with text `message`, pointing at `spans`.
    pub open spec fn attached(self, r: Diagnostic, level: Level, message: Seq<char>, spans: Seq<Span>) -> bool {
        &&& r.level == self.level
        &&& r.message == self.message
        &&& r.spans == self.spans
        &&& r.children@.len() == self.children@.len() + 1
        &&& r.children@.drop_last() == self.children@
        &&& r.children@.last().level == level
        &&& r.children@.last().message@ == message
        &&& r.children@.last().spans@ == spans
        &&& r.children@.last().is_leaf()
    }

    /// The note that points a message of level `level` back at the macro
    /// invocation, whose span is `call_site`.
    pub open spec fn is_origin_note_for(note: Diagnostic, level: Level, call_site: Span) -> bool {
        &&& note.level == Level::Note
        &&& note.message@ == origin_message(level)
        &&& note.spans@ == seq![call_site]
        &&& note.is_leaf()
    }

    /// `r` is `self` as it goes to the compiler, where `locations` are where the
    /// spans of `self` lie (in the order of `span_tree`) and the macro invocation
    /// has span `call_site` at `call_site_location`: unchanged where `self` or an
    /// attached message already lies exactly at the call site, and else with a
    /// note at the call site attached at the end.
    pub open spec fn origin_noted(
        self,
        r: Diagnostic,
        locations: Seq<SpanLocationView>,
        call_site: Span,
        call_site_location: SpanLocationView,
    ) -> bool {
        if lies_at(locations, call_site_location) {
            r == self
        } else {
            &&& r.level == self.level
            &&& r.message == self.message
            &&& r.spans == self.spans
            &&& r.children@.len() == self.children@.len() + 1
            &&& r.children@.drop_last() == self.children@
            &&& Self::is_origin_note_for(r.children@.last(), self.level, call_site)
        }
    }

    /// A copy of this message and of all that is attached to it.
    pub fn duplicate(&self) -> (r: Diagnostic)
        ensures
            r.copy_of(*self),
        decreases self,
    {
        let mut spans: Vec<Span> = Vec::new();
        let n = self.spans.len();
        for i in 0..n
            invariant
                n == self.spans@.len(),
                spans@ == self.spans@.subrange(0, i as int),
        {
            spans.push(self.spans[i]);
        }
        let mut children: Vec<Diagnostic> = Vec::new();
        let m = self.children.len();
        for i in 0..m
            invariant
                m == self.children@.len(),
                children@.len() == i,
                forall|j: int| 0 <= j < i ==> (#[trigger] children@[j]).copy_of(self.children@[j]),
        {
            assert(decreases_to!(self => self.children));
            children.push(self.children[i].duplicate());
        }
        proof {
            lemma_all_copies(children@, self.children@);
        }
        assert(spans@ =~= self.spans@);
        Diagnostic { level: self.level, message: self.message.clone(), spans, children }
    }

    /// A message of level `level` with text `message` at the spans `span`, with
    /// nothing attached to it.
    pub fn new<SPN: MultiSpan>(level: Level, span: SPN, message: String) -> (r: Self)
        ensures
            r.level == level,
            r.message == message,
            r.spans@ == span.span_seq(),
            r.is_leaf(),
    {
        let spans = span.into_spans();
        Diagnostic { level, message, spans, children: Vec::new() }
    }

    /// Attach a message of level `level` with text `message` at the spans `span`.
    pub fn add_child<SPN: MultiSpan>(&mut self, level: Level, span: SPN, message: String)
        ensures
            old(self).attached(*final(self), level, message@, span.span_seq()),
    {
        let child = Diagnostic::new(level, span, message);
        self.children.push(child);
        assert(self.children@.drop_last() =~= old(self).children@);
    }

    /// Attach a help message at the spans `span`.
    pub fn add_help<SPN: MultiSpan>(&mut self, span: SPN, message: String)
        ensures
            old(self).attached(*final(self), Level::Help, message@, span.span_seq()),
    {
        self.add_child(Level::Help, span, message);
    }

    /// Attach a note at the spans `span`.
    pub fn add_note<SPN: MultiSpan>(&mut self, span: SPN, message: String)
        ensures
            old(self).attached(*final(self), Level::Note, message@, span.span_seq()),
    {
        self.add_child(Level::Note, span, message);
    }

    /// The spans of this message and of all attached to it, in the order of
    /// `span_tree`: the spans whose locations decide whether the message already
    /// shows the call site.
    pub fn all_spans(&self) -> (r: Vec<Span>)
        ensures
            r@ == self.span_tree(),
        decreases self,
    {
        let mut r: Vec<Span> = Vec::new();
        let n = self.spans.len();
        for i in 0..n
            invariant
                n == self.spans@.len(),
                r@ == self.spans@.subrange(0, i as int),
        {
            r.push(self.spans[i]);
        }
        assert(r@ =~= self.spans@);
        let m = self.children.len();
        for i in 0..m
            invariant
                m == self.children@.len(),
                r@ == self.spans@ + tree_of(self.children@.take(i as int)),
        {
            assert(decreases_to!(self => self.children));
            let mut more = self.children[i].all_spans();
            r.append(&mut more);
            assert(self.children@.take(i + 1).drop_last() =~= self.children@.take(i as int));
            assert(r@ =~= self.spans@ + tree_of(self.children@.take(i + 1)));
        }
        assert(self.children@.take(m as int) =~= self.children@);
        r
    }

    /// The text of the note that points a message of level `level` back at the
    /// macro invocation.
    pub fn origin_message(level: Level) -> (s: String)
        ensures
            s@ == origin_message(level),
    {
        let mut s = String::from_str("this ");
        s.append(level.as_str());
        s.append(" originates from the macro invocation here");
        s
    }

    /// `self` as it goes to the compiler, given where its spans lie (`locations`,
    /// in the order of `all_spans`) and the span `call_site` of the macro
    /// invocation with its location: a note at `call_site` is attached unless one
    /// of the spans already lies exactly there.
    pub fn with_origin_note(self, locations: &Vec<SpanLocation>, call_site: Span, call_site_location: &SpanLocation) -> (r: Diagnostic)
        ensures
            self.origin_noted(r, locations_view(locations@), call_site, call_site_location@),
    {
        if any_at(locations, call_site_location) {
            self
        } else {
            let mut r = self;
            let message = Self::origin_message(r.level);
            let mut spans: Vec<Span> = Vec::new();
            spans.push(call_site);
            let note = Diagnostic { level: Level::Note, message, spans, children: Vec::new() };
            r.children.push(note);
            assert(r.children@.drop_last() =~= self.children@);
            assert(r.children@.last().spans@ =~= seq![call_site]);
            r
        }
    }
}

/// A call site found at any position among the locations counts: whichever of
/// the message's spans lies there, first, last or in between, `lies_at` holds;
/// and it holds only when one of them does.
pub proof fn lemma_lies_at_any_position(locations: Seq<SpanLocationView>, loc: SpanLocationView, i: int)
    ensures
        0 <= i < locations.len() && locations[i] == loc ==> lies_at(locations, loc),
        lies_at(locations, loc) ==> exists|j: int| 0 <= j < locations.len() && locations[j] == loc,
        lies_at(seq![loc] + locations, loc),
        lies_at(locations.push(loc), loc),
        !lies_at(Seq::<SpanLocationView>::empty(), loc),
{
    assert((seq![loc] + locations)[0] == loc);
    assert(locations.push(loc)[locations.len() as int] == loc);
}

/// The call-site note is left out exactly when one of the message's spans, at
/// any position in the message or in what is attached to it, lies at the call
/// site: then the message goes to the compiler as it is.
pub proof fn lemma_origin_note_omitted(
    d: Diagnostic,
    r: Diagnostic,
    locations: Seq<SpanLocationView>,
    call_site: Span,
    call_site_location: SpanLocationView,
    i: int,
)
    requires
        d.origin_noted(r, locations, call_site, call_site_location),
        0 <= i < locations.len(),
        locations[i] == call_site_location,
    ensures
        r == d,
{
}

/// When none of the message's spans lies at the call site, the message keeps its
/// level, its own text and its spans, keeps everything attached to it in order,
/// and gains exactly one attached note at the end: a note at the call site, with
/// nothing attached, saying where the message comes from.
pub proof fn lemma_origin_note_added(
    d: Diagnostic,
    r: Diagnostic,
    locations: Seq<SpanLocationView>,
    call_site: Span,
    call_site_location: SpanLocationView,
)
    requires
        d.origin_noted(r, locations, call_site, call_site_location),
        forall|i: int| 0 <= i < locations.len() ==> locations[i] != call_site_location,
    ensures
        r.level == d.level,
        r.message@ == d.message@,
        r.spans@ == d.spans@,
        r.children@.len() == d.children@.len() + 1,
        forall|i: int| 0 <= i < d.children@.len() ==> r.children@[i] == d.children@[i],
        r.children@[d.children@.len() as int].level == Level::Note,
        r.children@[d.children@.len() as int].message@
            == "this "@ + d.level.name() + " originates from the macro invocation here"@,
        r.children@[d.children@.len() as int].spans@ == seq![call_site],
        r.children@[d.children@.len() as int].children@.len() == 0,
{
    assert forall|i: int| 0 <= i < d.children@.len() implies r.children@[i] == d.children@[i] by {
        assert(r.children@.drop_last()[i] == r.children@[i]);
    }
}

/// Whether or not the note is added, the message keeps its level, its own text
/// and its spans, and the attached messages it had come first, unchanged.
pub proof fn lemma_origin_note_keeps_message(
    d: Diagnostic,
    r: Diagnostic,
    locations: Seq<SpanLocationView>,
    call_site: Span,
    call_site_location: SpanLocationView,
)
    requires
        d.origin_noted(r, locations, call_site, call_site_location),
    ensures
        r.level == d.level,
        r.message@ == d.message@,
        r.spans@ == d.spans@,
        d.children@.len() <= r.children@.len() <= d.children@.len() + 1,
        forall|i: int| 0 <= i < d.children@.len() ==> r.children@[i] == d.children@[i],
{
    if !lies_at(locations, call_site_location) {
        assert forall|i: int| 0 <= i < d.children@.len() implies r.children@[i] == d.children@[i] by {
            assert(r.children@.drop_last()[i] == r.children@[i]);
        }
    }
}

/// A copy has the level, the text and the spans of its original, and as many
/// attached messages, each a copy of the one at the same place: so every
/// attached message keeps its level, its text and its spans too.
pub proof fn lemma_copy_content(a: Diagnostic, b: Diagnostic)
    requires
        a.copy_of(b),
    ensures
        a.level == b.level,
        a.message@ == b.message@,
        a.spans@ == b.spans@,
        a.children@.len() == b.children@.len(),
        forall|i: int| 0 <= i < a.children@.len() ==> (#[trigger] a.children@[i]).copy_of(b.children@[i]),
        forall|i: int| 0 <= i < a.children@.len() ==> {
            &&& (#[trigger] a.children@[i]).level == b.children@[i].level
            &&& a.children@[i].message@ == b.children@[i].message@
            &&& a.children@[i].spans@ == b.children@[i].spans@
            &&& a.children@[i].children@.len() == b.children@[i].children@.len()
        },
        a.span_tree() == b.span_tree(),
    decreases a,
{
    lemma_all_copies(a.children@, b.children@);
    assert forall|i: int| 0 <= i < a.children@.len() implies {
        &&& (#[trigger] a.children@[i]).level == b.children@[i].level
        &&& a.children@[i].message@ == b.children@[i].message@
        &&& a.children@[i].spans@ == b.children@[i].spans@
        &&& a.children@[i].children@.len() == b.children@[i].children@.len()
    } by {
        assert(a.children@[i].copy_of(b.children@[i]));
        lemma_all_copies(a.children@[i].children@, b.children@[i].children@);
    }
    lemma_copies_same_tree(a.children@, b.children@);
}

/// Copies point at the same spans, in the same order.
pub proof fn lemma_copies_same_tree(a: Seq<Diagnostic>, b: Seq<Diagnostic>)
    requires
        all_copies(a, b),
    ensures
        tree_of(a) == tree_of(b),
    decreases a,
{
    if a.len() > 0 {
        lemma_copies_same_tree(a.drop_last(), b.drop_last());
        lemma_copy_content(a.last(), b.last());
    }
}

/// Attaching a message keeps the parent as it was (level, text, spans, and the
/// attached messages it had, in order) and adds one message at the end with
/// exactly the level, the text and the spans asked for, whatever the parent's
/// level; the spans of the whole are the old ones followed by the new ones.
pub proof fn lemma_attached_content(d: Diagnostic, r: Diagnostic, level: Level, message: Seq<char>, spans: Seq<Span>)
    requires
        d.attached(r, level, message, spans),
    ensures
        r.level == d.level,
        r.message@ == d.message@,
        r.spans@ == d.spans@,
        r.children@.len() == d.children@.len() + 1,
        forall|i: int| 0 <= i < d.children@.len() ==> r.children@[i] == d.children@[i],
        r.children@[d.children@.len() as int].level == level,
        r.children@[d.children@.len() as int].message@ == message,
        r.children@[d.children@.len() as int].spans@ == spans,
        r.children@[d.children@.len() as int].children@.len() == 0,
        r.span_tree() == d.span_tree() + spans,
{
    assert forall|i: int| 0 <= i < d.children@.len() implies r.children@[i] == d.children@[i] by {
        assert(r.children@.drop_last()[i] == r.children@[i]);
    }
    let c = r.children@.last();
    assert(tree_of(c.children@) =~= Seq::<Span>::empty());
    assert(c.span_tree() =~= spans);
    assert(r.span_tree() =~= d.span_tree() + spans);
}

/// A message with nothing attached points at its own spans alone.
pub proof fn lemma_leaf_span_tree(d: Diagnostic)
    requires
        d.children@.len() == 0,
    ensures
        d.span_tree() == d.spans@,
{
    assert(d.span_tree() =~= d.spans@);
}

impl Clone for Diagnostic {
    fn clone(&self) -> (r: Self)
        ensures
            r.copy_of(*self),
    {
        self.duplicate()
    }
}

} // verus!
