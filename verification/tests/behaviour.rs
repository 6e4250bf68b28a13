use proc_macro2::{Span, TokenStream, TokenTree};
use proc_macro2_diagnostic::diagnostic::any_at;
use proc_macro2_diagnostic::{
    error, ok, warn_spanned, Diagnostic, DiagnosticResult, DiagnosticResultKind, Level,
    LineColumn, MultiSpan, SpanLocation, Step,
};

/// Where a span lies, read from `proc_macro2`.
fn location(span: &Span) -> SpanLocation {
    let file = span.local_file().map(|path| {
        path.components()
            .map(|c| c.as_os_str().as_encoded_bytes().to_vec())
            .collect()
    });
    let start = span.start();
    let end = span.end();
    SpanLocation {
        file,
        start: LineColumn { line: start.line, column: start.column },
        end: LineColumn { line: end.line, column: end.column },
    }
}

/// The message as it goes to the compiler from this thread's call site.
fn noted(d: Diagnostic) -> Diagnostic {
    let locations: Vec<SpanLocation> = d.all_spans().iter().map(location).collect();
    let site = Span::call_site();
    d.with_origin_note(&locations, site, &location(&site))
}

/// Whether the message or something attached to it lies exactly at the call site.
fn shows_call_site(d: &Diagnostic) -> bool {
    let locations: Vec<SpanLocation> = d.all_spans().iter().map(location).collect();
    any_at(&locations, &location(&Span::call_site()))
}

/// Spans of the identifiers in a freshly parsed string: none of them is the call site.
fn parsed_spans(text: &str) -> Vec<Span> {
    let ts: TokenStream = text.parse().unwrap();
    ts.into_iter()
        .filter_map(|tt| match tt {
            TokenTree::Ident(ident) => Some(ident.span()),
            _ => None,
        })
        .collect()
}

fn diagnostic_of<T>(r: DiagnosticResult<T>) -> Diagnostic {
    r.into_parts().1.unwrap()
}

#[test]
fn level_names() {
    assert_eq!(Level::Error.to_string(), "error");
    assert_eq!(Level::Warning.to_string(), "warning");
    assert_eq!(Level::Note.to_string(), "note");
    assert_eq!(Level::Help.to_string(), "help");
    assert_eq!(Level::Help.as_str(), "help");
}

#[test]
fn origin_message_text() {
    assert_eq!(
        Diagnostic::origin_message(Level::Warning),
        "this warning originates from the macro invocation here"
    );
    assert_eq!(
        Diagnostic::origin_message(Level::Error),
        "this error originates from the macro invocation here"
    );
}

#[test]
fn error_spans_call_site_once() {
    let d = diagnostic_of(error::<u8>("failed".to_string()));
    assert_eq!(d.level, Level::Error);
    assert_eq!(d.message, "failed");
    assert_eq!(d.spans.len(), 1);
    assert!(d.children.is_empty());
    assert!(shows_call_site(&d));
}

#[test]
fn warning_keeps_value_and_spans() {
    let spans = parsed_spans("first second third");
    let r = warn_spanned(7u32, spans.clone(), "careful".to_string());
    assert!(r.is_warning());
    assert!(!r.is_ok());
    assert!(!r.is_error());
    match r.branch() {
        Step::EmitAndContinue(v, d) => {
            assert_eq!(v, 7);
            assert_eq!(d.level, Level::Warning);
            assert_eq!(d.message, "careful");
            assert_eq!(d.spans.len(), 3);
            assert_eq!(location(&d.spans[2]).start, LineColumn { line: 1, column: 13 });
        }
        _ => panic!("a warning goes on with its value"),
    }
}

#[test]
fn help_on_valid_value_is_dropped() {
    let r = ok(3i64).add_help(Span::call_site(), "help".to_string()).add_note(Span::call_site(), "note".to_string());
    assert_eq!(r.kind(), DiagnosticResultKind::Valid);
    assert_eq!(r.unwrap(), 3);
}

#[test]
fn help_and_note_attach_in_order() {
    let r = error::<()>("failed".to_string())
        .add_help(Span::call_site(), "haha".to_string())
        .add_note(Span::call_site(), "this is Bob".to_string());
    assert!(r.is_error());
    let d = diagnostic_of(r);
    assert_eq!(d.children.len(), 2);
    assert_eq!(d.children[0].level, Level::Help);
    assert_eq!(d.children[0].message, "haha");
    assert_eq!(d.children[1].level, Level::Note);
    assert_eq!(d.children[1].message, "this is Bob");
    assert!(d.children.iter().all(|c| c.children.is_empty()));
}

#[test]
fn question_mark_steps() {
    match ok("v").branch() {
        Step::Continue(v) => assert_eq!(v, "v"),
        _ => panic!("a valid value goes on"),
    }
    match error::<u8>("stop".to_string()).branch() {
        Step::Break(d) => {
            assert_eq!(d.message, "stop");
            let back: DiagnosticResult<String> = DiagnosticResult::from_residual(d);
            assert!(back.is_error());
            assert_eq!(diagnostic_of(back).message, "stop");
        }
        _ => panic!("an error short-circuits"),
    }
    assert_eq!(DiagnosticResult::from_output(9u8).unwrap(), 9);
}

#[test]
fn final_conversion_parts() {
    let (v, d) = ok(1u8).into_parts();
    assert_eq!(v, Some(1));
    assert!(d.is_none());
    let (v, d) = warn_spanned(2u8, Span::call_site(), "w".to_string()).into_parts();
    assert_eq!(v, Some(2));
    assert_eq!(d.unwrap().level, Level::Warning);
    let (v, d) = error::<u8>("e".to_string()).into_parts();
    assert_eq!(v, None);
    assert_eq!(d.unwrap().level, Level::Error);
}

#[test]
fn call_site_note_added_when_missing() {
    let spans = parsed_spans("elsewhere");
    let d = diagnostic_of(warn_spanned((), spans, "be careful".to_string()));
    assert!(!shows_call_site(&d));
    let noted = noted(d);
    assert_eq!(noted.children.len(), 1);
    let note = &noted.children[0];
    assert_eq!(note.level, Level::Note);
    assert_eq!(note.message, "this warning originates from the macro invocation here");
    assert!(shows_call_site(&noted));
    assert_eq!(noted.all_spans().len(), 2);
    let again = self::noted(noted.clone());
    assert_eq!(again.children.len(), 1);
}

#[test]
fn call_site_note_not_added_when_present() {
    let d = diagnostic_of(error::<()>("failed".to_string()));
    let noted = noted(d);
    assert!(noted.children.is_empty());
}

#[test]
fn child_at_call_site_counts() {
    let spans = parsed_spans("elsewhere");
    let d = diagnostic_of(
        warn_spanned((), spans, "w".to_string()).add_help(Span::call_site(), "here".to_string()),
    );
    let noted = noted(d);
    assert_eq!(noted.children.len(), 1);
    assert_eq!(noted.children[0].level, Level::Help);
}

#[test]
fn multi_span_forms() {
    let spans = parsed_spans("a b c");
    assert_eq!(spans.clone().into_spans().len(), 3);
    assert_eq!((&spans[1..]).into_spans().len(), 2);
    assert_eq!(Span::call_site().into_spans().len(), 1);
    let d = Diagnostic::new(Level::Note, &spans[..], "n".to_string());
    assert_eq!(d.spans.len(), 3);
    assert_eq!(location(&d.spans[1]).start, LineColumn { line: 1, column: 2 });
}

#[test]
fn add_child_on_diagnostic() {
    let mut d = Diagnostic::new(Level::Error, Span::call_site(), "top".to_string());
    d.add_help(Span::call_site(), "h".to_string());
    d.add_note(vec![Span::call_site(), Span::call_site()], "n".to_string());
    assert_eq!(d.children.len(), 2);
    assert_eq!(d.children[1].spans.len(), 2);
    let copy = d.clone();
    assert_eq!(copy.children.len(), 2);
    assert_eq!(copy.message, "top");
}

#[test]
fn clone_keeps_kind_and_value() {
    let r = warn_spanned(String::from("x"), Span::call_site(), "w".to_string());
    let c = r.clone();
    assert!(c.is_warning());
    assert_eq!(c.into_parts().0, Some(String::from("x")));
}

#[test]
fn all_spans_in_order() {
    let spans = parsed_spans("a b c d");
    let mut d = Diagnostic::new(Level::Warning, vec![spans[0], spans[1]], "w".to_string());
    d.add_help(spans[2], "h".to_string());
    d.add_note(&spans[3..], "n".to_string());
    let all = d.all_spans();
    assert_eq!(all.len(), 4);
    for (i, span) in all.iter().enumerate() {
        assert_eq!(location(span).start.column, 2 * i);
    }
}

#[test]
fn paths_compare_by_components() {
    let a = SpanLocation {
        file: Some(vec![b"/".to_vec(), b"src".to_vec(), b"lib.rs".to_vec()]),
        start: LineColumn { line: 1, column: 0 },
        end: LineColumn { line: 1, column: 3 },
    };
    let mut b = a.clone();
    assert!(a.same_as(&b));
    b.file = Some(vec![b"/".to_vec(), b"src".to_vec(), b"main.rs".to_vec()]);
    assert!(!a.same_as(&b));
    b.file = None;
    assert!(!a.same_as(&b));
    let mut c = a.clone();
    c.end = LineColumn { line: 1, column: 4 };
    assert!(!a.same_as(&c));
    assert!(any_at(&vec![c.clone(), a.clone()], &a));
    assert!(!any_at(&vec![c], &a));
}
