use proc_macro2::Span;
use proc_macro2_diagnostic::{error, ok, warn_spanned, DiagnosticResultKind};

#[test]
fn is_ok() {
    assert!(ok(()).is_ok());
}

#[test]
fn is_warning() {
    assert!(warn_spanned((), Span::call_site(), "foo".to_string()).is_warning());
}

#[test]
fn is_error() {
    assert!(error::<()>("foo".to_string()).is_error());
}

#[test]
fn kind() {
    match ok(()).kind() {
        DiagnosticResultKind::Valid => (),
        DiagnosticResultKind::Warning => panic!("not a warning"),
        DiagnosticResultKind::Error => panic!("not an error"),
    }
}

#[test]
fn ok_with_help() {
    assert!(matches!(
        ok(()).add_help(Span::call_site(), "help text".to_string()).kind(),
        DiagnosticResultKind::Valid
    ))
}
