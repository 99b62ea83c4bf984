//! What the resolution pass reports about names it could not bind. A
//! diagnostic never stops the pass: the reference it is about resolves to the
//! undefined value, and resolution goes on.

use vstd::prelude::*;
use vstd::string::StringExecFns;

verus! {

/// A reference that could not be resolved.
#[derive(Debug, PartialEq, Eq)]
pub enum Diagnostic {
    /// No enclosing scope binds a variable of this name.
    UnresolvedVariable(String),
    /// No enclosing scope binds a function of this name.
    UnresolvedFunction(String),
    /// The field accessed is none of the three axes.
    InvalidFieldAccess(String),
}

/// Mathematical value of a [`Diagnostic`].
pub enum DiagnosticView {
    UnresolvedVariable(Seq<char>),
    UnresolvedFunction(Seq<char>),
    InvalidFieldAccess(Seq<char>),
}

impl View for Diagnostic {
    type V = DiagnosticView;

    open spec fn view(&self) -> DiagnosticView {
        match self {
            Diagnostic::UnresolvedVariable(name) => DiagnosticView::UnresolvedVariable(name@),
            Diagnostic::UnresolvedFunction(name) => DiagnosticView::UnresolvedFunction(name@),
            Diagnostic::InvalidFieldAccess(name) => DiagnosticView::InvalidFieldAccess(name@),
        }
    }
}

impl DiagnosticView {
    /// The warning that the diagnostic reads as.
    pub open spec fn message(self) -> Seq<char> {
        match self {
            DiagnosticView::UnresolvedVariable(name) => "Could not find variable `"@ + name + "`"@,
            DiagnosticView::UnresolvedFunction(name) => "Could not find function `"@ + name + "`"@,
            DiagnosticView::InvalidFieldAccess(name) => "Unrecognized field access `"@ + name
                + "`"@,
        }
    }
}

impl Diagnostic {
    /// The warning that the diagnostic reads as: what could not be
    /// resolved, and its name between backquotes.
    pub fn message(&self) -> (text: String)
        ensures
            text@ == self@.message(),
    {
        match self {
            Diagnostic::UnresolvedVariable(name) => {
                let mut text = String::from_str("Could not find variable `");
                text.append(name.as_str());
                text.append("`");
                text
            },
            Diagnostic::UnresolvedFunction(name) => {
                let mut text = String::from_str("Could not find function `");
                text.append(name.as_str());
                text.append("`");
                text
            },
            Diagnostic::InvalidFieldAccess(name) => {
                let mut text = String::from_str("Unrecognized field access `");
                text.append(name.as_str());
                text.append("`");
                text
            },
        }
    }
}

/// Mathematical value of a list of diagnostics, in the order of emission.
pub open spec fn diagnostics_view(diagnostics: Seq<Diagnostic>) -> Seq<DiagnosticView> {
    Seq::new(diagnostics.len(), |i: int| diagnostics[i]@)
}

/// Appends a diagnostic to the list.
pub fn report(diagnostics: &mut Vec<Diagnostic>, diagnostic: Diagnostic)
    ensures
        diagnostics_view(final(diagnostics)@) == diagnostics_view(old(diagnostics)@).push(
            diagnostic@,
        ),
{
    diagnostics.push(diagnostic);
    assert(diagnostics_view(diagnostics@) =~= diagnostics_view(old(diagnostics)@).push(
        diagnostic@,
    ));
}

} // verus!
