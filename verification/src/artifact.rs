//! What a bridge emits: declarations in the order in which they are put at
//! the call site.

use vstd::prelude::*;

verus! {

/// What an emitted declaration is for.
#[derive(Clone, Copy, Debug, PartialEq, Eq, Structural)]
pub enum DeclKind {
    /// The struct that wraps a draining iterator over the items.
    WrapperStruct,
    /// The conversion from a vector of items into the wrapper.
    FromSequence,
    /// The operation that hands out the next item of the wrapper.
    SteppingOperation,
    /// The enum, as it was declared.
    EnumDefinition,
    /// The binding of a foreign shim and of the foreign view type.
    ShimBinding,
    /// The method that hands a value to the shim.
    BridgingMethod,
}

/// One emitted declaration.
#[derive(Clone, Debug, PartialEq, Eq)]
pub struct OutputDecl {
    pub kind: DeclKind,
    pub text: String,
}

/// What an [`OutputDecl`] holds, its text as a sequence of characters.
pub struct OutputDeclView {
    pub kind: DeclKind,
    pub text: Seq<char>,
}

impl View for OutputDecl {
    type V = OutputDeclView;

    open spec fn view(&self) -> OutputDeclView {
        OutputDeclView { kind: self.kind, text: self.text@ }
    }
}

/// The views of a sequence of declarations, in the same order.
pub open spec fn decls_view(decls: Seq<OutputDecl>) -> Seq<OutputDeclView> {
    decls.map_values(|d: OutputDecl| d@)
}

/// The text of the declarations, in order, each followed by a line break.
pub open spec fn rendered(decls: Seq<OutputDeclView>) -> Seq<char>
    decreases decls.len(),
{
    if decls.len() == 0 {
        Seq::empty()
    } else {
        rendered(decls.drop_last()) + decls.last().text + "\n"@
    }
}

/// Everything that one invocation of a bridge emits.
#[derive(Clone, Debug, PartialEq, Eq)]
pub struct GeneratedArtifact {
    pub declarations: Vec<OutputDecl>,
}

impl View for GeneratedArtifact {
    type V = Seq<OutputDeclView>;

    open spec fn view(&self) -> Seq<OutputDeclView> {
        decls_view(self.declarations@)
    }
}

impl GeneratedArtifact {
    /// The text that is put at the call site.
    pub fn render(&self) -> (text: String)
        ensures
            text@ == rendered(self@),
    {
        let mut text = String::new();
        let ghost views = self@;
        let mut i: usize = 0;
        while i < self.declarations.len()
            invariant
                i <= self.declarations.len(),
                views == decls_view(self.declarations@),
                text@ == rendered(views.take(i as int)),
            decreases self.declarations.len() - i,
        {
            proof {
                let next = views.take(i + 1);
                assert(next.drop_last() == views.take(i as int));
                assert(next.last() == self.declarations[i as int]@);
            }
            text.append(self.declarations[i].text.as_str());
            text.append("\n");
            i += 1;
        }
        proof {
            assert(views.take(self.declarations.len() as int) == views);
        }
        text
    }
}

} // verus!
