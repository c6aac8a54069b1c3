//! Structured compilation notes.
//!
//! The core never renders or prints diagnostics: it only enqueues structured
//! notes describing what happened and where. Rendering (colours, source
//! excerpts, line/column lookup) is the host's concern. The queue is
//! append-only during a run and drained once verification completes, so
//! notes come out in source-encounter order.

use vstd::prelude::*;

use crate::ast::Range;

verus! {

/// How often the noted situation arises on the execution paths that reach it.
#[derive(Clone, Copy, PartialEq, Eq, Structural, Debug)]
pub enum NoteOccurance {
    Always,
    Sometimes,
    Never,
}

/// Situations that are unrecommended but do not prevent compilation.
#[derive(Clone, Copy, PartialEq, Eq, Structural, Debug)]
pub enum WarnType {
    /// The running build of the toolchain is not an official release.
    UnstableVersion,
    /// The contents of a block are always or never evaluated, usually
    /// because an `if` condition is statically known.
    BlockContentsCalled,
}

/// Situations that make the program invalid; compilation fails if any is queued.
#[derive(Clone, Copy, PartialEq, Eq, Structural, Debug)]
pub enum ErrorType {
    /// The compiler itself misbehaved; not a program-level problem.
    InternalError,
    /// A referenced module's source could not be loaded.
    ModuleNotFound,
    /// The parser met a character it did not expect.
    UnexpectedToken,
    /// More than one `#[entry]` header: a program starts in one place only.
    DuplicateEntryHeader,
    /// A name was defined twice in the root scope of a module.
    DuplicateSymbol,
    /// An operation received a value of a type it does not support.
    InvalidTypeReceived,
    /// A name that resolves to no known symbol.
    UnknownSymbol,
    /// A checked numeric operation crossed the minimum or maximum of its type.
    BoundBroken,
}

/// The severity and kind of a note.
#[derive(Clone, Copy, PartialEq, Eq, Structural, Debug)]
pub enum NoteType {
    Warn(WarnType),
    Error(ErrorType),
}

/// One structured remark inside a note, usually attached to a source range.
/// Payload strings (type names, symbol names) are carried as data; how they
/// are phrased on screen is the renderer's choice.
#[derive(Clone, PartialEq, Eq, Debug)]
pub enum NoteDetail {
    /// The first `#[entry]` header, when a second one is reported.
    EntryDefinedHere,
    /// The offending later `#[entry]` header.
    EntryRedefinedHere,
    /// The first definition of a symbol, when it is defined again.
    SymbolDefinedHere,
    /// The offending later definition of the same symbol.
    SymbolRedefinedHere,
    /// An operand whose type does not match the other operand's; carries
    /// the type name of the other side.
    DoesNotMatchType(String),
    /// A condition that must be `bool` but has the named type.
    ExpectedBool(String),
    /// A condition that always succeeds.
    CondAlwaysSucceeds,
    /// Advice for a condition that always succeeds in the first clause.
    ConsiderRemovingIf,
    /// Advice for a later clause whose condition always succeeds.
    ConsiderReplacingWithElse,
    /// A condition that always fails.
    CondAlwaysFails,
    /// Advice for a clause whose condition always fails.
    ConsiderRemovingCase,
    /// A conditional branch whose type disagrees with the branches before
    /// it; carries the accumulated type name and this branch's type name.
    BranchTypeMismatch(String, String),
    /// A conditional with a non-`Void` result but no `else` branch; carries
    /// the accumulated type name.
    MissingElse(String),
    /// A reference to a name that resolves to nothing.
    UnknownSymbolName(String),
    /// An arithmetic result that crossed the bounds of its type.
    ValueOutOfBounds,
    /// An operation applied to a type that does not support it; carries
    /// the operands' type name.
    UnsupportedOperation(String),
}

/// A queued note: severity/kind, how often it arises, and its remarks in
/// presentation order, each optionally pointing at a source range.
#[derive(Clone, PartialEq, Eq, Debug)]
pub struct CompilationNote {
    pub occurance: NoteOccurance,
    pub note: NoteType,
    pub details: Vec<(Option<Range>, NoteDetail)>,
}

/// Mathematical image of a [`NoteDetail`]: the same structure with string
/// payloads as character sequences.
pub enum NoteDetailS {
    EntryDefinedHere,
    EntryRedefinedHere,
    SymbolDefinedHere,
    SymbolRedefinedHere,
    DoesNotMatchType(Seq<char>),
    ExpectedBool(Seq<char>),
    CondAlwaysSucceeds,
    ConsiderRemovingIf,
    ConsiderReplacingWithElse,
    CondAlwaysFails,
    ConsiderRemovingCase,
    BranchTypeMismatch(Seq<char>, Seq<char>),
    MissingElse(Seq<char>),
    UnknownSymbolName(Seq<char>),
    ValueOutOfBounds,
    UnsupportedOperation(Seq<char>),
}

/// Mathematical image of a [`CompilationNote`].
pub struct NoteS {
    pub occurance: NoteOccurance,
    pub note: NoteType,
    pub details: Seq<(Option<Range>, NoteDetailS)>,
}

impl View for NoteDetail {
    type V = NoteDetailS;

    open spec fn view(&self) -> NoteDetailS {
        match self {
            NoteDetail::EntryDefinedHere => NoteDetailS::EntryDefinedHere,
            NoteDetail::EntryRedefinedHere => NoteDetailS::EntryRedefinedHere,
            NoteDetail::SymbolDefinedHere => NoteDetailS::SymbolDefinedHere,
            NoteDetail::SymbolRedefinedHere => NoteDetailS::SymbolRedefinedHere,
            NoteDetail::DoesNotMatchType(s) => NoteDetailS::DoesNotMatchType(s@),
            NoteDetail::ExpectedBool(s) => NoteDetailS::ExpectedBool(s@),
            NoteDetail::CondAlwaysSucceeds => NoteDetailS::CondAlwaysSucceeds,
            NoteDetail::ConsiderRemovingIf => NoteDetailS::ConsiderRemovingIf,
            NoteDetail::ConsiderReplacingWithElse => NoteDetailS::ConsiderReplacingWithElse,
            NoteDetail::CondAlwaysFails => NoteDetailS::CondAlwaysFails,
            NoteDetail::ConsiderRemovingCase => NoteDetailS::ConsiderRemovingCase,
            NoteDetail::BranchTypeMismatch(a, b) => NoteDetailS::BranchTypeMismatch(a@, b@),
            NoteDetail::MissingElse(s) => NoteDetailS::MissingElse(s@),
            NoteDetail::UnknownSymbolName(s) => NoteDetailS::UnknownSymbolName(s@),
            NoteDetail::ValueOutOfBounds => NoteDetailS::ValueOutOfBounds,
            NoteDetail::UnsupportedOperation(s) => NoteDetailS::UnsupportedOperation(s@),
        }
    }
}

impl View for CompilationNote {
    type V = NoteS;

    open spec fn view(&self) -> NoteS {
        NoteS {
            occurance: self.occurance,
            note: self.note,
            details: Seq::new(
                self.details@.len(),
                |i: int| (self.details@[i].0, self.details@[i].1@),
            ),
        }
    }
}

impl CompilationNote {
    /// A note with one located remark.
    pub fn with_one(
        occurance: NoteOccurance,
        note: NoteType,
        r0: Option<Range>,
        d0: NoteDetail,
    ) -> (r: CompilationNote)
        ensures
            r@ == (NoteS { occurance, note, details: seq![(r0, d0@)] }),
    {
        let mut details: Vec<(Option<Range>, NoteDetail)> = Vec::new();
        details.push((r0, d0));
        let r = CompilationNote { occurance, note, details };
        proof {
            assert(r@.details =~= seq![(r0, d0@)]);
        }
        r
    }

    /// A note with two located remarks.
    pub fn with_two(
        occurance: NoteOccurance,
        note: NoteType,
        r0: Option<Range>,
        d0: NoteDetail,
        r1: Option<Range>,
        d1: NoteDetail,
    ) -> (r: CompilationNote)
        ensures
            r@ == (NoteS { occurance, note, details: seq![(r0, d0@), (r1, d1@)] }),
    {
        let mut details: Vec<(Option<Range>, NoteDetail)> = Vec::new();
        details.push((r0, d0));
        details.push((r1, d1));
        let r = CompilationNote { occurance, note, details };
        proof {
            assert(r@.details =~= seq![(r0, d0@), (r1, d1@)]);
        }
        r
    }
}

/// Spec-side constructor for a note with one remark.
pub open spec fn note_one(
    occurance: NoteOccurance,
    note: NoteType,
    r0: Option<Range>,
    d0: NoteDetailS,
) -> NoteS {
    NoteS { occurance, note, details: seq![(r0, d0)] }
}

/// Spec-side constructor for a note with two remarks.
pub open spec fn note_two(
    occurance: NoteOccurance,
    note: NoteType,
    r0: Option<Range>,
    d0: NoteDetailS,
    r1: Option<Range>,
    d1: NoteDetailS,
) -> NoteS {
    NoteS { occurance, note, details: seq![(r0, d0), (r1, d1)] }
}

} // verus!
