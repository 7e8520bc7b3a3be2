//! The closed set of supported LSP method identifiers and the bidirectional
//! translation between a method and its canonical wire string.

use vstd::prelude::*;
use vstd::string::StringExecFns;

verus! {

/// A Language Server Protocol method supported by this client.
///
/// The set is fixed by the targeted protocol revision; there is no runtime
/// registration, and method strings outside the table below are treated as
/// unsupported.
#[derive(Clone, Copy, Debug, PartialEq, Eq)]
pub enum LspMethod {
    /// Initialize the language server.
    Initialize,
    /// Shut the language server down.
    Shutdown,
    /// Notify the server that a document has changed.
    DidChange,
    /// Notify the server that a document has been opened.
    DidOpen,
    /// Notify the server that a document has been closed.
    DidClose,
    /// Request hover information for a position in a document.
    Hover,
    /// Request completion suggestions for a position in a document.
    Completion,
    /// Request signature help for a position in a document.
    SignatureHelp,
    /// Request the definition of the symbol at a position in a document.
    Definition,
    /// Request the references to the symbol at a position in a document.
    References,
    /// Request the symbols of a document.
    DocumentSymbol,
    /// Request the highlights for a document and position.
    DocumentHighlights,
    /// Request formatting of a whole document.
    DocumentFormatting,
    /// Request formatting of a range in a document.
    RangeFormatting,
    /// Request formatting of text inserted at a position in a document.
    OnTypeFormatting,
    /// Request code actions for a document and position.
    CodeAction,
    /// Request the symbols of the workspace.
    WorkspaceSymbol,
    /// Request the references to a symbol across the workspace.
    WorkspaceReferences,
    /// Request a rename of the symbol at a position in a document.
    Rename,
    /// Request preparation of a rename at a position in a document.
    PrepareRename,
    /// Request execution of a server command.
    ExecuteCommand,
}

/// The canonical wire string of a method: the single source of truth for both
/// translation directions.
pub open spec fn wire_string(m: LspMethod) -> Seq<char> {
    match m {
        LspMethod::Initialize => "initialize"@,
        LspMethod::Shutdown => "shutdown"@,
        LspMethod::DidChange => "textDocument/didChange"@,
        LspMethod::DidOpen => "textDocument/didOpen"@,
        LspMethod::DidClose => "textDocument/didClose"@,
        LspMethod::Hover => "textDocument/hover"@,
        LspMethod::Completion => "textDocument/completion"@,
        LspMethod::SignatureHelp => "textDocument/signatureHelp"@,
        LspMethod::Definition => "textDocument/definition"@,
        LspMethod::References => "textDocument/references"@,
        LspMethod::DocumentSymbol => "textDocument/documentSymbol"@,
        LspMethod::DocumentHighlights => "textDocument/documentHighlights"@,
        LspMethod::DocumentFormatting => "textDocument/formatting"@,
        LspMethod::RangeFormatting => "textDocument/rangeFormatting"@,
        LspMethod::OnTypeFormatting => "textDocument/onTypeFormatting"@,
        LspMethod::CodeAction => "textDocument/codeAction"@,
        LspMethod::WorkspaceSymbol => "workspace/symbol"@,
        LspMethod::WorkspaceReferences => "workspace/references"@,
        LspMethod::Rename => "textDocument/rename"@,
        LspMethod::PrepareRename => "textDocument/prepareRename"@,
        LspMethod::ExecuteCommand => "workspace/executeCommand"@,
    }
}

/// The method a wire string decodes to, if any: the inverse reading of the
/// wire-string table.
pub open spec fn method_of(s: Seq<char>) -> Option<LspMethod> {
    if s == "initialize"@ {
        Some(LspMethod::Initialize)
    } else if s == "shutdown"@ {
        Some(LspMethod::Shutdown)
    } else if s == "textDocument/didChange"@ {
        Some(LspMethod::DidChange)
    } else if s == "textDocument/didOpen"@ {
        Some(LspMethod::DidOpen)
    } else if s == "textDocument/didClose"@ {
        Some(LspMethod::DidClose)
    } else if s == "textDocument/hover"@ {
        Some(LspMethod::Hover)
    } else if s == "textDocument/completion"@ {
        Some(LspMethod::Completion)
    } else if s == "textDocument/signatureHelp"@ {
        Some(LspMethod::SignatureHelp)
    } else if s == "textDocument/definition"@ {
        Some(LspMethod::Definition)
    } else if s == "textDocument/references"@ {
        Some(LspMethod::References)
    } else if s == "textDocument/documentSymbol"@ {
        Some(LspMethod::DocumentSymbol)
    } else if s == "textDocument/documentHighlights"@ {
        Some(LspMethod::DocumentHighlights)
    } else if s == "textDocument/formatting"@ {
        Some(LspMethod::DocumentFormatting)
    } else if s == "textDocument/rangeFormatting"@ {
        Some(LspMethod::RangeFormatting)
    } else if s == "textDocument/onTypeFormatting"@ {
        Some(LspMethod::OnTypeFormatting)
    } else if s == "textDocument/codeAction"@ {
        Some(LspMethod::CodeAction)
    } else if s == "workspace/symbol"@ {
        Some(LspMethod::WorkspaceSymbol)
    } else if s == "workspace/references"@ {
        Some(LspMethod::WorkspaceReferences)
    } else if s == "textDocument/rename"@ {
        Some(LspMethod::Rename)
    } else if s == "textDocument/prepareRename"@ {
        Some(LspMethod::PrepareRename)
    } else if s == "workspace/executeCommand"@ {
        Some(LspMethod::ExecuteCommand)
    } else {
        None
    }
}

/// String equality over the character views.
pub(crate) fn str_eq(a: &str, b: &str) -> (r: bool)
    ensures
        r == (a@ == b@),
{
    let a_owned = String::from_str(a);
    let b_owned = String::from_str(b);
    a_owned == b_owned
}

impl LspMethod {
    /// Converts the method to its canonical wire string. Total: every method
    /// has exactly one wire string.
    pub fn to_string(&self) -> (r: &'static str)
        ensures
            r@ == wire_string(*self),
    {
        match self {
            LspMethod::Initialize => "initialize",
            LspMethod::Shutdown => "shutdown",
            LspMethod::DidChange => "textDocument/didChange",
            LspMethod::DidOpen => "textDocument/didOpen",
            LspMethod::DidClose => "textDocument/didClose",
            LspMethod::Hover => "textDocument/hover",
            LspMethod::Completion => "textDocument/completion",
            LspMethod::SignatureHelp => "textDocument/signatureHelp",
            LspMethod::Definition => "textDocument/definition",
            LspMethod::References => "textDocument/references",
            LspMethod::DocumentSymbol => "textDocument/documentSymbol",
            LspMethod::DocumentHighlights => "textDocument/documentHighlights",
            LspMethod::DocumentFormatting => "textDocument/formatting",
            LspMethod::RangeFormatting => "textDocument/rangeFormatting",
            LspMethod::OnTypeFormatting => "textDocument/onTypeFormatting",
            LspMethod::CodeAction => "textDocument/codeAction",
            LspMethod::Rename => "textDocument/rename",
            LspMethod::PrepareRename => "textDocument/prepareRename",
            LspMethod::WorkspaceSymbol => "workspace/symbol",
            LspMethod::WorkspaceReferences => "workspace/references",
            LspMethod::ExecuteCommand => "workspace/executeCommand",
        }
    }

    /// Converts a wire string back to the method that produced it. Partial:
    /// strings outside the canonical table decode to `None`, signalling an
    /// unsupported method rather than a hard error.
    pub fn from_str(s: &str) -> (r: Option<LspMethod>)
        ensures
            r == method_of(s@),
    {
        if str_eq(s, "initialize") {
            Some(LspMethod::Initialize)
        } else if str_eq(s, "shutdown") {
            Some(LspMethod::Shutdown)
        } else if str_eq(s, "textDocument/didChange") {
            Some(LspMethod::DidChange)
        } else if str_eq(s, "textDocument/didOpen") {
            Some(LspMethod::DidOpen)
        } else if str_eq(s, "textDocument/didClose") {
            Some(LspMethod::DidClose)
        } else if str_eq(s, "textDocument/hover") {
            Some(LspMethod::Hover)
        } else if str_eq(s, "textDocument/completion") {
            Some(LspMethod::Completion)
        } else if str_eq(s, "textDocument/signatureHelp") {
            Some(LspMethod::SignatureHelp)
        } else if str_eq(s, "textDocument/definition") {
            Some(LspMethod::Definition)
        } else if str_eq(s, "textDocument/references") {
            Some(LspMethod::References)
        } else if str_eq(s, "textDocument/documentSymbol") {
            Some(LspMethod::DocumentSymbol)
        } else if str_eq(s, "textDocument/documentHighlights") {
            Some(LspMethod::DocumentHighlights)
        } else if str_eq(s, "textDocument/formatting") {
            Some(LspMethod::DocumentFormatting)
        } else if str_eq(s, "textDocument/rangeFormatting") {
            Some(LspMethod::RangeFormatting)
        } else if str_eq(s, "textDocument/onTypeFormatting") {
            Some(LspMethod::OnTypeFormatting)
        } else if str_eq(s, "textDocument/codeAction") {
            Some(LspMethod::CodeAction)
        } else if str_eq(s, "workspace/symbol") {
            Some(LspMethod::WorkspaceSymbol)
        } else if str_eq(s, "workspace/references") {
            Some(LspMethod::WorkspaceReferences)
        } else if str_eq(s, "textDocument/rename") {
            Some(LspMethod::Rename)
        } else if str_eq(s, "textDocument/prepareRename") {
            Some(LspMethod::PrepareRename)
        } else if str_eq(s, "workspace/executeCommand") {
            Some(LspMethod::ExecuteCommand)
        } else {
            None
        }
    }
}

/// Round trip: decoding the wire string of any method yields that method
/// back, so `from_str(to_string(m)) == Some(m)` for every method `m`.
pub proof fn lemma_round_trip(m: LspMethod)
    ensures
        method_of(wire_string(m)) == Some(m),
{
    reveal_strlit("initialize");
    reveal_strlit("shutdown");
    reveal_strlit("textDocument/didChange");
    reveal_strlit("textDocument/didOpen");
    reveal_strlit("textDocument/didClose");
    reveal_strlit("textDocument/hover");
    reveal_strlit("textDocument/completion");
    reveal_strlit("textDocument/signatureHelp");
    reveal_strlit("textDocument/definition");
    reveal_strlit("textDocument/references");
    reveal_strlit("textDocument/documentSymbol");
    reveal_strlit("textDocument/documentHighlights");
    reveal_strlit("textDocument/formatting");
    reveal_strlit("textDocument/rangeFormatting");
    reveal_strlit("textDocument/onTypeFormatting");
    reveal_strlit("textDocument/codeAction");
    reveal_strlit("workspace/symbol");
    reveal_strlit("workspace/references");
    reveal_strlit("textDocument/rename");
    reveal_strlit("textDocument/prepareRename");
    reveal_strlit("workspace/executeCommand");
    assert("initialize"@.len() == 10);
    assert("shutdown"@.len() == 8);
    assert("textDocument/didChange"@.len() == 22);
    assert("textDocument/didOpen"@.len() == 20);
    assert("textDocument/didClose"@.len() == 21);
    assert("textDocument/hover"@.len() == 18);
    assert("textDocument/completion"@.len() == 23);
    assert("textDocument/signatureHelp"@.len() == 26);
    assert("textDocument/definition"@.len() == 23);
    assert("textDocument/references"@.len() == 23);
    assert("textDocument/documentSymbol"@.len() == 27);
    assert("textDocument/documentHighlights"@.len() == 31);
    assert("textDocument/formatting"@.len() == 23);
    assert("textDocument/rangeFormatting"@.len() == 28);
    assert("textDocument/onTypeFormatting"@.len() == 29);
    assert("textDocument/codeAction"@.len() == 23);
    assert("workspace/symbol"@.len() == 16);
    assert("workspace/references"@.len() == 20);
    assert("textDocument/rename"@.len() == 19);
    assert("textDocument/prepareRename"@.len() == 26);
    assert("workspace/executeCommand"@.len() == 24);
    // Strings of equal length are told apart by one differing character.
    assert("textDocument/didOpen"@[0] == 't' && "workspace/references"@[0] == 'w');
    assert("textDocument/signatureHelp"@[13] == 's' && "textDocument/prepareRename"@[13] == 'p');
    assert("textDocument/completion"@[13] == 'c');
    assert("textDocument/definition"@[13] == 'd');
    assert("textDocument/references"@[13] == 'r');
    assert("textDocument/formatting"@[13] == 'f');
    assert("textDocument/codeAction"@[13] == 'c');
    assert("textDocument/completion"@[15] == 'm' && "textDocument/codeAction"@[15] == 'd');
}

/// Exactness of decoding: a successful lookup returns the method whose wire
/// string was looked up, and a failed lookup means that no method at all has
/// that wire string — every string outside the canonical table decodes to
/// `None`.
pub proof fn lemma_method_of_exact(s: Seq<char>)
    ensures
        method_of(s) matches Some(m) ==> wire_string(m) == s,
        method_of(s) is None ==> forall|m: LspMethod| wire_string(m) != s,
{
}

/// Uniqueness: no two methods share a wire string, so `to_string` is
/// injective over the method set.
pub proof fn lemma_wire_string_injective(m1: LspMethod, m2: LspMethod)
    ensures
        wire_string(m1) == wire_string(m2) ==> m1 == m2,
{
    if wire_string(m1) == wire_string(m2) {
        lemma_round_trip(m1);
        lemma_round_trip(m2);
        assert(Some(m1) == Some(m2));
    }
}

} // verus!
