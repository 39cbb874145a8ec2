//! Module loading and the decision logic of the loading sequence.
//!
//! `NetModuleLoader` resolves a specifier against a referrer and prepares
//! fetched bytes as module source: only the local-file locator scheme is
//! accepted, and a leading byte-order mark is stripped.  The surrounding
//! runtime performs the engine work (fetching, evaluating, driving the
//! task queue); the functions here decide how each step's failure is
//! classified and how a module name is formed and checked.

use vstd::prelude::*;

use crate::urls::{join_url, parse_url, url_join, url_join_ok, url_norm, url_ok};

verus! {

broadcast use vstd::seq::group_seq_axioms, vstd::std_specs::vec::group_vec_axioms;

/// Module-loading failures.  Engine failures carry the offending module's
/// name and the reported reason as text.
#[derive(Debug)]
pub enum RuleExecutorError {
    DenoExecutionError { reason: String },
    BadModuleName { module_name: String, reason: String },
    ModuleResolutionError { module_name: String, reason: String },
    ModuleEvaluationError { module_name: String, reason: String },
    CouldNotReadFile { file: String, err: String },
}

/// A fetched module ready for evaluation: its source bytes and the
/// locator they were fetched from.
#[derive(Debug)]
pub struct ModuleSource {
    pub code: Vec<u8>,
    pub specifier: String,
}

/// The module loader: resolves specifiers and prepares fetched bytes.
pub struct NetModuleLoader;

/// Whether a specifier is a relative reference: it starts with `/`,
/// `./`, or `../`.
pub open spec fn spec_has_rel_prefix(s: Seq<char>) -> bool {
    ||| (s.len() >= 1 && s[0] == '/')
    ||| (s.len() >= 2 && s[0] == '.' && s[1] == '/')
    ||| (s.len() >= 3 && s[0] == '.' && s[1] == '.' && s[2] == '/')
}

/// Whether a locator's scheme is the local-file scheme.
pub open spec fn spec_is_file_scheme(s: Seq<char>) -> bool {
    s.len() >= 5 && s[0] == 'f' && s[1] == 'i' && s[2] == 'l' && s[3] == 'e' && s[4]
        == ':'
}

/// Whether the first bytes are a UTF-8 byte-order mark.
pub open spec fn spec_has_bom(b: Seq<u8>) -> bool {
    b.len() >= 3 && b[0] == 0xef && b[1] == 0xbb && b[2] == 0xbf
}

/// The bytes with a leading byte-order mark removed.
pub open spec fn spec_strip_bom(b: Seq<u8>) -> Seq<u8> {
    if spec_has_bom(b) {
        b.skip(3)
    } else {
        b
    }
}

fn has_rel_prefix(s: &str) -> (r: bool)
    ensures
        r == spec_has_rel_prefix(s@),
{
    let n = s.unicode_len();
    if n >= 1 && s.get_char(0) == '/' {
        return true;
    }
    if n >= 2 && s.get_char(0) == '.' && s.get_char(1) == '/' {
        return true;
    }
    if n >= 3 && s.get_char(0) == '.' && s.get_char(1) == '.' && s.get_char(2) == '/' {
        return true;
    }
    false
}

/// Whether a locator names a local file.
pub fn scheme_is_file(locator: &str) -> (r: bool)
    ensures
        r == spec_is_file_scheme(locator@),
{
    let n = locator.unicode_len();
    n >= 5 && locator.get_char(0) == 'f' && locator.get_char(1) == 'i'
        && locator.get_char(2) == 'l' && locator.get_char(3) == 'e'
        && locator.get_char(4) == ':'
}

/// Strips a leading byte-order mark, if present.
pub fn strip_bom(bytes: Vec<u8>) -> (r: Vec<u8>)
    ensures
        r@ == spec_strip_bom(bytes@),
{
    let has_bom = bytes.len() >= 3 && bytes[0] == 0xef && bytes[1] == 0xbb && bytes[2]
        == 0xbf;
    if has_bom {
        let mut b = bytes;
        let tail = b.split_off(3);
        proof {
            assert(tail@ =~= spec_strip_bom(b@ + tail@));
        }
        tail
    } else {
        bytes
    }
}

/// A byte-order-mark-prefixed source loads to the same module source as
/// its stripped equivalent, provided the stripped content does not itself
/// begin with another byte-order mark.
pub proof fn lemma_bom_strip_equivalent(content: Seq<u8>)
    requires
        !spec_has_bom(content),
    ensures
        spec_strip_bom(seq![0xefu8, 0xbbu8, 0xbfu8] + content) == spec_strip_bom(
            content,
        ),
{
    let prefixed = seq![0xefu8, 0xbbu8, 0xbfu8] + content;
    assert(prefixed.skip(3) =~= content);
}

impl NetModuleLoader {
    /// Resolves a specifier against a referrer: an absolute URL stands
    /// for itself (normalized); a relative reference with a documented
    /// prefix is joined against the referrer; anything else is rejected
    /// as a bad module name.
    pub fn resolve(&self, specifier: &str, referrer: &str) -> (r: Result<
        String,
        RuleExecutorError,
    >)
        ensures
            url_ok(specifier@) ==> (r matches Ok(t) && t@ == url_norm(specifier@)),
            !url_ok(specifier@) && spec_has_rel_prefix(specifier@) && url_join_ok(
                referrer@,
                specifier@,
            ) ==> (r matches Ok(t) && t@ == url_join(referrer@, specifier@)),
            r is Err <==> !url_ok(specifier@) && !(spec_has_rel_prefix(specifier@)
                && url_join_ok(referrer@, specifier@)),
            r matches Err(e) ==> e matches RuleExecutorError::BadModuleName {
                module_name,
                ..
            } && module_name@ == specifier@,
            r matches Ok(t) ==> url_ok(t@) && url_norm(t@) == t@,
    {
        match parse_url(specifier) {
            Option::Some(t) => Ok(t),
            Option::None => {
                if has_rel_prefix(specifier) {
                    match join_url(referrer, specifier) {
                        Option::Some(t) => Ok(t),
                        Option::None => Err(
                            RuleExecutorError::BadModuleName {
                                module_name: specifier.to_owned(),
                                reason: String::from_str(
                                    "the reference does not join against the referrer",
                                ),
                            },
                        ),
                    }
                } else {
                    Err(
                        RuleExecutorError::BadModuleName {
                            module_name: specifier.to_owned(),
                            reason: String::from_str(
                                "a relative reference must start with /, ./ or ../",
                            ),
                        },
                    )
                }
            },
        }
    }

    /// Prepares fetched bytes as module source.  Exactly the local-file
    /// scheme is accepted; the code is the fetched bytes with a leading
    /// byte-order mark stripped, tagged with the locator it came from.
    pub fn prepare(&self, specifier: &str, bytes: Vec<u8>) -> (r: Result<
        ModuleSource,
        RuleExecutorError,
    >)
        ensures
            r is Ok <==> spec_is_file_scheme(specifier@),
            r matches Ok(ms) ==> ms.code@ == spec_strip_bom(bytes@) && ms.specifier@
                == specifier@,
            r matches Err(e) ==> e matches RuleExecutorError::ModuleResolutionError {
                module_name,
                ..
            } && module_name@ == specifier@,
    {
        if scheme_is_file(specifier) {
            Ok(ModuleSource { code: strip_bom(bytes), specifier: specifier.to_owned() })
        } else {
            Err(
                RuleExecutorError::ModuleResolutionError {
                    module_name: specifier.to_owned(),
                    reason: String::from_str("only the file locator scheme is supported"),
                },
            )
        }
    }
}

/// The steps of one module load that follow name parsing, in order: the
/// transitive fetch, beginning evaluation, driving the task queue to
/// quiescence, awaiting the evaluation outcome, and fetching the exported
/// namespace to confirm success.
#[derive(Clone, Copy, Debug, PartialEq, Eq, Structural)]
pub enum LoadPhase {
    Fetch,
    Evaluate,
    Drain,
    Outcome,
    Namespace,
}

/// The step after `p`, or nothing once the load is complete.
pub fn next_phase(p: LoadPhase) -> (r: Option<LoadPhase>)
    ensures
        p is Fetch ==> r == Option::Some(LoadPhase::Evaluate),
        p is Evaluate ==> r == Option::Some(LoadPhase::Drain),
        p is Drain ==> r == Option::Some(LoadPhase::Outcome),
        p is Outcome ==> r == Option::Some(LoadPhase::Namespace),
        p is Namespace ==> r is None,
{
    match p {
        LoadPhase::Fetch => Some(LoadPhase::Evaluate),
        LoadPhase::Evaluate => Some(LoadPhase::Drain),
        LoadPhase::Drain => Some(LoadPhase::Outcome),
        LoadPhase::Outcome => Some(LoadPhase::Namespace),
        LoadPhase::Namespace => None,
    }
}

/// Classifies an engine failure by the step it surfaced in: a failure
/// anywhere in the transitive fetch is a resolution error naming the root
/// module; a failure while evaluating, draining the queue, awaiting the
/// outcome, or fetching the namespace is an evaluation error.
pub fn load_failure(phase: LoadPhase, module_name: String, reason: String) -> (e: RuleExecutorError)
    ensures
        phase is Fetch ==> (e matches RuleExecutorError::ModuleResolutionError {
            module_name: m,
            reason: r2,
        } && m@ == module_name@ && r2@ == reason@),
        !(phase is Fetch) ==> (e matches RuleExecutorError::ModuleEvaluationError {
            module_name: m,
            reason: r2,
        } && m@ == module_name@ && r2@ == reason@),
{
    match phase {
        LoadPhase::Fetch => RuleExecutorError::ModuleResolutionError { module_name, reason },
        _ => RuleExecutorError::ModuleEvaluationError { module_name, reason },
    }
}

/// Parses a module name into its locator; a name that is not an absolute
/// URL is rejected as a bad module name.
pub fn parse_module_name(name: &str) -> (r: Result<String, RuleExecutorError>)
    ensures
        r is Ok <==> url_ok(name@),
        r matches Ok(t) ==> t@ == url_norm(name@),
        r matches Err(e) ==> e matches RuleExecutorError::BadModuleName {
            module_name,
            ..
        } && module_name@ == name@,
{
    match parse_url(name) {
        Option::Some(t) => Ok(t),
        Option::None => Err(
            RuleExecutorError::BadModuleName {
                module_name: name.to_owned(),
                reason: String::from_str("the module name is not an absolute URL"),
            },
        ),
    }
}

/// The module name under which a local file is loaded.
pub fn file_module_name(path: &str) -> (r: String)
    ensures
        r@ == "file://"@ + path@,
{
    String::from_str("file://").concat(path)
}

} // verus!
