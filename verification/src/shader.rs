//! The fragment-shader compile pipeline: parse, then validate, as one
//! atomic accept-or-reject step.
//!
//! The heavy lifting — parsing WGSL text and validating the resulting
//! module — is naga's.  Both steps are deterministic functions of the
//! source text (the validator always runs with every validation flag and
//! every capability enabled), so their verdicts are named here by the
//! uninterpreted predicates [`wgsl_parses`] and [`wgsl_validates`], and
//! every contract in the crate speaks of those names exactly.
//!
//! A [`CompiledProgram`] exists only for text that passed both steps; no
//! partially checked program is ever observable.

use vstd::prelude::*;

verus! {

/// Whether naga's WGSL front end accepts the text `s`.
pub uninterp spec fn wgsl_parses(s: Seq<char>) -> bool;

/// Whether naga's validator, with all flags and capabilities enabled,
/// accepts the module parsed from the text `s`.  Meaningful only where
/// `wgsl_parses(s)` holds.
pub uninterp spec fn wgsl_validates(s: Seq<char>) -> bool;

/// Why a reload or startup compile was rejected.  Each variant carries
/// the diagnostic text shown to the operator.
#[derive(Debug)]
pub enum CompileError {
    /// The shader file could not be read.
    Io(String),
    /// The WGSL front end rejected the text.
    Parse(String),
    /// The validator rejected the parsed module.
    Validation(String),
    /// The graphics backend rejected the finished pipeline.  Never
    /// produced by [`compile`]; reserved for the frame driver's report
    /// when the device refuses a validated program.
    PipelineCreation(String),
}

impl CompileError {
    /// The diagnostic text carried by the error.
    pub fn message(&self) -> (r: &String)
        ensures
            match self {
                CompileError::Io(m) => r == m,
                CompileError::Parse(m) => r == m,
                CompileError::Validation(m) => r == m,
                CompileError::PipelineCreation(m) => r == m,
            },
    {
        match self {
            CompileError::Io(m) => m,
            CompileError::Parse(m) => m,
            CompileError::Validation(m) => m,
            CompileError::PipelineCreation(m) => m,
        }
    }
}

/// Relies on `naga::front::wgsl::parse_str`, `naga::valid::Validator::new`
/// and `naga::valid::Validator::validate`: `parse_str` accepts or rejects
/// WGSL text as a deterministic function of the text alone, and
/// `validate`, on a validator built with `ValidationFlags::all()` and
/// `Capabilities::all()`, accepts or rejects the parsed module as a
/// deterministic function of that module — hence of the text.  On
/// rejection, `ParseError::emit_to_string` and `WithSpan::emit_to_string`
/// render the diagnostic with its source location.
#[verifier::external_body]
fn check_wgsl(text: &str) -> (r: Option<CompileError>)
    ensures
        r is None <==> (wgsl_parses(text@) && wgsl_validates(text@)),
        r matches Some(CompileError::Parse(_)) <==> !wgsl_parses(text@),
        r matches Some(CompileError::Validation(_)) <==> (wgsl_parses(text@) && !wgsl_validates(text@)),
{
    let module = match naga::front::wgsl::parse_str(text) {
        Ok(module) => module,
        Err(e) => return Some(CompileError::Parse(e.emit_to_string(text))),
    };
    let mut validator = naga::valid::Validator::new(
        naga::valid::ValidationFlags::all(),
        naga::valid::Capabilities::all(),
    );
    match validator.validate(&module) {
        Ok(_) => None,
        Err(e) => Some(CompileError::Validation(e.emit_to_string(text))),
    }
}

/// A fragment program that passed the whole compile pipeline.  The
/// source text is fixed at construction; a reload never mutates a
/// program, it builds a new one and swaps.
#[derive(Debug)]
pub struct CompiledProgram {
    source: String,
}

impl View for CompiledProgram {
    type V = Seq<char>;

    closed spec fn view(&self) -> Seq<char> {
        self.source@
    }
}

impl CompiledProgram {
    /// A program is well-formed exactly when its text passed both the
    /// front end and the validator.
    pub open spec fn wf(&self) -> bool {
        wgsl_parses(self@) && wgsl_validates(self@)
    }

    /// The validated source text, as the graphics backend consumes it.
    pub fn source_text(&self) -> (r: &String)
        ensures
            r@ == self@,
    {
        &self.source
    }
}

/// Parse and validate `source`.  Returns a program exactly when both
/// steps accept the text; any rejection aborts the compile with the
/// step's diagnostic and constructs nothing.
pub fn compile(source: String) -> (r: Result<CompiledProgram, CompileError>)
    ensures
        r is Ok <==> wgsl_parses(source@) && wgsl_validates(source@),
        r matches Ok(p) ==> p@ == source@ && p.wf(),
        r matches Err(e) ==> (e matches CompileError::Parse(_) <==> !wgsl_parses(source@)),
        r matches Err(e) ==> (e matches CompileError::Validation(_) <==> wgsl_parses(source@)
            && !wgsl_validates(source@)),
{
    match check_wgsl(source.as_str()) {
        None => Ok(CompiledProgram { source }),
        Some(e) => Err(e),
    }
}

/// Whether a reload whose file read came back as `read` will yield a
/// program: the read must have succeeded and the text must parse and
/// validate.
pub open spec fn reload_accepts(read: Result<String, String>) -> bool {
    read matches Ok(t) && wgsl_parses(t@) && wgsl_validates(t@)
}

/// The whole compile pipeline from a file read already performed by the
/// caller: `read` is the text on success, or the I/O diagnostic on
/// failure.  Exactly one error variant answers each way the pipeline can
/// reject.
pub fn compile_from_read(read: Result<String, String>) -> (r: Result<
    CompiledProgram,
    CompileError,
>)
    ensures
        r is Ok <==> reload_accepts(read),
        r matches Ok(p) ==> read matches Ok(t) && p@ == t@ && p.wf(),
        r matches Err(e) ==> (e matches CompileError::Io(_) <==> read is Err),
        r matches Err(e) ==> (e matches CompileError::Parse(_) <==> (read matches Ok(t)
            && !wgsl_parses(t@))),
        r matches Err(e) ==> (e matches CompileError::Validation(_) <==> (read matches Ok(t)
            && wgsl_parses(t@) && !wgsl_validates(t@))),
{
    match read {
        Ok(text) => compile(text),
        Err(m) => Err(CompileError::Io(m)),
    }
}

} // verus!
