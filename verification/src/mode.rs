//! Mode selection: resolves the four mutually-exclusive command-line flags to
//! a pipeline mode, rejecting any combination that sets more than one of
//! them, and maps each mode to the stage after which the pipeline stops.

use vstd::prelude::*;
use crate::pipeline::PipelineError;
use crate::pipeline::Stage;

verus! {

/// How far the pipeline runs before stopping early. Exactly one mode is
/// active per run; when no flag asks for an early stop, the mode is `Full`.
#[derive(Clone, Copy, Debug, PartialEq, Eq, Structural)]
pub enum PipelineMode {
    LexOnly,
    ParseOnly,
    CodegenOnly,
    AssembleOnly,
    Full,
}

/// How many of the four mode flags are set.
pub open spec fn flags_set(lex: bool, parse: bool, codegen: bool, create_assembly: bool) -> int {
    (if lex { 1int } else { 0int }) + (if parse { 1int } else { 0int })
        + (if codegen { 1int } else { 0int }) + (if create_assembly { 1int } else { 0int })
}

/// The mode that a valid flag combination resolves to: the one set flag's
/// mode, or `Full` when none is set.
pub open spec fn mode_of_flags(lex: bool, parse: bool, codegen: bool, create_assembly: bool) -> PipelineMode {
    if lex {
        PipelineMode::LexOnly
    } else if parse {
        PipelineMode::ParseOnly
    } else if codegen {
        PipelineMode::CodegenOnly
    } else if create_assembly {
        PipelineMode::AssembleOnly
    } else {
        PipelineMode::Full
    }
}

/// The stage after which a run in `mode` stops: the pipeline reports that
/// stage's artifact and runs nothing later.
pub open spec fn spec_stop_after(mode: PipelineMode) -> Stage {
    match mode {
        PipelineMode::LexOnly => Stage::Preprocess,
        PipelineMode::ParseOnly => Stage::Preprocess,
        PipelineMode::CodegenOnly => Stage::Compile,
        PipelineMode::AssembleOnly => Stage::Compile,
        PipelineMode::Full => Stage::AssembleLink,
    }
}

/// Maps a mode to the stage after which the pipeline stops.
pub fn stop_after(mode: PipelineMode) -> (s: Stage)
    ensures
        s == spec_stop_after(mode),
{
    match mode {
        PipelineMode::LexOnly => Stage::Preprocess,
        PipelineMode::ParseOnly => Stage::Preprocess,
        PipelineMode::CodegenOnly => Stage::Compile,
        PipelineMode::AssembleOnly => Stage::Compile,
        PipelineMode::Full => Stage::AssembleLink,
    }
}

/// Validates the four mutually-exclusive mode flags and resolves them to a
/// mode: a combination with more than one flag set is a configuration error,
/// rejected before any stage runs; at most one set flag resolves to that
/// flag's mode, and no set flag resolves to `Full`.
pub fn select_mode(lex: bool, parse: bool, codegen: bool, create_assembly: bool) -> (r: Result<
    PipelineMode,
    PipelineError,
>)
    ensures
        r is Ok <==> flags_set(lex, parse, codegen, create_assembly) <= 1,
        r is Ok ==> r->Ok_0 == mode_of_flags(lex, parse, codegen, create_assembly),
        r is Err ==> r->Err_0 == PipelineError::Config,
{
    let mut count: u8 = 0;
    if lex {
        count = count + 1;
    }
    if parse {
        count = count + 1;
    }
    if codegen {
        count = count + 1;
    }
    if create_assembly {
        count = count + 1;
    }
    if count > 1 {
        Err(PipelineError::Config)
    } else if lex {
        Ok(PipelineMode::LexOnly)
    } else if parse {
        Ok(PipelineMode::ParseOnly)
    } else if codegen {
        Ok(PipelineMode::CodegenOnly)
    } else if create_assembly {
        Ok(PipelineMode::AssembleOnly)
    } else {
        Ok(PipelineMode::Full)
    }
}

} // verus!
