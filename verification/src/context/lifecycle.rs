//! The life of a context: what the engine is asked when a context is
//! made, reset and dropped.

use crate::errors::ContextError;
use vstd::prelude::*;

verus! {

/// What the engine, or the context itself, is asked to do.
#[derive(Debug, Clone, Copy, PartialEq, Eq, Structural)]
pub enum EngineCommand {
    NewRuntime,
    /// Set the ceiling on the runtime's memory, in bytes.
    SetMemoryLimit(usize),
    NewContext,
    FreeContext,
    FreeRuntime,
    /// Drop every closure that was registered as a callback.
    ClearCallbacks,
}

/// What follows the making of the runtime: nothing but an error
/// where the engine gave none, else the memory limit, if one is
/// wanted, and then the making of the context.
pub fn on_runtime(created: bool, memory_limit: Option<usize>) -> (r: Result<
    Vec<EngineCommand>,
    ContextError,
>)
    ensures
        r is Ok <==> created,
        r matches Err(e) ==> e matches ContextError::RuntimeCreationFailed,
        r matches Ok(cmds) ==> cmds@ == (match memory_limit {
            Some(limit) => seq![EngineCommand::SetMemoryLimit(limit), EngineCommand::NewContext],
            None => seq![EngineCommand::NewContext],
        }),
{
    if !created {
        return Err(ContextError::RuntimeCreationFailed);
    }
    let mut cmds: Vec<EngineCommand> = Vec::new();
    if let Some(limit) = memory_limit {
        cmds.push(EngineCommand::SetMemoryLimit(limit));
    }
    cmds.push(EngineCommand::NewContext);
    proof {
        match memory_limit {
            Some(limit) => assert(cmds@ =~= seq![
                EngineCommand::SetMemoryLimit(limit),
                EngineCommand::NewContext,
            ]),
            None => assert(cmds@ =~= seq![EngineCommand::NewContext]),
        }
    }
    Ok(cmds)
}

/// What follows the making of the context: where the engine gave
/// none, the runtime is freed and the making has failed.
pub fn on_context(created: bool) -> (r: Result<(), (ContextError, EngineCommand)>)
    ensures
        r is Ok <==> created,
        r matches Err(e) ==> e.0 matches ContextError::ContextCreationFailed && e.1
            == EngineCommand::FreeRuntime,
{
    if created {
        Ok(())
    } else {
        Err((ContextError::ContextCreationFailed, EngineCommand::FreeRuntime))
    }
}

/// What a reset asks for, in order: the context is freed, the
/// callbacks go, and a new context is made in the same runtime.
pub fn reset() -> (cmds: Vec<EngineCommand>)
    ensures
        cmds@ == seq![
            EngineCommand::FreeContext,
            EngineCommand::ClearCallbacks,
            EngineCommand::NewContext,
        ],
{
    let mut cmds: Vec<EngineCommand> = Vec::new();
    cmds.push(EngineCommand::FreeContext);
    cmds.push(EngineCommand::ClearCallbacks);
    cmds.push(EngineCommand::NewContext);
    assert(cmds@ =~= seq![
        EngineCommand::FreeContext,
        EngineCommand::ClearCallbacks,
        EngineCommand::NewContext,
    ]);
    cmds
}

/// What follows the making of the new context in a reset.
pub fn on_reset_context(created: bool) -> (r: Result<(), ContextError>)
    ensures
        r is Ok <==> created,
        r matches Err(e) ==> e matches ContextError::ContextCreationFailed,
{
    if created {
        Ok(())
    } else {
        Err(ContextError::ContextCreationFailed)
    }
}

/// What the end of a context asks for, in order: the context is
/// freed first, the runtime after it.
pub fn drop_commands() -> (cmds: Vec<EngineCommand>)
    ensures
        cmds@ == seq![EngineCommand::FreeContext, EngineCommand::FreeRuntime],
{
    let mut cmds: Vec<EngineCommand> = Vec::new();
    cmds.push(EngineCommand::FreeContext);
    cmds.push(EngineCommand::FreeRuntime);
    assert(cmds@ =~= seq![EngineCommand::FreeContext, EngineCommand::FreeRuntime]);
    cmds
}

} // verus!
