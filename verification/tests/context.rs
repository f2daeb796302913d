use quickjs_rusty::callback::{
    callback_reply, check_argument_count, custom_callback_reply, exec_callback, own_arguments,
    Arguments, CallbackOutcome, CallbackRegistry, CallbackReply, CustomOutcome,
};
use quickjs_rusty::compile::{compile, compile_module, from_bytecode, run_compiled_function, to_bytecode};
use quickjs_rusty::console::{console_write, ConsoleBackend, Level, LogConsole, LogLevel};
use quickjs_rusty::context::eval::{call_function, eval, eval_module, execute_pending_job, global, run_module};
use quickjs_rusty::context::lifecycle::{drop_commands, on_context, on_reset_context, on_runtime, reset};
use quickjs_rusty::context::{
    ContextMove, ContextState, ensure_no_excpetion, get_exception, resolve_start, resolve_step, ContextBuilder, EngineCommand,
    EvalMode, JobStep, PendingException, ResolveAction, ResolveEvent, ResolveState,
};
use quickjs_rusty::module_loader::{
    js_module_loader, js_module_loader_source, js_module_normalize, LoaderReply, NormalizeReply,
};
use quickjs_rusty::utils::{contains, create_int, create_undefined, decimal, make_cstring};
use quickjs_rusty::value::{Heap, HeapCell, OwnedJsObject, OwnedJsValue, Payload, Property, RawJsValue, RefOp};
use quickjs_rusty::{ContextError, ExecutionError, JsTag, ValueError};

fn object(place: usize) -> RawJsValue {
    RawJsValue { tag: JsTag::Object, payload: Payload::Ptr(place) }
}

#[test]
fn a_plain_value_resolves_to_itself() {
    let v = OwnedJsValue::new(1, create_int(5));
    let (state, action) = resolve_start(v);
    assert_eq!(state, ResolveState::Finished);
    assert_eq!(
        action,
        ResolveAction::Finish(Ok(OwnedJsValue::new(1, create_int(5))), None)
    );
}

#[test]
fn a_fulfilled_promise_resolves_to_its_value() {
    let promise = OwnedJsValue::new(1, object(9));
    let (state, action) = resolve_start(promise);
    assert_eq!(action, ResolveAction::CheckThenable(object(9)));
    let (state, action) = resolve_step(state, ResolveEvent::Thenable(Ok(true)));
    assert_eq!(action, ResolveAction::InstallResolver(OwnedJsValue::new(1, object(9))));
    let (state, action) = resolve_step(state, ResolveEvent::Installed(Ok(())));
    assert_eq!(action, ResolveAction::RunJob);
    let (state, action) = resolve_step(state, ResolveEvent::JobRan(1));
    assert_eq!(action, ResolveAction::ReadResultSlot);
    let (state, action) = resolve_step(state, ResolveEvent::Slot(Ok(None)));
    assert_eq!(action, ResolveAction::RunJob);
    let (state, action) = resolve_step(state, ResolveEvent::JobRan(1));
    assert_eq!(action, ResolveAction::ReadResultSlot);
    let (state, action) = resolve_step(state, ResolveEvent::Slot(Ok(Some(true))));
    assert_eq!(state, ResolveState::AwaitValue(true));
    assert_eq!(action, ResolveAction::ReadValueSlot);
    let (state, action) =
        resolve_step(state, ResolveEvent::Value(Ok(OwnedJsValue::new(1, create_int(123)))));
    assert_eq!(state, ResolveState::Finished);
    match action {
        ResolveAction::Finish(Ok(v), None) => {
            assert!(v.is_int());
            assert_eq!(v.to_int(), Ok(123));
            assert!(!v.is_object());
        }
        other => panic!("unexpected action {:?}", other),
    }
}

#[test]
fn a_rejected_promise_resolves_to_an_exception_with_its_reason() {
    let (state, _) = resolve_start(OwnedJsValue::new(1, object(2)));
    let (state, _) = resolve_step(state, ResolveEvent::Thenable(Ok(true)));
    let (state, _) = resolve_step(state, ResolveEvent::Installed(Ok(())));
    let (state, _) = resolve_step(state, ResolveEvent::JobRan(1));
    let (state, action) = resolve_step(state, ResolveEvent::Slot(Ok(Some(false))));
    assert_eq!(action, ResolveAction::ReadValueSlot);
    let reason = RawJsValue { tag: JsTag::String, payload: Payload::Ptr(4) };
    let (state, action) =
        resolve_step(state, ResolveEvent::Value(Ok(OwnedJsValue::new(1, reason))));
    assert_eq!(state, ResolveState::AwaitText);
    assert_eq!(action, ResolveAction::Stringify(OwnedJsValue::new(1, reason)));
    let (state, action) = resolve_step(state, ResolveEvent::Text(Ok("boom".to_string())));
    assert_eq!(state, ResolveState::Finished);
    match action {
        ResolveAction::Finish(Err(e), None) => {
            assert_eq!(e, ExecutionError::Exception("boom".to_string()));
            assert!(e.to_string().contains("boom"));
        }
        other => panic!("unexpected action {:?}", other),
    }
}

#[test]
fn a_promise_that_settles_to_a_promise_is_awaited_again() {
    let (state, _) = resolve_start(OwnedJsValue::new(1, object(2)));
    let (state, _) = resolve_step(state, ResolveEvent::Thenable(Ok(true)));
    let (state, _) = resolve_step(state, ResolveEvent::Installed(Ok(())));
    let (state, _) = resolve_step(state, ResolveEvent::JobRan(1));
    let (state, _) = resolve_step(state, ResolveEvent::Slot(Ok(Some(true))));
    let (state, action) =
        resolve_step(state, ResolveEvent::Value(Ok(OwnedJsValue::new(1, object(3)))));
    assert_eq!(state, ResolveState::AwaitThenable(OwnedJsValue::new(1, object(3))));
    assert_eq!(action, ResolveAction::CheckThenable(object(3)));
}

#[test]
fn an_object_that_is_no_promise_resolves_to_itself() {
    let (state, _) = resolve_start(OwnedJsValue::new(1, object(2)));
    let (state, action) = resolve_step(state, ResolveEvent::Thenable(Ok(false)));
    assert_eq!(state, ResolveState::Finished);
    assert_eq!(action, ResolveAction::Finish(Ok(OwnedJsValue::new(1, object(2))), None));
}

#[test]
fn the_marker_of_an_exception_resolves_to_the_exception() {
    let (state, action) = resolve_start(OwnedJsValue::new(1, RawJsValue::exception()));
    assert_eq!(state, ResolveState::AwaitException);
    assert_eq!(action, ResolveAction::FetchException);
    let e = ExecutionError::Exception("Error: My Error".to_string());
    let (_, action) = resolve_step(state, ResolveEvent::Exception(Some(e)));
    assert_eq!(
        action,
        ResolveAction::Finish(Err(ExecutionError::Exception("Error: My Error".to_string())), None)
    );
    let (state, _) = resolve_start(OwnedJsValue::new(1, RawJsValue::exception()));
    let (_, action) = resolve_step(state, ResolveEvent::Exception(None));
    assert_eq!(
        action,
        ResolveAction::Finish(Err(ExecutionError::Internal("Unknown exception".to_string())), None)
    );
}

#[test]
fn a_job_that_throws_ends_the_awaiting() {
    let (state, _) = resolve_start(OwnedJsValue::new(1, object(2)));
    let (state, _) = resolve_step(state, ResolveEvent::Thenable(Ok(true)));
    let (state, _) = resolve_step(state, ResolveEvent::Installed(Ok(())));
    let (state, action) = resolve_step(state, ResolveEvent::JobRan(-1));
    assert_eq!(state, ResolveState::AwaitException);
    assert_eq!(action, ResolveAction::FetchException);
}

#[test]
fn an_answer_out_of_step_releases_what_is_held() {
    let (state, _) = resolve_start(OwnedJsValue::new(1, object(2)));
    let (state, action) = resolve_step(state, ResolveEvent::JobRan(0));
    assert_eq!(state, ResolveState::Finished);
    assert_eq!(
        action,
        ResolveAction::Finish(
            Err(ExecutionError::Internal("Resolver out of step".to_string())),
            Some(RefOp::Free(object(2)))
        )
    );
    let (_, action) = resolve_step(ResolveState::Finished, ResolveEvent::JobRan(0));
    assert_eq!(
        action,
        ResolveAction::Finish(
            Err(ExecutionError::Internal("Resolver out of step".to_string())),
            None
        )
    );
}

#[test]
fn a_failed_check_releases_the_object() {
    let (state, _) = resolve_start(OwnedJsValue::new(1, object(2)));
    let e = ExecutionError::Internal("Exception while getting property 'then'".to_string());
    let (_, action) = resolve_step(state, ResolveEvent::Thenable(Err(e)));
    match action {
        ResolveAction::Finish(Err(_), Some(op)) => assert_eq!(op, RefOp::Free(object(2))),
        other => panic!("unexpected action {:?}", other),
    }
}

#[test]
fn out_of_memory_is_told_by_its_text() {
    let pending = PendingException::Text(Ok("InternalError: out of memory".to_string()));
    assert_eq!(get_exception(pending), Some(ExecutionError::OutOfMemory));
    let pending = PendingException::Text(Ok("ReferenceError: x is not defined".to_string()));
    assert_eq!(
        get_exception(pending),
        Some(ExecutionError::Exception("ReferenceError: x is not defined".to_string()))
    );
    assert_eq!(get_exception(PendingException::Nothing), None);
    assert_eq!(
        get_exception(PendingException::Unreadable),
        Some(ExecutionError::Internal("Could get exception from runtime".to_string()))
    );
    let inner = ExecutionError::Internal("Could not convert value to string".to_string());
    assert_eq!(
        get_exception(PendingException::Text(Err(inner))),
        Some(ExecutionError::Internal("Could not convert value to string".to_string()))
    );
    assert_eq!(ensure_no_excpetion(PendingException::Nothing), Ok(()));
    assert_eq!(
        ensure_no_excpetion(PendingException::Text(Ok("out of memory".to_string()))),
        Err(ExecutionError::OutOfMemory)
    );
}

#[test]
fn contains_finds_a_text_anywhere() {
    assert!(contains("out of memory", "out of memory"));
    assert!(contains("xx out of memory yy", "out of memory"));
    assert!(!contains("out of memor", "out of memory"));
    assert!(!contains("", "a"));
    assert!(contains("abc", ""));
    assert!(contains("héllo wörld", "wör"));
    assert!(!contains("abcabd", "abe"));
    assert!(contains("aab", "ab"));
}

#[test]
fn a_call_with_the_wrong_number_of_arguments_is_an_error_that_names_both() {
    assert_eq!(check_argument_count(2, 2), Ok(()));
    assert_eq!(
        check_argument_count(2, 1),
        Err("Invalid argument count: Expected 2, got 1".to_string())
    );
    assert_eq!(
        check_argument_count(0, 12),
        Err("Invalid argument count: Expected 0, got 12".to_string())
    );
    let text = check_argument_count(2, 1).unwrap_err();
    let result = exec_callback(CallbackOutcome::Returned(Ok(Err(text))));
    assert_eq!(
        result,
        Err(ExecutionError::Exception(
            "Invalid argument count: Expected 2, got 1".to_string()
        ))
    );
    let reply = callback_reply(result);
    assert_eq!(
        reply,
        CallbackReply::Throw("Invalid argument count: Expected 2, got 1".to_string())
    );
    assert_eq!(reply.returned(), RawJsValue::exception());
}

#[test]
fn a_panic_in_a_callback_is_contained() {
    let result = exec_callback(CallbackOutcome::Panicked);
    assert_eq!(result, Err(ExecutionError::Internal("Callback panicked!".to_string())));
    let reply = callback_reply(result);
    assert_eq!(reply, CallbackReply::Throw("Internal error: Callback panicked!".to_string()));
    assert_eq!(
        custom_callback_reply(CustomOutcome::Panicked),
        CallbackReply::Throw("Callback panicked!".to_string())
    );
    let (state, action) = resolve_start(OwnedJsValue::new(1, create_int(1)));
    assert_eq!(state, ResolveState::Finished);
    assert!(matches!(action, ResolveAction::Finish(Ok(_), None)));
}

#[test]
fn a_callback_adds_its_arguments() {
    let raws = vec![create_int(3), create_int(4)];
    let (args, ops) = own_arguments(1, &raws);
    assert_eq!(ops, vec![RefOp::Dup(create_int(3)), RefOp::Dup(create_int(4))]);
    assert_eq!(check_argument_count(2, args.len()), Ok(()));
    let args = Arguments(args).into_vec();
    let sum = args[0].to_int().unwrap() + args[1].to_int().unwrap();
    let outcome = CallbackOutcome::Returned(Ok(Ok(OwnedJsValue::new(1, create_int(sum)))));
    let reply = callback_reply(exec_callback(outcome));
    assert_eq!(reply, CallbackReply::Return(create_int(7)));
    assert_eq!(reply.returned(), create_int(7));
}

#[test]
fn callback_outcomes() {
    let r = exec_callback(CallbackOutcome::Returned(Err(ValueError::UnexpectedType)));
    assert_eq!(
        format!("{:?}", r),
        format!("{:?}", Err::<RawJsValue, _>(ExecutionError::Conversion(ValueError::UnexpectedType)))
    );
    assert_eq!(
        callback_reply(r),
        CallbackReply::Throw("Could not convert - received unexpected type".to_string())
    );
    assert_eq!(
        custom_callback_reply(CustomOutcome::Returned(Ok(Some(create_int(1))))),
        CallbackReply::Return(create_int(1))
    );
    assert_eq!(
        custom_callback_reply(CustomOutcome::Returned(Ok(None))),
        CallbackReply::Return(create_undefined())
    );
    assert_eq!(
        custom_callback_reply(CustomOutcome::Returned(Err("no".to_string()))),
        CallbackReply::Throw("no".to_string())
    );
}

#[test]
fn the_registry_only_grows_until_it_is_cleared() {
    let mut registry: CallbackRegistry<&'static str> = CallbackRegistry::new();
    assert_eq!(registry.len(), 0);
    assert_eq!(registry.push("first"), 0);
    assert_eq!(registry.push("second"), 1);
    assert_eq!(registry.get(0), Some(&"first"));
    assert_eq!(registry.get(1), Some(&"second"));
    assert_eq!(registry.get(2), None);
    registry.clear();
    assert_eq!(registry.len(), 0);
}

#[test]
fn a_global_can_be_set_and_read() {
    let mut heap = Heap::new();
    let g = heap.store(HeapCell::Object(vec![]));
    let globals = global(OwnedJsValue::new(1, g)).unwrap();
    let (r, op) = globals.set_property(&mut heap, "x", OwnedJsValue::new(1, create_int(42)));
    assert_eq!(r, Ok(()));
    assert_eq!(op, None);
    let x = globals.property_require(&heap, "x").unwrap();
    assert_eq!(x.to_int(), Ok(42));
    assert!(global(OwnedJsValue::new(1, create_int(1))).is_err());
}

#[test]
fn a_global_function_is_found_by_name() {
    let mut heap = Heap::new();
    let f = heap.store(HeapCell::Function);
    let g = heap.store(HeapCell::Object(vec![
        Property { key: "f".to_string(), value: f },
        Property { key: "n".to_string(), value: create_int(1) },
    ]));
    let globals = OwnedJsObject::try_from_value(OwnedJsValue::new(1, g)).unwrap();
    let found = call_function(&heap, &globals, "f").unwrap();
    assert_eq!(found.into_value().as_inner(), f);
    assert!(call_function(&heap, &globals, "n").is_err());
    assert_eq!(
        call_function(&heap, &globals, "missing").unwrap_err(),
        ExecutionError::Internal("Property 'missing' not found".to_string())
    );
}

#[test]
fn code_with_a_zero_byte_is_refused() {
    let req = eval("1 + 2").unwrap();
    assert_eq!(req.filename, "script.js");
    assert_eq!(req.mode, EvalMode::Global);
    let req = eval_module("import 'a'").unwrap();
    assert_eq!(req.filename, "module.js");
    assert_eq!(req.mode, EvalMode::Module);
    assert_eq!(
        eval("1 + \0 2").unwrap_err(),
        ExecutionError::Conversion(ValueError::StringWithZeroBytes)
    );
    assert!(run_module("a.js").is_ok());
    assert!(run_module("a\0.js").is_err());
    assert_eq!(compile("1", "f.es").unwrap().mode, EvalMode::CompileOnly);
    assert_eq!(compile_module("1", "f.es").unwrap().mode, EvalMode::ModuleCompileOnly);
    assert!(compile("1", "f\0.es").is_err());
    assert_eq!(make_cstring("abc"), Ok(()));
    assert_eq!(make_cstring("a\0c"), Err(ValueError::StringWithZeroBytes));
}

#[test]
fn the_queue_is_drained_until_it_is_empty_or_throws() {
    assert_eq!(execute_pending_job(1), JobStep::Again);
    assert_eq!(execute_pending_job(0), JobStep::Stop);
    assert_eq!(execute_pending_job(-1), JobStep::CheckException);
}

#[test]
fn the_life_of_a_context() {
    assert!(matches!(on_runtime(false, Some(1)), Err(ContextError::RuntimeCreationFailed)));
    assert_eq!(
        on_runtime(true, Some(100_000)).unwrap(),
        vec![EngineCommand::SetMemoryLimit(100_000), EngineCommand::NewContext]
    );
    assert_eq!(on_runtime(true, None).unwrap(), vec![EngineCommand::NewContext]);
    assert!(on_context(true).is_ok());
    match on_context(false) {
        Err((ContextError::ContextCreationFailed, cmd)) => {
            assert_eq!(cmd, EngineCommand::FreeRuntime)
        }
        other => panic!("unexpected {:?}", other),
    }
    assert_eq!(
        reset(),
        vec![
            EngineCommand::FreeContext,
            EngineCommand::ClearCallbacks,
            EngineCommand::NewContext
        ]
    );
    assert!(on_reset_context(true).is_ok());
    assert!(matches!(on_reset_context(false), Err(ContextError::ContextCreationFailed)));
    assert_eq!(
        drop_commands(),
        vec![EngineCommand::FreeContext, EngineCommand::FreeRuntime]
    );
}

struct Quiet;

impl ConsoleBackend for Quiet {
    fn log(&self, _level: Level, _values: Vec<OwnedJsValue>) {}
}

#[test]
fn the_builder_collects_the_settings() {
    let (limit, console) = ContextBuilder::new().into_parts();
    assert_eq!(limit, None);
    assert!(console.is_none());
    let (limit, console) = ContextBuilder::new().memory_limit(100_000).into_parts();
    assert_eq!(limit, Some(100_000));
    assert!(console.is_none());
    let (limit, console) = ContextBuilder::new().console(Quiet).memory_limit(5).into_parts();
    assert_eq!(limit, Some(5));
    assert!(console.is_some());
}

#[test]
fn console_levels() {
    assert_eq!(Level::parse("trace"), Some(Level::Trace));
    assert_eq!(Level::parse("debug"), Some(Level::Debug));
    assert_eq!(Level::parse("log"), Some(Level::Log));
    assert_eq!(Level::parse("info"), Some(Level::Info));
    assert_eq!(Level::parse("warn"), Some(Level::Warn));
    assert_eq!(Level::parse("error"), Some(Level::Error));
    assert_eq!(Level::parse("Error"), None);
    assert_eq!(Level::parse(""), None);
    assert_eq!(Level::Warn.to_string(), "warn");
    assert_eq!(Level::Log.name(), "log");
    assert_eq!(LogConsole::log_level(Level::Log), LogLevel::Info);
    assert_eq!(LogConsole::log_level(Level::Trace), LogLevel::Trace);
    assert_eq!(LogConsole::log_level(Level::Error), LogLevel::Error);
    assert_eq!(console_write(Some("warn"), 2), Some(Level::Warn));
    assert_eq!(console_write(Some("warn"), 1), None);
    assert_eq!(console_write(Some("shout"), 3), None);
    assert_eq!(console_write(None, 3), None);
}

#[test]
fn the_log_console_joins_its_values() {
    let console = LogConsole;
    assert_eq!(console.log(Level::Info, &vec![]), None);
    assert_eq!(
        console.log(Level::Log, &vec!["1".to_string()]),
        Some((LogLevel::Info, "1".to_string()))
    );
    assert_eq!(
        console.log(Level::Warn, &vec!["a".to_string(), "\"b\"".to_string(), "3".to_string()]),
        Some((LogLevel::Warn, "a \"b\" 3".to_string()))
    );
}

#[test]
fn numbers_are_written_in_decimal() {
    assert_eq!(decimal(0), "0");
    assert_eq!(decimal(7), "7");
    assert_eq!(decimal(10), "10");
    assert_eq!(decimal(1234567890), "1234567890");
    assert_eq!(decimal(usize::MAX), usize::MAX.to_string());
}

#[test]
fn module_loading() {
    assert_eq!(js_module_loader_source(Ok("export {}".to_string())), Ok("export {}".to_string()));
    assert_eq!(
        js_module_loader_source(Err("no such module".to_string())),
        Err(LoaderReply::Fail("no such module".to_string()))
    );
    assert_eq!(
        js_module_loader_source(Err("bad\0text".to_string())),
        Err(LoaderReply::Fail("module loading failed".to_string()))
    );
    let module = RawJsValue { tag: JsTag::Module, payload: Payload::Ptr(77) };
    assert_eq!(
        js_module_loader(Ok(OwnedJsValue::new(1, module))),
        LoaderReply::Module(module)
    );
    assert_eq!(
        js_module_loader(Err(ExecutionError::Exception("SyntaxError: x".to_string()))),
        LoaderReply::Fail("SyntaxError: x".to_string())
    );
    assert_eq!(js_module_normalize(None), NormalizeReply::NotSet);
    assert_eq!(
        js_module_normalize(Some(Ok("./a.js".to_string()))),
        NormalizeReply::Name(b"./a.js\0".to_vec())
    );
    assert_eq!(
        js_module_normalize(Some(Err("nope".to_string()))),
        NormalizeReply::Fail("nope".to_string())
    );
}

#[test]
fn bytecode_answers() {
    let f = RawJsValue { tag: JsTag::FunctionBytecode, payload: Payload::Ptr(5) };
    assert_eq!(
        from_bytecode(OwnedJsValue::new(1, f), PendingException::Nothing),
        Ok(OwnedJsValue::new(1, f))
    );
    assert_eq!(
        from_bytecode(OwnedJsValue::new(1, RawJsValue::exception()), PendingException::Nothing),
        Err(ExecutionError::Internal(
            "from_bytecode failed and could not get exception".to_string()
        ))
    );
    assert_eq!(
        from_bytecode(
            OwnedJsValue::new(1, RawJsValue::exception()),
            PendingException::Text(Ok("SyntaxError: bad".to_string()))
        ),
        Err(ExecutionError::Exception("SyntaxError: bad".to_string()))
    );
    let (r, op) = run_compiled_function(OwnedJsValue::new(1, create_int(35)), PendingException::Nothing);
    assert_eq!(r, Ok(OwnedJsValue::new(1, create_int(35))));
    assert_eq!(op, None);
    let (r, op) = run_compiled_function(
        OwnedJsValue::new(1, f),
        PendingException::Text(Err(ExecutionError::Internal("boom".to_string()))),
    );
    assert_eq!(
        r,
        Err(ExecutionError::Internal(
            "Could not evaluate compiled function: boom".to_string()
        ))
    );
    assert_eq!(op, Some(RefOp::Free(f)));
    assert_eq!(to_bytecode(&[1, 2, 3]), vec![1, 2, 3]);
}

#[test]
fn error_texts() {
    assert_eq!(
        ExecutionError::InputWithZeroBytes.to_string(),
        "Invalid script input: code contains zero byte (\\0)"
    );
    assert_eq!(ExecutionError::Internal("x".to_string()).to_string(), "Internal error: x");
    assert_eq!(ExecutionError::Exception("Error: y".to_string()).to_string(), "Error: y");
    assert_eq!(
        ExecutionError::OutOfMemory.to_string(),
        "Out of memory: runtime memory limit exceeded"
    );
    assert_eq!(
        ExecutionError::from(ValueError::BigIntOverflow).to_string(),
        "BigInt overflowed"
    );
    assert_eq!(ContextError::RuntimeCreationFailed.to_string(), "Could not create runtime");
    assert_eq!(ContextError::ContextCreationFailed.to_string(), "Could not create context");
    assert_eq!(
        ContextError::Execution(ExecutionError::OutOfMemory).to_string(),
        "Out of memory: runtime memory limit exceeded"
    );
    assert_eq!(ValueError::StringWithZeroBytes.to_string(), "String contains \\0 bytes");
    assert_eq!(
        ValueError::Internal("z".to_string()).to_string(),
        "Value conversion failed - internal error: z"
    );
    assert_eq!(ValueError::UnexpectedType.duplicate(), ValueError::UnexpectedType);
    assert_eq!(
        ExecutionError::Internal("Exception".to_string()),
        ExecutionError::Internal("Exception".to_string())
    );
    assert_ne!(ExecutionError::OutOfMemory, ExecutionError::InputWithZeroBytes);
}

#[test]
fn the_states_of_a_context() {
    let s = ContextState::Created;
    let s = s.after(ContextMove::Enter).unwrap();
    assert_eq!(s, ContextState::Evaluating { depth: 1 });
    let nested = s.after(ContextMove::Enter).unwrap();
    assert_eq!(nested, ContextState::Evaluating { depth: 2 });
    assert_eq!(nested.after(ContextMove::Reset), None);
    assert_eq!(nested.after(ContextMove::Drop), None);
    let s = nested.after(ContextMove::Leave).unwrap();
    let s = s.after(ContextMove::Leave).unwrap();
    assert_eq!(s, ContextState::Idle);
    assert_eq!(s.after(ContextMove::Leave), None);
    assert_eq!(s.after(ContextMove::Reset), Some(ContextState::Created));
    let s = s.after(ContextMove::Drop).unwrap();
    assert_eq!(s, ContextState::Dropped);
    assert_eq!(s.after(ContextMove::Enter), None);
    assert_eq!(s.after(ContextMove::Reset), None);
    assert_eq!(s.after(ContextMove::Drop), None);
}
