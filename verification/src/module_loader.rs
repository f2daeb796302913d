//! Loading modules: what the engine is told when the host was asked
//! for the source of a module, or for the full name of one.

use crate::errors::ExecutionError;
use crate::utils::{contains_zero, has_zero};
use crate::value::raw::RawJsValue;
use crate::value::value::OwnedJsValue;
use vstd::prelude::*;
use vstd::string::StringExecFns;
use vstd::string::StrSliceExecFns;
use vstd::string::StringSliceAdditionalSpecFns;

verus! {

/// What the engine is told at the end of a request to load a module.
#[derive(Debug, PartialEq, Eq)]
pub enum LoaderReply {
    /// The module was compiled: the engine gets the module that this
    /// value points to.
    Module(RawJsValue),
    /// The engine is asked to throw an internal error with this
    /// text, and gets no module. The text holds no zero character.
    Fail(String),
}

/// The text `text`, or a fixed text in its place where `text` holds
/// a zero character and so cannot be handed to the engine.
pub open spec fn throwable(text: Seq<char>) -> Seq<char> {
    if has_zero(text) {
        "module loading failed"@
    } else {
        text
    }
}

/// The text as it can be thrown.
fn as_throwable(text: String) -> (r: String)
    ensures
        r@ == throwable(text@),
        !has_zero(r@),
{
    proof {
        reveal_strlit("module loading failed");
        assert forall|i: int| 0 <= i < "module loading failed"@.len() implies "module loading failed"@[i]
            != '\0' by {
            let s = "module loading failed"@;
            assert(s =~= seq![
                'm',
                'o',
                'd',
                'u',
                'l',
                'e',
                ' ',
                'l',
                'o',
                'a',
                'd',
                'i',
                'n',
                'g',
                ' ',
                'f',
                'a',
                'i',
                'l',
                'e',
                'd',
            ]);
        }
    }
    if contains_zero(text.as_str()) {
        String::from_str("module loading failed")
    } else {
        text
    }
}

/// What follows the host's answer to a request for the source of a
/// module: its source is compiled next, its error is thrown.
pub fn js_module_loader_source(loaded: Result<String, String>) -> (r: Result<String, LoaderReply>)
    ensures
        match loaded {
            Ok(code) => r == Ok::<String, LoaderReply>(code),
            Err(text) => r matches Err(LoaderReply::Fail(t)) && t@ == throwable(text@),
        },
{
    match loaded {
        Ok(code) => Ok(code),
        Err(err) => Err(LoaderReply::Fail(as_throwable(err))),
    }
}

/// What the engine is told once the source of a module went
/// through the compiler: the module, or the compiler's error, thrown.
pub fn js_module_loader(compiled: Result<OwnedJsValue, ExecutionError>) -> (reply: LoaderReply)
    ensures
        match compiled {
            Ok(v) => reply == LoaderReply::Module(v.spec_inner()),
            Err(e) => reply matches LoaderReply::Fail(t) && t@ == throwable(e.message()),
        },
{
    match compiled {
        Ok(v) => LoaderReply::Module(v.extract()),
        Err(e) => LoaderReply::Fail(as_throwable(e.to_string())),
    }
}

/// What the engine is told at the end of a request for the full
/// name of a module.
#[derive(Debug, PartialEq, Eq)]
pub enum NormalizeReply {
    /// No function for names was registered: the engine gets no name.
    NotSet,
    /// The name, as the bytes of a C string: the engine gets a
    /// copy of them in memory of its own.
    Name(Vec<u8>),
    /// The engine is asked to throw an internal error with this
    /// text, and gets no name. The text holds no zero character.
    Fail(String),
}

/// What the engine is told once the host was asked for the full
/// name of a module: the name with a closing zero byte, or the
/// host's error, thrown.
pub fn js_module_normalize(normalized: Option<Result<String, String>>) -> (reply: NormalizeReply)
    ensures
        match normalized {
            None => reply is NotSet,
            Some(Ok(name)) => reply matches NormalizeReply::Name(bytes) && bytes@
                == vstd::utf8::encode_utf8(name@).push(0u8),
            Some(Err(text)) => reply matches NormalizeReply::Fail(t) && t@ == throwable(text@),
        },
{
    match normalized {
        None => NormalizeReply::NotSet,
        Some(Ok(name)) => {
            let mut bytes = name.as_str().as_bytes_vec();
            bytes.push(0u8);
            NormalizeReply::Name(bytes)
        },
        Some(Err(err)) => NormalizeReply::Fail(as_throwable(err)),
    }
}

} // verus!
