//! Value tags: the kind marker that every engine value carries.

use vstd::prelude::*;

verus! {

/// The kind of an engine value.
#[derive(PartialEq, Eq, Clone, Copy, Debug, Structural)]
pub enum JsTag {
    BigInt,
    Symbol,
    String,
    Module,
    FunctionBytecode,
    Object,
    Int,
    Bool,
    Null,
    Undefined,
    Uninitialized,
    CatchOffset,
    Exception,
    Float64,
}

/// The number that the engine build in use gives to each tag.
///
/// The numbers are part of the engine's binary interface, so the
/// embedding supplies them; the bridge only asks that no two tags
/// share a number.
#[derive(Clone, Copy, Debug)]
pub struct TagTable {
    pub big_int: i32,
    pub symbol: i32,
    pub string: i32,
    pub module: i32,
    pub function_bytecode: i32,
    pub object: i32,
    pub int: i32,
    pub bool: i32,
    pub null: i32,
    pub undefined: i32,
    pub uninitialized: i32,
    pub catch_offset: i32,
    pub exception: i32,
    pub float64: i32,
}

impl TagTable {
    /// The number of `tag` in this table.
    pub open spec fn number(&self, tag: JsTag) -> i32 {
        match tag {
            JsTag::BigInt => self.big_int,
            JsTag::Symbol => self.symbol,
            JsTag::String => self.string,
            JsTag::Module => self.module,
            JsTag::FunctionBytecode => self.function_bytecode,
            JsTag::Object => self.object,
            JsTag::Int => self.int,
            JsTag::Bool => self.bool,
            JsTag::Null => self.null,
            JsTag::Undefined => self.undefined,
            JsTag::Uninitialized => self.uninitialized,
            JsTag::CatchOffset => self.catch_offset,
            JsTag::Exception => self.exception,
            JsTag::Float64 => self.float64,
        }
    }

    /// No two tags share a number.
    pub open spec fn distinct(&self) -> bool {
        forall|a: JsTag, b: JsTag| self.number(a) == self.number(b) ==> a == b
    }

    /// Some tag has the number `raw`.
    pub open spec fn knows(&self, raw: i32) -> bool {
        exists|t: JsTag| self.number(t) == raw
    }

    /// Whether no two tags share a number.
    pub fn is_distinct(&self) -> (r: bool)
        ensures
            r == self.distinct(),
    {
        let all: [i32; 14] = [
            self.big_int,
            self.symbol,
            self.string,
            self.module,
            self.function_bytecode,
            self.object,
            self.int,
            self.bool,
            self.null,
            self.undefined,
            self.uninitialized,
            self.catch_offset,
            self.exception,
            self.float64,
        ];
        assert(forall|k: int| 0 <= k < 14 ==> all@[k] == self.number(#[trigger] JsTag::nth(k)));
        let mut i: usize = 0;
        while i < 14
            invariant
                i <= 14,
                forall|k: int| 0 <= k < 14 ==> all@[k] == self.number(#[trigger] JsTag::nth(k)),
                forall|k: int, l: int|
                    0 <= k < i && 0 <= l < 14 && #[trigger] all@[k] == #[trigger] all@[l] ==> k
                        == l,
            decreases 14 - i,
        {
            let mut j: usize = 0;
            while j < 14
                invariant
                    i < 14,
                    j <= 14,
                    forall|k: int| 0 <= k < 14 ==> all@[k] == self.number(#[trigger] JsTag::nth(k)),
                    forall|l: int| 0 <= l < j && all@[i as int] == #[trigger] all@[l] ==> i == l,
                decreases 14 - j,
            {
                if i != j && all[i] == all[j] {
                    assert(self.number(JsTag::nth(i as int)) == self.number(JsTag::nth(j as int)));
                    assert(JsTag::nth(i as int).ordinal() == i);
                    assert(JsTag::nth(j as int).ordinal() == j);
                    return false;
                }
                j += 1;
            }
            i += 1;
        }
        assert forall|a: JsTag, b: JsTag| self.number(a) == self.number(b) implies a == b by {
            assert(JsTag::nth(a.ordinal()) == a);
            assert(JsTag::nth(b.ordinal()) == b);
            assert(all@[a.ordinal()] == all@[b.ordinal()]);
        }
        true
    }
}

impl JsTag {
    /// The position of this tag in the order in which the tags are declared.
    pub open spec fn ordinal(self) -> int {
        match self {
            JsTag::BigInt => 0,
            JsTag::Symbol => 1,
            JsTag::String => 2,
            JsTag::Module => 3,
            JsTag::FunctionBytecode => 4,
            JsTag::Object => 5,
            JsTag::Int => 6,
            JsTag::Bool => 7,
            JsTag::Null => 8,
            JsTag::Undefined => 9,
            JsTag::Uninitialized => 10,
            JsTag::CatchOffset => 11,
            JsTag::Exception => 12,
            JsTag::Float64 => 13,
        }
    }

    /// The tag at position `k` of the declaration order.
    pub open spec fn nth(k: int) -> JsTag {
        if k == 0 {
            JsTag::BigInt
        } else if k == 1 {
            JsTag::Symbol
        } else if k == 2 {
            JsTag::String
        } else if k == 3 {
            JsTag::Module
        } else if k == 4 {
            JsTag::FunctionBytecode
        } else if k == 5 {
            JsTag::Object
        } else if k == 6 {
            JsTag::Int
        } else if k == 7 {
            JsTag::Bool
        } else if k == 8 {
            JsTag::Null
        } else if k == 9 {
            JsTag::Undefined
        } else if k == 10 {
            JsTag::Uninitialized
        } else if k == 11 {
            JsTag::CatchOffset
        } else if k == 12 {
            JsTag::Exception
        } else {
            JsTag::Float64
        }
    }

    /// The tag whose number in `table` is `raw`, if there is one.
    pub open spec fn of_number(table: TagTable, raw: i32) -> Option<JsTag> {
        if table.knows(raw) {
            Some(choose|t: JsTag| table.number(t) == raw)
        } else {
            None
        }
    }

    /// The number under which this tag is handed to the engine. `BigInt`
    /// goes out under the number of `FunctionBytecode`; every other tag
    /// under its own.
    pub open spec fn number_out(self, table: TagTable) -> i32 {
        match self {
            JsTag::BigInt => table.function_bytecode,
            other => table.number(other),
        }
    }

    /// Reads the tag that the engine wrote as the number `raw`.
    pub fn from_c(table: &TagTable, raw: i32) -> (r: Option<JsTag>)
        requires
            table.distinct(),
        ensures
            r == JsTag::of_number(*table, raw),
            r is Some <==> table.knows(raw),
            r matches Some(t) ==> table.number(t) == raw,
            forall|t: JsTag| #[trigger] table.number(t) == raw ==> r == Some(t),
    {
        let r = if raw == table.int {
            Some(JsTag::Int)
        } else if raw == table.bool {
            Some(JsTag::Bool)
        } else if raw == table.null {
            Some(JsTag::Null)
        } else if raw == table.module {
            Some(JsTag::Module)
        } else if raw == table.object {
            Some(JsTag::Object)
        } else if raw == table.string {
            Some(JsTag::String)
        } else if raw == table.symbol {
            Some(JsTag::Symbol)
        } else if raw == table.float64 {
            Some(JsTag::Float64)
        } else if raw == table.exception {
            Some(JsTag::Exception)
        } else if raw == table.undefined {
            Some(JsTag::Undefined)
        } else if raw == table.catch_offset {
            Some(JsTag::CatchOffset)
        } else if raw == table.uninitialized {
            Some(JsTag::Uninitialized)
        } else if raw == table.function_bytecode {
            Some(JsTag::FunctionBytecode)
        } else if raw == table.big_int {
            Some(JsTag::BigInt)
        } else {
            None
        };
        proof {
            match r {
                Some(t) => {
                    assert(table.number(t) == raw);
                    assert(table.knows(raw));
                },
                None => {
                    assert forall|t: JsTag| table.number(t) != raw by {
                        match t {
                            _ => {},
                        }
                    }
                },
            }
        }
        r
    }

    /// The number under which this tag is handed to the engine.
    pub fn to_c(self, table: &TagTable) -> (r: i32)
        ensures
            r == self.number_out(*table),
    {
        match self {
            JsTag::BigInt => table.function_bytecode,
            JsTag::Symbol => table.symbol,
            JsTag::String => table.string,
            JsTag::Module => table.module,
            JsTag::FunctionBytecode => table.function_bytecode,
            JsTag::Object => table.object,
            JsTag::Int => table.int,
            JsTag::Bool => table.bool,
            JsTag::Null => table.null,
            JsTag::Undefined => table.undefined,
            JsTag::Uninitialized => table.uninitialized,
            JsTag::CatchOffset => table.catch_offset,
            JsTag::Exception => table.exception,
            JsTag::Float64 => table.float64,
        }
    }

    /// The name of the tag.
    pub open spec fn spec_name(self) -> Seq<char> {
        match self {
            JsTag::BigInt => "BigInt"@,
            JsTag::Symbol => "Symbol"@,
            JsTag::String => "String"@,
            JsTag::Module => "Module"@,
            JsTag::FunctionBytecode => "FunctionBytecode"@,
            JsTag::Object => "Object"@,
            JsTag::Int => "Int"@,
            JsTag::Bool => "Bool"@,
            JsTag::Null => "Null"@,
            JsTag::Undefined => "Undefined"@,
            JsTag::Uninitialized => "Uninitialized"@,
            JsTag::CatchOffset => "CatchOffset"@,
            JsTag::Exception => "Exception"@,
            JsTag::Float64 => "Float64"@,
        }
    }

    /// The name of the tag.
    pub fn name(self) -> (r: &'static str)
        ensures
            r@ == self.spec_name(),
    {
        match self {
            JsTag::BigInt => "BigInt",
            JsTag::Symbol => "Symbol",
            JsTag::String => "String",
            JsTag::Module => "Module",
            JsTag::FunctionBytecode => "FunctionBytecode",
            JsTag::Object => "Object",
            JsTag::Int => "Int",
            JsTag::Bool => "Bool",
            JsTag::Null => "Null",
            JsTag::Undefined => "Undefined",
            JsTag::Uninitialized => "Uninitialized",
            JsTag::CatchOffset => "CatchOffset",
            JsTag::Exception => "Exception",
            JsTag::Float64 => "Float64",
        }
    }

    /// Values of this kind live in the engine's heap and are counted
    /// by reference; all other kinds are carried in the value itself.
    pub open spec fn spec_has_ref_count(self) -> bool {
        self is BigInt || self is Symbol || self is String || self is Module
            || self is FunctionBytecode || self is Object
    }

    /// Whether values of this kind are counted by reference.
    #[verifier::when_used_as_spec(spec_has_ref_count)]
    pub fn has_ref_count(self) -> (r: bool)
        ensures
            r == self.spec_has_ref_count(),
    {
        match self {
            JsTag::BigInt
            | JsTag::Symbol
            | JsTag::String
            | JsTag::Module
            | JsTag::FunctionBytecode
            | JsTag::Object => true,
            _ => false,
        }
    }

    /// Returns `true` if the tag is `Undefined`.
    pub fn is_undefined(&self) -> (r: bool)
        ensures
            r == (*self is Undefined),
    {
        matches!(self, JsTag::Undefined)
    }

    /// Returns `true` if the tag is `Object`.
    pub fn is_object(&self) -> (r: bool)
        ensures
            r == (*self is Object),
    {
        matches!(self, JsTag::Object)
    }

    /// Returns `true` if the tag is `Exception`.
    pub fn is_exception(&self) -> (r: bool)
        ensures
            r == (*self is Exception),
    {
        matches!(self, JsTag::Exception)
    }

    /// Returns `true` if the tag is `Int`.
    pub fn is_int(&self) -> (r: bool)
        ensures
            r == (*self is Int),
    {
        matches!(self, JsTag::Int)
    }

    /// Returns `true` if the tag is `Bool`.
    pub fn is_bool(&self) -> (r: bool)
        ensures
            r == (*self is Bool),
    {
        matches!(self, JsTag::Bool)
    }

    /// Returns `true` if the tag is `Null`.
    pub fn is_null(&self) -> (r: bool)
        ensures
            r == (*self is Null),
    {
        matches!(self, JsTag::Null)
    }

    /// Returns `true` if the tag is `Module`.
    pub fn is_module(&self) -> (r: bool)
        ensures
            r == (*self is Module),
    {
        matches!(self, JsTag::Module)
    }

    /// Returns `true` if the tag is `String`.
    pub fn is_string(&self) -> (r: bool)
        ensures
            r == (*self is String),
    {
        matches!(self, JsTag::String)
    }

    /// Returns `true` if the tag is `Symbol`.
    pub fn is_symbol(&self) -> (r: bool)
        ensures
            r == (*self is Symbol),
    {
        matches!(self, JsTag::Symbol)
    }

    /// Returns `true` if the tag is `BigInt`.
    pub fn is_big_int(&self) -> (r: bool)
        ensures
            r == (*self is BigInt),
    {
        matches!(self, JsTag::BigInt)
    }

    /// Returns `true` if the tag is `Float64`.
    pub fn is_float64(&self) -> (r: bool)
        ensures
            r == (*self is Float64),
    {
        matches!(self, JsTag::Float64)
    }
}

/// A tag that went out through `to_c` comes back through `from_c`
/// unchanged, for every tag but `BigInt`.
pub proof fn lemma_tag_round_trip(table: TagTable, tag: JsTag)
    requires
        table.distinct(),
        !(tag is BigInt),
    ensures
        JsTag::of_number(table, tag.number_out(table)) == Some(tag),
{
    assert(table.number(tag) == tag.number_out(table));
    assert(table.knows(tag.number_out(table)));
}

/// A number that `from_c` accepts goes out through `to_c` as itself,
/// unless it is the number of `BigInt`.
pub proof fn lemma_number_round_trip(table: TagTable, raw: i32)
    requires
        table.distinct(),
        table.knows(raw),
        raw != table.big_int,
    ensures
        JsTag::of_number(table, raw) matches Some(t) && t.number_out(table) == raw,
{
    let t = choose|t: JsTag| table.number(t) == raw;
    assert(!(t is BigInt));
}

} // verus!
