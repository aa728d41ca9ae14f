//! The table function itself: what the host calls, in the order
//! bind, init, init_local (once per worker), then func until a batch of
//! length zero comes back.

use vstd::prelude::*;
use vstd::string::*;
use vstd::utf8::*;
use crate::error::HelloError;
use crate::state::{BindView, HelloBindData, HelloGlobalData, HelloLocalData};
use crate::text::{greeting, has_nul, render_greeting};

verus! {

/// The column types that the function's signature and schema speak of.
#[derive(Clone, Copy, Debug, PartialEq, Eq, Structural)]
pub enum ColumnType {
    /// Variable-length text.
    Varchar,
    /// A 64-bit signed integer.
    Bigint,
}

/// One column of the result schema.
#[derive(Debug)]
pub struct ResultColumn {
    pub name: String,
    pub logical_type: ColumnType,
}

/// The table function `hello`.
pub struct HelloVTab;

/// The name under which the function is registered: `hello`.
pub open spec fn function_name() -> Seq<char> {
    seq!['h', 'e', 'l', 'l', 'o']
}

/// The name of the optional named argument: `count`.
pub open spec fn count_parameter_name() -> Seq<char> {
    seq!['c', 'o', 'u', 'n', 't']
}

/// The name of the single result column: `greetings`.
pub open spec fn result_column_name() -> Seq<char> {
    seq!['g', 'r', 'e', 'e', 't', 'i', 'n', 'g', 's']
}

/// The number of rows asked for: the named argument where it is given and
/// fits the unsigned counter, 1 where it is absent, nothing otherwise.
pub open spec fn requested_rows(count: Option<i64>) -> Option<u32> {
    match count {
        None => Some(1u32),
        Some(c) => if 0 <= c <= u32::MAX {
            Some(c as u32)
        } else {
            None
        },
    }
}

/// What bind makes of its arguments. A name with a NUL character cannot be
/// copied into the text buffer; that is found before the count is looked at.
pub open spec fn bind_outcome(name: Seq<char>, count: Option<i64>) -> Result<BindView, HelloError> {
    if name.contains('\0') {
        Err(HelloError::AllocationError)
    } else {
        match requested_rows(count) {
            Some(n) => Ok(BindView { name: Some(encode_utf8(name)), count: n }),
            None => Err(HelloError::InvalidArgument),
        }
    }
}

/// The batch, or the failure, of one production step.
///
/// Nothing is emitted once the stream is exhausted, nor by a worker whose
/// budget is spent. Otherwise the stored bytes are decoded and the row for
/// the worker's counter is formatted; either may fail.
pub open spec fn step_result(bind: BindView, global: HelloGlobalData, local: HelloLocalData) -> Result<
    Seq<Seq<char>>,
    HelloError,
> {
    let bytes = bind.name->0;
    if global.done || local.remaining == 0 {
        Ok(Seq::empty())
    } else if !valid_utf8(bytes) {
        Err(HelloError::EncodingError)
    } else if decode_utf8(bytes).contains('\0') {
        Err(HelloError::FormatError)
    } else {
        Ok(seq![greeting(decode_utf8(bytes), local.remaining as nat)])
    }
}

/// The worker's state after one production step: one less to go where a row
/// was emitted, unchanged otherwise.
pub open spec fn step_local(bind: BindView, global: HelloGlobalData, local: HelloLocalData) -> HelloLocalData {
    match step_result(bind, global, local) {
        Ok(rows) => HelloLocalData { remaining: (local.remaining - rows.len()) as u32 },
        Err(_) => local,
    }
}

/// The shared state after one production step: exhausted once it was, and
/// as soon as the stepping worker has nothing left; a failure changes nothing.
pub open spec fn step_global(bind: BindView, global: HelloGlobalData, local: HelloLocalData) -> HelloGlobalData {
    match step_result(bind, global, local) {
        Ok(_) => HelloGlobalData {
            done: global.done || step_local(bind, global, local).remaining == 0,
        },
        Err(_) => global,
    }
}

/// A batch as the sequence of its rows' texts, a failure as it is.
pub open spec fn batch_view(r: Result<Vec<String>, HelloError>) -> Result<Seq<Seq<char>>, HelloError> {
    match r {
        Ok(rows) => Ok(rows.deep_view()),
        Err(e) => Err(e),
    }
}

/// `core::str::from_utf8`: the text that a byte buffer holds. It is there
/// exactly when the bytes are well-formed UTF-8, and is then their decoding.
#[verifier::external_body]
fn decode_text(bytes: &[u8]) -> (text: Option<&str>)
    ensures
        text is Some == valid_utf8(bytes@),
        text matches Some(t) ==> t@ == decode_utf8(bytes@),
{
    core::str::from_utf8(bytes).ok()
}

impl HelloVTab {
    /// The name under which the function is registered.
    pub fn name() -> (name: &'static str)
        ensures
            name@ == function_name(),
    {
        proof {
            reveal_strlit("hello");
        }
        let name = "hello";
        assert(name@ =~= function_name());
        name
    }

    /// The positional parameters: one text, the name to greet.
    pub fn parameters() -> (types: Option<Vec<ColumnType>>)
        ensures
            types matches Some(v) && v@ == seq![ColumnType::Varchar],
    {
        let mut v: Vec<ColumnType> = Vec::new();
        v.push(ColumnType::Varchar);
        assert(v@ =~= seq![ColumnType::Varchar]);
        Some(v)
    }

    /// The named parameters: the integer `count`.
    pub fn named_parameters() -> (named: Option<Vec<(String, ColumnType)>>)
        ensures
            named matches Some(v) && v@.len() == 1 && v@[0].0@ == count_parameter_name() && v@[0].1
                == ColumnType::Bigint,
    {
        proof {
            reveal_strlit("count");
        }
        let key = String::from_str("count");
        assert(key@ =~= count_parameter_name());
        let mut v: Vec<(String, ColumnType)> = Vec::new();
        v.push((key, ColumnType::Bigint));
        Some(v)
    }

    /// Binds the arguments of one query: copies the name into an owned
    /// buffer, settles the number of rows (1 where `count` is absent) and
    /// declares the result schema by appending its single text column to
    /// `columns`. On failure nothing is declared.
    pub fn bind(name: &str, count: Option<i64>, columns: &mut Vec<ResultColumn>) -> (r: Result<
        HelloBindData,
        HelloError,
    >)
        ensures
            match r {
                Ok(data) => bind_outcome(name@, count) == Ok::<BindView, HelloError>(data@),
                Err(e) => bind_outcome(name@, count) == Err::<BindView, HelloError>(e),
            },
            r is Err ==> final(columns)@ == old(columns)@,
            r is Ok ==> {
                &&& final(columns)@.len() == old(columns)@.len() + 1
                &&& final(columns)@.take(old(columns)@.len() as int) == old(columns)@
                &&& final(columns)@.last().name@ == result_column_name()
                &&& final(columns)@.last().logical_type == ColumnType::Varchar
            },
    {
        if has_nul(name) {
            return Err(HelloError::AllocationError);
        }
        let buffer = name.as_bytes_vec();
        let rows: u32 = match count {
            None => 1,
            Some(c) => {
                if c < 0 || c > 0xffff_ffff {
                    return Err(HelloError::InvalidArgument);
                }
                c as u32
            },
        };
        proof {
            reveal_strlit("greetings");
        }
        let column = String::from_str("greetings");
        assert(column@ =~= result_column_name());
        columns.push(ResultColumn { name: column, logical_type: ColumnType::Varchar });
        assert(columns@.take(old(columns)@.len() as int) =~= old(columns)@);
        Ok(HelloBindData { name: Some(buffer), count: rows })
    }

    /// Starts a scan: the stream is not exhausted.
    pub fn init() -> (global: HelloGlobalData)
        ensures
            global == (HelloGlobalData { done: false }),
    {
        HelloGlobalData { done: false }
    }

    /// Starts a worker: its budget is the whole bound count.
    pub fn init_local(bind: &HelloBindData) -> (local: HelloLocalData)
        ensures
            local == (HelloLocalData { remaining: bind@.count }),
    {
        HelloLocalData { remaining: bind.count }
    }

    /// One production step: a batch of no row or of one row.
    ///
    /// The bind data is only read, so the buffer is still held afterwards
    /// whether the step succeeds or fails.
    pub fn func(bind: &HelloBindData, global: &mut HelloGlobalData, local: &mut HelloLocalData) -> (r:
        Result<Vec<String>, HelloError>)
        requires
            bind@.name is Some,
        ensures
            batch_view(r) == step_result(bind@, *old(global), *old(local)),
            *final(global) == step_global(bind@, *old(global), *old(local)),
            *final(local) == step_local(bind@, *old(global), *old(local)),
    {
        let mut rows: Vec<String> = Vec::new();
        assert(rows.deep_view() =~= Seq::<Seq<char>>::empty());
        if global.done {
            return Ok(rows);
        }
        if local.remaining == 0 {
            global.done = true;
            return Ok(rows);
        }
        let buffer = bind.name.as_ref().unwrap();
        let text = match decode_text(buffer.as_slice()) {
            Some(t) => t,
            None => {
                return Err(HelloError::EncodingError);
            },
        };
        if has_nul(text) {
            return Err(HelloError::FormatError);
        }
        let row = render_greeting(text, local.remaining);
        rows.push(row);
        assert(rows.deep_view() =~= seq![greeting(text@, local.remaining as nat)]);
        local.remaining = local.remaining - 1;
        if local.remaining == 0 {
            global.done = true;
        }
        Ok(rows)
    }
}

} // verus!
