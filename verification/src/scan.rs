//! A whole query on a single worker, and the laws that tie the lifecycle's
//! steps together.

use vstd::prelude::*;
use vstd::utf8::*;
use crate::error::HelloError;
use crate::state::{BindView, HelloBindData, HelloGlobalData, HelloLocalData};
use crate::text::greeting;
use crate::vtab::{
    batch_view,
    bind_outcome,
    requested_rows,
    step_global,
    step_local,
    step_result,
    HelloVTab,
    ResultColumn,
};

verus! {

/// The rows that greet `name` `n` times, in the order of emission: the
/// counter starts at `n` and ends at 1.
pub open spec fn greetings(name: Seq<char>, n: nat) -> Seq<Seq<char>> {
    Seq::new(n, |i: int| greeting(name, (n - i) as nat))
}

/// What a single worker makes of the bound data when it is stepped until
/// the stream is exhausted: all rows, or the failure of the first step.
pub open spec fn scan_outcome(bind: BindView) -> Result<Seq<Seq<char>>, HelloError> {
    let bytes = bind.name->0;
    if bind.count == 0 {
        Ok(Seq::empty())
    } else if !valid_utf8(bytes) {
        Err(HelloError::EncodingError)
    } else if decode_utf8(bytes).contains('\0') {
        Err(HelloError::FormatError)
    } else {
        Ok(greetings(decode_utf8(bytes), bind.count as nat))
    }
}

/// What the query `hello(name, count => n)` returns on a single worker.
pub open spec fn hello_outcome(name: Seq<char>, count: Option<i64>) -> Result<Seq<Seq<char>>, HelloError> {
    match bind_outcome(name, count) {
        Ok(_) => Ok(greetings(name, requested_rows(count)->0 as nat)),
        Err(e) => Err(e),
    }
}

/// The shared state after the worker has made `k` further steps.
pub open spec fn global_after(bind: BindView, global: HelloGlobalData, local: HelloLocalData, k: nat) -> HelloGlobalData
    decreases k,
{
    if k == 0 {
        global
    } else {
        global_after(bind, step_global(bind, global, local), step_local(bind, global, local), (k - 1) as nat)
    }
}

/// The worker's state after it has made `k` further steps.
pub open spec fn local_after(bind: BindView, global: HelloGlobalData, local: HelloLocalData, k: nat) -> HelloLocalData
    decreases k,
{
    if k == 0 {
        local
    } else {
        local_after(bind, step_global(bind, global, local), step_local(bind, global, local), (k - 1) as nat)
    }
}

/// Runs one scan on a single worker: starts the shared and the worker's
/// state, and steps until a batch of length zero signals the end.
pub fn scan(bind: &HelloBindData) -> (r: Result<Vec<String>, HelloError>)
    requires
        bind@.name is Some,
    ensures
        batch_view(r) == scan_outcome(bind@),
{
    let mut global = HelloVTab::init();
    let mut local = HelloVTab::init_local(bind);
    let mut rows: Vec<String> = Vec::new();
    let ghost n = bind@.count as nat;
    let ghost bytes = bind@.name->0;
    loop
        invariant_except_break
            global.done == (n > 0 && local.remaining == 0),
        invariant
            bind@.name == Some(bytes),
            n == bind@.count,
            local.remaining <= n,
            rows@.len() == n - local.remaining,
            rows@.len() > 0 ==> valid_utf8(bytes) && !decode_utf8(bytes).contains('\0'),
            forall|i: int| 0 <= i < rows@.len() ==> (#[trigger] rows@[i])@ == greeting(decode_utf8(bytes), (n - i) as nat),
        ensures
            batch_view(Ok(rows)) == scan_outcome(bind@),
        decreases local.remaining + (if global.done { 0nat } else { 1nat }),
    {
        let ghost k = local.remaining as nat;
        let mut batch = HelloVTab::func(bind, &mut global, &mut local)?;
        let ghost emitted = batch.deep_view();
        match batch.pop() {
            Some(row) => {
                assert(row@ == emitted[emitted.len() - 1]);
                assert(row@ == greeting(decode_utf8(bytes), k));
                rows.push(row);
            },
            None => {
                proof {
                    if n > 0 {
                        assert(rows.deep_view() =~= greetings(decode_utf8(bytes), n));
                    } else {
                        assert(rows.deep_view() =~= Seq::<Seq<char>>::empty());
                    }
                }
                break;
            },
        }
    }
    Ok(rows)
}

/// The query `hello(name, count => n)` from bind to release, on a single
/// worker: `n` rows that count down from `n` to 1, one row where `count` is
/// absent, and no row at all where bind fails.
pub fn hello(name: &str, count: Option<i64>) -> (r: Result<Vec<String>, HelloError>)
    ensures
        batch_view(r) == hello_outcome(name@, count),
{
    let mut columns: Vec<ResultColumn> = Vec::new();
    let mut data = HelloVTab::bind(name, count, &mut columns)?;
    proof {
        lemma_bound_data_is_sound(name@, count);
        assert(greetings(name@, 0) =~= Seq::<Seq<char>>::empty());
    }
    let r = scan(&data);
    data.free();
    r
}

/// Data that bind returns never makes a production step fail: its bytes
/// are well-formed UTF-8, decode to the name that was bound, and hold no NUL.
pub proof fn lemma_bound_data_is_sound(name: Seq<char>, count: Option<i64>)
    requires
        bind_outcome(name, count) is Ok,
    ensures
        ({
            let bind = bind_outcome(name, count)->Ok_0;
            &&& bind.name is Some
            &&& valid_utf8(bind.name->0)
            &&& decode_utf8(bind.name->0) == name
            &&& !name.contains('\0')
            &&& bind.count == requested_rows(count)->0
            &&& forall|global: HelloGlobalData, local: HelloLocalData| #[trigger]
                step_result(bind, global, local) is Ok
        }),
{
    encode_utf8_valid_utf8(name);
    encode_utf8_decode_utf8(name);
}

/// Where a worker stands after `k` steps on data whose text is sound: while
/// the stream produces, each step takes one off the budget until it is spent,
/// and the step that finds or leaves it spent exhausts the stream; an
/// exhausted stream changes nothing.
pub proof fn lemma_state_after(bind: BindView, global: HelloGlobalData, local: HelloLocalData, k: nat)
    requires
        valid_utf8(bind.name->0),
        !decode_utf8(bind.name->0).contains('\0'),
    ensures
        global.done ==> global_after(bind, global, local, k) == global && local_after(bind, global, local, k)
            == local,
        !global.done && k <= local.remaining ==> local_after(bind, global, local, k).remaining
            == local.remaining - k,
        !global.done && k > local.remaining ==> local_after(bind, global, local, k).remaining == 0,
        !global.done ==> global_after(bind, global, local, k).done == (k >= local.remaining && k > 0),
    decreases k,
{
    if k > 0 {
        lemma_state_after(bind, step_global(bind, global, local), step_local(bind, global, local), (k - 1) as nat);
    }
}

/// Counting down: on a single worker, started afresh on data whose text is
/// sound, the step numbered `i` (from 0) emits exactly the row numbered `i`
/// of [`greetings`] while `i` is below the count, and no row from then on.
pub proof fn lemma_rows_in_order(bind: BindView, i: nat)
    requires
        valid_utf8(bind.name->0),
        !decode_utf8(bind.name->0).contains('\0'),
    ensures
        ({
            let start = HelloGlobalData { done: false };
            let budget = HelloLocalData { remaining: bind.count };
            let global = global_after(bind, start, budget, i);
            let local = local_after(bind, start, budget, i);
            let rows = greetings(decode_utf8(bind.name->0), bind.count as nat);
            &&& rows.len() == bind.count
            &&& i < bind.count ==> step_result(bind, global, local) == Ok::<Seq<Seq<char>>, HelloError>(seq![rows[i as int]])
            &&& i >= bind.count ==> step_result(bind, global, local) == Ok::<Seq<Seq<char>>, HelloError>(Seq::empty())
        }),
{
    lemma_state_after(bind, HelloGlobalData { done: false }, HelloLocalData { remaining: bind.count }, i);
}

/// What every production step keeps: the exhausted flag is never reset, a
/// worker's budget never grows, at most one row is emitted, and the step
/// that emits a worker's last row exhausts the stream. A failed step
/// changes neither state.
pub proof fn lemma_step_keeps_order(bind: BindView, global: HelloGlobalData, local: HelloLocalData)
    ensures
        global.done ==> step_global(bind, global, local).done,
        step_local(bind, global, local).remaining <= local.remaining,
        step_result(bind, global, local) matches Ok(rows) ==> rows.len() <= 1 && local.remaining
            == step_local(bind, global, local).remaining + rows.len(),
        step_result(bind, global, local) is Ok && step_local(bind, global, local).remaining == 0
            ==> step_global(bind, global, local).done,
        step_result(bind, global, local) is Err ==> step_global(bind, global, local) == global
            && step_local(bind, global, local) == local,
{
}

/// Exhaustion is final: once a step has answered with a batch of length
/// zero, the stream is exhausted, and every later step of that worker
/// answers with a batch of length zero as well.
pub proof fn lemma_exhaustion_is_final(bind: BindView, global: HelloGlobalData, local: HelloLocalData, k: nat)
    requires
        step_result(bind, global, local) == Ok::<Seq<Seq<char>>, HelloError>(Seq::empty()),
    ensures
        ({
            let exhausted = step_global(bind, global, local);
            let worker = step_local(bind, global, local);
            &&& exhausted.done
            &&& worker == local
            &&& global_after(bind, exhausted, worker, k) == exhausted
            &&& local_after(bind, exhausted, worker, k) == worker
            &&& step_result(bind, global_after(bind, exhausted, worker, k), local_after(bind, exhausted, worker, k))
                == Ok::<Seq<Seq<char>>, HelloError>(Seq::empty())
        }),
{
    let exhausted = step_global(bind, global, local);
    let worker = step_local(bind, global, local);
    assert(step_result(bind, global, local)->Ok_0.len() == 0);
    lemma_exhausted_stream_is_still(bind, exhausted, worker, k);
}

/// An exhausted stream stays as it is, whichever worker steps and however
/// often: no row comes, the flag stays set, and the worker's budget is
/// left alone.
pub proof fn lemma_exhausted_stream_is_still(bind: BindView, global: HelloGlobalData, local: HelloLocalData, k: nat)
    requires
        global.done,
    ensures
        step_result(bind, global, local) == Ok::<Seq<Seq<char>>, HelloError>(Seq::empty()),
        global_after(bind, global, local, k) == global,
        local_after(bind, global, local, k) == local,
    decreases k,
{
    if k > 0 {
        assert(step_result(bind, global, local)->Ok_0.len() == 0);
        lemma_exhausted_stream_is_still(bind, step_global(bind, global, local), step_local(bind, global, local), (k - 1) as nat);
    }
}

/// Leaving `count` out is the same as passing 1: bind computes the same
/// data, and the query yields exactly one row, with the counter 1.
pub proof fn lemma_default_count_is_one(name: Seq<char>)
    ensures
        bind_outcome(name, None) == bind_outcome(name, Some(1i64)),
        hello_outcome(name, None) == hello_outcome(name, Some(1i64)),
        !name.contains('\0') ==> hello_outcome(name, None) == Ok::<Seq<Seq<char>>, HelloError>(
            seq![greeting(name, 1)],
        ),
{
    assert(greetings(name, 1) =~= seq![greeting(name, 1)]);
}

/// A negative `count` is rejected at bind time, so the query yields no row.
/// The failure is `InvalidArgument` unless the name cannot be stored, which
/// is found first.
pub proof fn lemma_negative_count_is_rejected(name: Seq<char>, count: i64)
    requires
        count < 0,
    ensures
        bind_outcome(name, Some(count)) matches Err(e) && e.at_bind_time(),
        hello_outcome(name, Some(count)) is Err,
        !name.contains('\0') ==> bind_outcome(name, Some(count)) == Err::<BindView, HelloError>(
            HelloError::InvalidArgument,
        ),
{
}

} // verus!
