//! What a provider backed by a native CBLAS library has to decide: how it
//! starts up, which entry point serves which precision, and which integers it
//! hands to the native routine.
//!
//! Opening the library, resolving its symbols and jumping to them is left to
//! the caller; nothing here touches the file system or native code.

use vstd::prelude::*;
use crate::blas::{gemv_fits, assert_gemv, Error, Transpose};

verus! {

/// The layout flag of a row-major matrix.
pub const ROW_MAJOR: i32 = 101;

/// The code that the native routine knows `trans` by.
pub open spec fn trans_code(trans: Transpose) -> i32 {
    match trans {
        Transpose::No => 111,
        Transpose::Yes => 112,
        Transpose::Conjugate => 113,
    }
}

/// The code that the native routine knows `trans` by.
pub fn trans_val(trans: Transpose) -> (code: i32)
    ensures
        code == trans_code(trans),
{
    match trans {
        Transpose::No => 111,
        Transpose::Yes => 112,
        Transpose::Conjugate => 113,
    }
}

/// No two modes share a code.
pub proof fn lemma_trans_codes_differ(a: Transpose, b: Transpose)
    ensures
        trans_code(a) == trans_code(b) <==> a == b,
{
}

/// The element types that the native library multiplies.
#[derive(Clone, Copy, Debug, PartialEq, Eq)]
pub enum Precision {
    Single,
    Double,
}

/// The name under which the native library exports the product for
/// `precision`.
pub open spec fn symbol_of(precision: Precision) -> Seq<char> {
    match precision {
        Precision::Single => "cblas_sgemv"@,
        Precision::Double => "cblas_dgemv"@,
    }
}

/// The name under which the native library exports the product for
/// `precision`.
pub fn symbol_name(precision: Precision) -> (name: &'static str)
    ensures
        name@ == symbol_of(precision),
{
    match precision {
        Precision::Single => "cblas_sgemv",
        Precision::Double => "cblas_dgemv",
    }
}

/// The integer arguments of one native call, in the order in which the
/// native routine takes them.
#[derive(Clone, Copy, Debug, PartialEq, Eq)]
pub struct GemvCall {
    pub order: i32,
    pub trans: i32,
    pub rows: i32,
    pub cols: i32,
    pub leading_dimension: i32,
    pub in_inc: i32,
    pub out_inc: i32,
}

/// `n` as the native routine receives it: its low 32 bits, read as a signed
/// number. Every `n` up to `i32::MAX` is received unchanged.
pub open spec fn as_native(n: usize) -> i32 {
    n as i32
}

/// The native routine receives every number up to `i32::MAX` as it is.
pub proof fn lemma_small_numbers_arrive_unchanged(n: usize)
    requires
        n <= i32::MAX,
    ensures
        as_native(n) == n,
{
}

/// The call that multiplies a matrix of `rows` rows, stored in `matrix_len`
/// elements, by a vector of step `in_inc` into one of step `out_inc`. Each
/// row of the matrix takes up an equal share of the buffer.
pub open spec fn native_call(
    trans: Transpose,
    cols: usize,
    rows: usize,
    matrix_len: usize,
    in_inc: usize,
    out_inc: usize,
) -> GemvCall {
    GemvCall {
        order: ROW_MAJOR,
        trans: trans_code(trans),
        rows: as_native(rows),
        cols: as_native(cols),
        leading_dimension: as_native((matrix_len / rows) as usize),
        in_inc: as_native(in_inc),
        out_inc: as_native(out_inc),
    }
}

/// Prepares the native call for one product: the integer arguments that the
/// native routine takes. Operands that do not agree in shape cannot be
/// passed, so no call is ever prepared for them.
pub fn gemv_call<T>(
    trans: Transpose,
    cols: usize,
    rows: usize,
    matrix: &[T],
    in_vector: &[T],
    in_vector_inc: usize,
    out_vector: &[T],
    out_vector_inc: usize,
) -> (call: GemvCall)
    requires
        gemv_fits(
            trans,
            cols as int,
            rows as int,
            matrix@.len() as int,
            in_vector@.len() as int,
            in_vector_inc as int,
            out_vector@.len() as int,
            out_vector_inc as int,
        ),
    ensures
        call == native_call(
            trans,
            cols,
            rows,
            matrix@.len() as usize,
            in_vector_inc,
            out_vector_inc,
        ),
{
    assert_gemv(
        trans,
        cols,
        rows,
        matrix,
        in_vector,
        in_vector_inc,
        out_vector,
        out_vector_inc,
    );
    GemvCall {
        order: ROW_MAJOR,
        trans: trans_val(trans),
        rows: rows as i32,
        cols: cols as i32,
        leading_dimension: (matrix.len() / rows) as i32,
        in_inc: in_vector_inc as i32,
        out_inc: out_vector_inc as i32,
    }
}

/// The addresses at which the native library holds its two products.
#[derive(Clone, Copy, Debug, PartialEq, Eq)]
pub struct EntryPoints {
    pub sgemv: usize,
    pub dgemv: usize,
}

impl EntryPoints {
    /// The address of the routine that multiplies elements of `precision`.
    pub open spec fn of(self, precision: Precision) -> usize {
        match precision {
            Precision::Single => self.sgemv,
            Precision::Double => self.dgemv,
        }
    }

    /// The address of the routine that multiplies elements of `precision`.
    pub fn select(&self, precision: Precision) -> (address: usize)
        ensures
            address == self.of(precision),
    {
        match precision {
            Precision::Single => self.sgemv,
            Precision::Double => self.dgemv,
        }
    }
}

/// How far the start-up of a provider has come.
#[derive(Debug)]
pub enum Stage {
    /// Nothing has been done yet.
    Uninitialized,
    /// The library is open; `sgemv` is the single-precision routine once it
    /// has been resolved.
    Open { sgemv: Option<usize> },
    /// Both routines are resolved. Nothing follows.
    Ready { entries: EntryPoints },
    /// Start-up was given up for `reason`. Nothing follows.
    Failed { reason: Error },
}

/// What the caller is asked to do next.
#[derive(Clone, Copy, Debug, PartialEq, Eq)]
pub enum Request {
    /// Open the native library.
    OpenLibrary,
    /// Look up the routine for a precision in the open library.
    Resolve(Precision),
}

/// What came of a request.
#[derive(Debug)]
pub enum Answer {
    /// The library is open.
    Opened,
    /// The routine lies at this address.
    Resolved(usize),
    /// The request could not be met.
    Refused(Error),
}

impl Stage {
    /// The request that this stage waits on; none once start-up is over.
    pub open spec fn wanted(self) -> Option<Request> {
        match self {
            Stage::Uninitialized => Some(Request::OpenLibrary),
            Stage::Open { sgemv: None } => Some(Request::Resolve(Precision::Single)),
            Stage::Open { sgemv: Some(_) } => Some(Request::Resolve(Precision::Double)),
            Stage::Ready { .. } | Stage::Failed { .. } => None,
        }
    }

    /// The stage that follows this one on `answer`. An answer to a request
    /// that this stage does not wait on changes nothing.
    pub open spec fn answered(self, answer: Answer) -> Stage {
        match (self, answer) {
            (Stage::Uninitialized, Answer::Opened) => Stage::Open { sgemv: None },
            (Stage::Open { sgemv: None }, Answer::Resolved(address)) => Stage::Open {
                sgemv: Some(address),
            },
            (Stage::Open { sgemv: Some(sgemv) }, Answer::Resolved(dgemv)) => Stage::Ready {
                entries: EntryPoints { sgemv, dgemv },
            },
            (Stage::Uninitialized, Answer::Refused(reason)) => Stage::Failed { reason },
            (Stage::Open { .. }, Answer::Refused(reason)) => Stage::Failed { reason },
            _ => self,
        }
    }

    /// The stage reached from this one by the answers of `answers` in turn.
    pub open spec fn run(self, answers: Seq<Answer>) -> Stage
        decreases answers.len(),
    {
        if answers.len() == 0 {
            self
        } else {
            self.answered(answers[0]).run(answers.subrange(1, answers.len() as int))
        }
    }

    /// How start-up ended: not yet, with both routines, or with an error.
    pub open spec fn concluded(self) -> Option<Result<EntryPoints, Error>> {
        match self {
            Stage::Ready { entries } => Some(Ok(entries)),
            Stage::Failed { reason } => Some(Err(reason)),
            _ => None,
        }
    }

    /// The stage before anything has been done.
    pub fn new() -> (stage: Stage)
        ensures
            stage == Stage::Uninitialized,
    {
        Stage::Uninitialized
    }

    /// The request to carry out next, or `None` once start-up is over.
    pub fn request(&self) -> (request: Option<Request>)
        ensures
            request == self.wanted(),
    {
        match self {
            Stage::Uninitialized => Some(Request::OpenLibrary),
            Stage::Open { sgemv: None } => Some(Request::Resolve(Precision::Single)),
            Stage::Open { sgemv: Some(_) } => Some(Request::Resolve(Precision::Double)),
            _ => None,
        }
    }

    /// Takes in what came of the request that this stage waited on.
    pub fn advance(self, answer: Answer) -> (next: Stage)
        ensures
            next == self.answered(answer),
    {
        match self {
            Stage::Uninitialized => match answer {
                Answer::Opened => Stage::Open { sgemv: None },
                Answer::Refused(reason) => Stage::Failed { reason },
                Answer::Resolved(_) => Stage::Uninitialized,
            },
            Stage::Open { sgemv } => match answer {
                Answer::Resolved(address) => match sgemv {
                    None => Stage::Open { sgemv: Some(address) },
                    Some(first) => Stage::Ready {
                        entries: EntryPoints { sgemv: first, dgemv: address },
                    },
                },
                Answer::Refused(reason) => Stage::Failed { reason },
                Answer::Opened => Stage::Open { sgemv },
            },
            Stage::Ready { entries } => Stage::Ready { entries },
            Stage::Failed { reason } => Stage::Failed { reason },
        }
    }

    /// The end of start-up: `None` while a request is open, the two routines
    /// once both are resolved, the reason where start-up was given up.
    pub fn outcome(self) -> (result: Option<Result<EntryPoints, Error>>)
        ensures
            result == self.concluded(),
    {
        match self {
            Stage::Ready { entries } => Some(Ok(entries)),
            Stage::Failed { reason } => Some(Err(reason)),
            _ => None,
        }
    }
}

/// Start-up is over exactly when it has an outcome.
pub proof fn lemma_over_when_concluded(stage: Stage)
    ensures
        stage.wanted() is None <==> stage.concluded() is Some,
{
}

/// A stage that waits on nothing is never left, whatever answers arrive.
pub proof fn lemma_end_is_final(stage: Stage, answers: Seq<Answer>)
    requires
        stage.wanted() is None,
    ensures
        stage.run(answers) == stage,
    decreases answers.len(),
{
    if answers.len() > 0 {
        lemma_end_is_final(stage, answers.subrange(1, answers.len() as int));
    }
}

/// A refused request ends start-up with that reason, and no later answer
/// brings the routines after all.
pub proof fn lemma_refusal_is_final(stage: Stage, answers: Seq<Answer>, reason: Error)
    requires
        stage.wanted() is Some,
        answers.len() > 0,
        answers[0] == Answer::Refused(reason),
    ensures
        stage.run(answers) == (Stage::Failed { reason }),
        stage.run(answers).concluded() == Some(Err::<EntryPoints, Error>(reason)),
{
    lemma_end_is_final(Stage::Failed { reason }, answers.subrange(1, answers.len() as int));
}

/// Opening the library and resolving the single-precision routine, then the
/// double-precision one, makes the provider ready with these two addresses.
pub proof fn lemma_three_answers_make_ready(sgemv: usize, dgemv: usize)
    ensures
        Stage::Uninitialized.run(
            seq![Answer::Opened, Answer::Resolved(sgemv), Answer::Resolved(dgemv)],
        ) == (Stage::Ready { entries: EntryPoints { sgemv, dgemv } }),
{
    let answers = seq![Answer::Opened, Answer::Resolved(sgemv), Answer::Resolved(dgemv)];
    let second = answers.subrange(1, 3);
    let third = second.subrange(1, 2);
    let none = third.subrange(1, 1);
    reveal_with_fuel(Stage::run, 4);
    assert(second[0] == Answer::Resolved(sgemv));
    assert(third[0] == Answer::Resolved(dgemv));
    assert(none.len() == 0);
}

/// None of the answers at the places `0..=last` is a refusal.
pub open spec fn none_refused(answers: Seq<Answer>, last: int) -> bool {
    forall|n: int| 0 <= n <= last ==> !(#[trigger] answers[n] is Refused)
}

/// The answers hold the address `dgemv`, with no refusal up to there.
pub open spec fn second_resolved(answers: Seq<Answer>, dgemv: usize) -> bool {
    exists|k: int|
        {
            &&& 0 <= k < answers.len()
            &&& #[trigger] answers[k] == Answer::Resolved(dgemv)
            &&& none_refused(answers, k)
        }
}

/// The answers hold the address `entries.sgemv` and behind it the address
/// `entries.dgemv`, with no refusal up to there.
pub open spec fn both_resolved(answers: Seq<Answer>, entries: EntryPoints) -> bool {
    exists|j: int, k: int|
        #![trigger answers[j], answers[k]]
        {
            &&& 0 <= j < k < answers.len()
            &&& answers[j] == Answer::Resolved(entries.sgemv)
            &&& answers[k] == Answer::Resolved(entries.dgemv)
            &&& none_refused(answers, k)
        }
}

/// The answers hold, in this order and with no refusal up to the last of
/// them: that the library is open, the address `entries.sgemv`, and the
/// address `entries.dgemv`.
pub open spec fn resolved_in_turn(answers: Seq<Answer>, entries: EntryPoints) -> bool {
    exists|i: int, j: int, k: int|
        #![trigger answers[i], answers[j], answers[k]]
        {
            &&& 0 <= i < j < k < answers.len()
            &&& answers[i] == Answer::Opened
            &&& answers[j] == Answer::Resolved(entries.sgemv)
            &&& answers[k] == Answer::Resolved(entries.dgemv)
            &&& none_refused(answers, k)
        }
}

/// What holds of the answers behind the first holds one place later of them
/// all, unless the first is a refusal.
proof fn lemma_one_place_later(answers: Seq<Answer>, last: int)
    requires
        0 <= last < answers.len() - 1,
        !(answers[0] is Refused),
        none_refused(answers.subrange(1, answers.len() as int), last),
    ensures
        none_refused(answers, last + 1),
        forall|n: int|
            0 <= n < answers.len() - 1 ==> answers[n + 1] == #[trigger] answers.subrange(
                1,
                answers.len() as int,
            )[n],
{
    let rest = answers.subrange(1, answers.len() as int);
    assert forall|n: int| 0 <= n <= last + 1 implies !(#[trigger] answers[n] is Refused) by {
        if n > 0 {
            assert(answers[n] == rest[n - 1]);
        }
    }
}

/// A provider gets ready only with addresses that were resolved for it: the
/// library was opened first, the single-precision routine was resolved next
/// and the double-precision routine last, and nothing was refused on the way.
pub proof fn lemma_ready_holds_resolved_addresses(answers: Seq<Answer>, entries: EntryPoints)
    requires
        Stage::Uninitialized.run(answers) == (Stage::Ready { entries }),
    ensures
        resolved_in_turn(answers, entries),
    decreases answers.len(),
{
    if answers.len() > 0 {
        let rest = answers.subrange(1, answers.len() as int);
        match answers[0] {
            Answer::Opened => {
                lemma_open_gets_ready(rest, entries);
                let (j, k) = choose|j: int, k: int|
                    #![trigger rest[j], rest[k]]
                    {
                        &&& 0 <= j < k < rest.len()
                        &&& rest[j] == Answer::Resolved(entries.sgemv)
                        &&& rest[k] == Answer::Resolved(entries.dgemv)
                        &&& none_refused(rest, k)
                    };
                lemma_one_place_later(answers, k);
                assert(0 < j + 1 < k + 1 < answers.len() && answers[0] == Answer::Opened
                    && answers[j + 1] == rest[j] && answers[k + 1] == rest[k]);
            },
            Answer::Resolved(_) => {
                lemma_ready_holds_resolved_addresses(rest, entries);
                let (i, j, k) = choose|i: int, j: int, k: int|
                    #![trigger rest[i], rest[j], rest[k]]
                    {
                        &&& 0 <= i < j < k < rest.len()
                        &&& rest[i] == Answer::Opened
                        &&& rest[j] == Answer::Resolved(entries.sgemv)
                        &&& rest[k] == Answer::Resolved(entries.dgemv)
                        &&& none_refused(rest, k)
                    };
                lemma_one_place_later(answers, k);
                assert(i + 1 < j + 1 < k + 1 < answers.len() && answers[i + 1] == rest[i]
                    && answers[j + 1] == rest[j] && answers[k + 1] == rest[k]);
            },
            Answer::Refused(reason) => {
                lemma_end_is_final(Stage::Failed { reason }, rest);
            },
        }
    }
}

/// From an open library with no routine yet, a provider gets ready only
/// through both addresses, resolved in turn.
proof fn lemma_open_gets_ready(answers: Seq<Answer>, entries: EntryPoints)
    requires
        (Stage::Open { sgemv: None }).run(answers) == (Stage::Ready { entries }),
    ensures
        both_resolved(answers, entries),
    decreases answers.len(),
{
    if answers.len() > 0 {
        let rest = answers.subrange(1, answers.len() as int);
        match answers[0] {
            Answer::Opened => {
                lemma_open_gets_ready(rest, entries);
                let (j, k) = choose|j: int, k: int|
                    #![trigger rest[j], rest[k]]
                    {
                        &&& 0 <= j < k < rest.len()
                        &&& rest[j] == Answer::Resolved(entries.sgemv)
                        &&& rest[k] == Answer::Resolved(entries.dgemv)
                        &&& none_refused(rest, k)
                    };
                lemma_one_place_later(answers, k);
                assert(j + 1 < k + 1 < answers.len() && answers[j + 1] == rest[j] && answers[k
                    + 1] == rest[k]);
            },
            Answer::Resolved(sgemv) => {
                lemma_half_open_gets_ready(sgemv, rest, entries);
                let k = choose|k: int|
                    {
                        &&& 0 <= k < rest.len()
                        &&& #[trigger] rest[k] == Answer::Resolved(entries.dgemv)
                        &&& none_refused(rest, k)
                    };
                lemma_one_place_later(answers, k);
                assert(0 < k + 1 < answers.len() && answers[0] == Answer::Resolved(entries.sgemv)
                    && answers[k + 1] == rest[k]);
            },
            Answer::Refused(reason) => {
                lemma_end_is_final(Stage::Failed { reason }, rest);
            },
        }
    }
}

/// From an open library with the single-precision routine at `sgemv`, a
/// provider gets ready only with that address and a resolved second one.
proof fn lemma_half_open_gets_ready(sgemv: usize, answers: Seq<Answer>, entries: EntryPoints)
    requires
        (Stage::Open { sgemv: Some(sgemv) }).run(answers) == (Stage::Ready { entries }),
    ensures
        entries.sgemv == sgemv,
        second_resolved(answers, entries.dgemv),
    decreases answers.len(),
{
    if answers.len() > 0 {
        let rest = answers.subrange(1, answers.len() as int);
        match answers[0] {
            Answer::Opened => {
                lemma_half_open_gets_ready(sgemv, rest, entries);
                let k = choose|k: int|
                    {
                        &&& 0 <= k < rest.len()
                        &&& #[trigger] rest[k] == Answer::Resolved(entries.dgemv)
                        &&& none_refused(rest, k)
                    };
                lemma_one_place_later(answers, k);
                assert(k + 1 < answers.len() && answers[k + 1] == rest[k]);
            },
            Answer::Resolved(dgemv) => {
                lemma_end_is_final(Stage::Ready { entries: EntryPoints { sgemv, dgemv } }, rest);
                assert(answers[0] == Answer::Resolved(entries.dgemv) && none_refused(answers, 0));
            },
            Answer::Refused(reason) => {
                lemma_end_is_final(Stage::Failed { reason }, rest);
            },
        }
    }
}

} // verus!
