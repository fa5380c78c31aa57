use dynblas::blas::{gemv_ok, Transpose};
use dynblas::cblas::{
    gemv_call, symbol_name, trans_val, Answer, EntryPoints, GemvCall, Precision, Request, Stage,
    ROW_MAJOR,
};
use dylib::DynamicLibrary;
use std::path::Path;

#[test]
fn modes_have_their_native_codes() {
    assert_eq!(trans_val(Transpose::No), 111);
    assert_eq!(trans_val(Transpose::Yes), 112);
    assert_eq!(trans_val(Transpose::Conjugate), 113);
    assert_eq!(ROW_MAJOR, 101);
}

#[test]
fn precisions_have_their_symbols() {
    assert_eq!(symbol_name(Precision::Single), "cblas_sgemv");
    assert_eq!(symbol_name(Precision::Double), "cblas_dgemv");
}

#[test]
fn entry_points_are_told_apart_by_precision() {
    let entries = EntryPoints { sgemv: 0x1000, dgemv: 0x2000 };
    assert_eq!(entries.select(Precision::Single), 0x1000);
    assert_eq!(entries.select(Precision::Double), 0x2000);
}

#[test]
fn call_carries_layout_mode_and_dimensions() {
    let m = [1, 2, 3, 4, 5, 6, 7, 8];
    let i = [9, 10, 11, 12, 13, 14];
    let o = [15, 16, 17, 18, 19, 20];
    assert_eq!(
        gemv_call(Transpose::No, 3, 2, &m, &i, 2, &o, 3),
        GemvCall {
            order: 101,
            trans: 111,
            rows: 2,
            cols: 3,
            leading_dimension: 4,
            in_inc: 2,
            out_inc: 3,
        }
    );
    assert_eq!(
        gemv_call(Transpose::Yes, 3, 2, &m, &i, 3, &o, 2),
        GemvCall {
            order: 101,
            trans: 112,
            rows: 2,
            cols: 3,
            leading_dimension: 4,
            in_inc: 3,
            out_inc: 2,
        }
    );
    assert_eq!(
        gemv_call(Transpose::Conjugate, 3, 2, &m, &i, 3, &o, 2),
        GemvCall {
            order: 101,
            trans: 113,
            rows: 2,
            cols: 3,
            leading_dimension: 4,
            in_inc: 3,
            out_inc: 2,
        }
    );
}

#[test]
fn leading_dimension_is_an_equal_share_of_the_buffer() {
    let x = [1, 2, 3];
    let y = [1, 2];
    let call = gemv_call(Transpose::No, 3, 2, &[0; 6], &x, 1, &y, 1);
    assert_eq!(call.leading_dimension, 3);
    let call = gemv_call(Transpose::No, 3, 2, &[0; 7], &x, 1, &y, 1);
    assert_eq!(call.leading_dimension, 3);
    let call = gemv_call(Transpose::No, 3, 2, &[0; 11], &x, 1, &y, 1);
    assert_eq!(call.leading_dimension, 5);
}

#[test]
fn operands_that_disagree_are_told_before_a_call_is_prepared() {
    let m = [1, 2, 3, 4, 5, 6];
    assert_eq!(gemv_ok(Transpose::No, 3, 2, &m, &[1, 2], 1, &[1, 2, 3], 1), false);
    assert_eq!(gemv_ok(Transpose::Yes, 3, 2, &m, &[1, 2, 3], 1, &[1, 2], 1), false);
    assert_eq!(gemv_ok(Transpose::No, 2, 3, &[1, 2, 3, 4], &[1, 2], 1, &[1, 2, 3], 1), false);
    assert_eq!(gemv_ok(Transpose::No, 3, 2, &m, &[1, 2, 3], 2, &[1, 2], 1), false);
    assert_eq!(gemv_ok(Transpose::No, 3, 0, &m, &[1, 2, 3], 1, &[0u8; 0], 1), false);
    assert_eq!(gemv_ok(Transpose::No, 3, 2, &m, &[1, 2, 3], 0, &[1, 2], 1), false);
}

#[test]
fn native_integers_keep_the_low_bits() {
    let none: [u8; 0] = [];
    let call = gemv_call(Transpose::No, 0, 1, &none, &none, usize::MAX, &[7u8], 1);
    assert_eq!(call.in_inc, -1);
    assert_eq!(call.cols, 0);
    assert_eq!(call.rows, 1);
    assert_eq!(call.leading_dimension, 0);
    let call = gemv_call(Transpose::Yes, 0, 1, &none, &[7u8], 1, &none, 0x8000_0000);
    assert_eq!(call.out_inc, i32::MIN);
    let call = gemv_call(Transpose::Yes, 0, 1, &none, &[7u8], 1, &none, 0x7fff_ffff);
    assert_eq!(call.out_inc, i32::MAX);
}

#[test]
fn start_up_asks_for_the_library_then_for_both_routines() {
    let stage = Stage::new();
    assert_eq!(stage.request(), Some(Request::OpenLibrary));
    let stage = stage.advance(Answer::Opened);
    assert_eq!(stage.request(), Some(Request::Resolve(Precision::Single)));
    let stage = stage.advance(Answer::Resolved(0x1000));
    assert_eq!(stage.request(), Some(Request::Resolve(Precision::Double)));
    let stage = stage.advance(Answer::Resolved(0x2000));
    assert_eq!(stage.request(), None);
    assert_eq!(stage.outcome(), Some(Ok(EntryPoints { sgemv: 0x1000, dgemv: 0x2000 })));
}

#[test]
fn start_up_has_no_outcome_while_a_request_is_open() {
    assert_eq!(Stage::new().outcome(), None);
    assert_eq!(Stage::new().advance(Answer::Opened).outcome(), None);
    assert_eq!(
        Stage::new().advance(Answer::Opened).advance(Answer::Resolved(1)).outcome(),
        None
    );
}

#[test]
fn refusal_ends_start_up_at_every_stage() {
    let stage = Stage::new().advance(Answer::Refused(String::from("no such file")));
    assert_eq!(stage.request(), None);
    assert_eq!(stage.outcome(), Some(Err(String::from("no such file"))));

    let stage = Stage::new()
        .advance(Answer::Opened)
        .advance(Answer::Refused(String::from("undefined symbol: cblas_sgemv")));
    assert_eq!(stage.request(), None);
    assert_eq!(stage.outcome(), Some(Err(String::from("undefined symbol: cblas_sgemv"))));

    let stage = Stage::new()
        .advance(Answer::Opened)
        .advance(Answer::Resolved(0x1000))
        .advance(Answer::Refused(String::from("undefined symbol: cblas_dgemv")));
    assert_eq!(stage.request(), None);
    assert_eq!(stage.outcome(), Some(Err(String::from("undefined symbol: cblas_dgemv"))));
}

#[test]
fn nothing_follows_the_end_of_start_up() {
    let failed = Stage::new()
        .advance(Answer::Refused(String::from("first")))
        .advance(Answer::Opened)
        .advance(Answer::Resolved(1))
        .advance(Answer::Resolved(2))
        .advance(Answer::Refused(String::from("second")));
    assert_eq!(failed.outcome(), Some(Err(String::from("first"))));

    let ready = Stage::new()
        .advance(Answer::Opened)
        .advance(Answer::Resolved(1))
        .advance(Answer::Resolved(2))
        .advance(Answer::Resolved(3))
        .advance(Answer::Opened)
        .advance(Answer::Refused(String::from("late")));
    assert_eq!(ready.outcome(), Some(Ok(EntryPoints { sgemv: 1, dgemv: 2 })));
}

#[test]
fn answers_to_other_requests_change_nothing() {
    let stage = Stage::new().advance(Answer::Resolved(9));
    assert!(matches!(stage, Stage::Uninitialized));
    let stage = Stage::new().advance(Answer::Opened).advance(Answer::Opened);
    assert!(matches!(stage, Stage::Open { sgemv: None }));
    let stage = Stage::new()
        .advance(Answer::Opened)
        .advance(Answer::Resolved(5))
        .advance(Answer::Opened);
    assert!(matches!(stage, Stage::Open { sgemv: Some(5) }));
}

#[test]
fn library_that_does_not_exist_leaves_no_entry_points() {
    let path = Path::new("/nonexistent/directory/libcblas-missing.so");
    let mut stage = Stage::new();
    assert_eq!(stage.request(), Some(Request::OpenLibrary));
    let answer = match DynamicLibrary::open(Some(path)) {
        Ok(_) => Answer::Opened,
        Err(reason) => Answer::Refused(reason),
    };
    assert!(matches!(answer, Answer::Refused(_)));
    stage = stage.advance(answer);
    assert_eq!(stage.request(), None);
    assert!(matches!(stage, Stage::Failed { .. }));
    assert!(matches!(stage.outcome(), Some(Err(_))));
}
