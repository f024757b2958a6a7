//! The envelope in which every answer that is no error goes out.

use vstd::prelude::*;

verus! {

/// The text of a failure that names no reason.
pub const FAIL_MESSAGE: &'static str = "系统异常请稍后再试";

/// The text of a success that names no detail.
pub const SUCCESS_MESSAGE: &'static str = "操作成功";

/// The code of a failure.
pub const FAIL_CODE: i8 = 1;

/// The code of a success.
pub const SUCCESS_CODE: i8 = 0;

/// An answer in its envelope: a code, a text and the data.
#[derive(Debug, PartialEq, Eq)]
pub struct AppRes<T> {
    pub code: i8,
    pub msg: String,
    pub data: T,
}

impl<T> AppRes<T> {
    /// The envelope of a success that carries `data`.
    pub fn success(data: T) -> (res: AppRes<T>)
        ensures
            res.code == SUCCESS_CODE,
            res.msg@ == SUCCESS_MESSAGE@,
            res.data == data,
    {
        AppRes { code: SUCCESS_CODE, msg: String::from_str(SUCCESS_MESSAGE), data }
    }
}

impl AppRes<()> {
    /// The envelope of a success that carries only the text `msg`.
    pub fn success_with_msg(msg: String) -> (res: AppRes<()>)
        ensures
            res.code == SUCCESS_CODE,
            res.msg == msg,
    {
        AppRes { code: SUCCESS_CODE, msg, data: () }
    }

    /// The envelope of a failure with the text `msg`.
    pub fn fail_with_msg(msg: String) -> (res: AppRes<()>)
        ensures
            res.code == FAIL_CODE,
            res.msg == msg,
    {
        AppRes { code: FAIL_CODE, msg, data: () }
    }

    /// The envelope of a failure that names no reason.
    pub fn fail() -> (res: AppRes<()>)
        ensures
            res.code == FAIL_CODE,
            res.msg@ == FAIL_MESSAGE@,
    {
        AppRes { code: FAIL_CODE, msg: String::from_str(FAIL_MESSAGE), data: () }
    }
}

} // verus!
