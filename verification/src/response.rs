//! The one shape in which the gateway answers: the data, whether the
//! request succeeded, a message, an error code, and how a client should
//! show the message.

use crate::text::text_view;
use vstd::prelude::*;

verus! {

/// One page of a list.
#[derive(Debug)]
pub struct ListData<T> {
    pub list: Vec<T>,
    pub total: u64,
    pub total_pages: u64,
    pub page_num: u64,
}

/// Which page is asked for.
#[derive(Clone, Copy, Debug)]
pub struct PageParams {
    pub current: Option<u64>,
    pub page_size: Option<u64>,
}

impl Default for PageParams {
    fn default() -> (r: Self)
        ensures
            r.current is None,
            r.page_size is None,
    {
        PageParams { current: None, page_size: None }
    }
}

/// How a client should show a message.
pub enum ErrorShowType {
    Silent,
    WarnMessage,
    ErrorMessage,
    Notification,
    Redirect,
}

impl ErrorShowType {
    /// The number that stands for the way of showing.
    pub open spec fn number(self) -> u8 {
        match self {
            ErrorShowType::Silent => 0,
            ErrorShowType::WarnMessage => 1,
            ErrorShowType::ErrorMessage => 2,
            ErrorShowType::Notification => 3,
            ErrorShowType::Redirect => 9,
        }
    }
}

/// Whether a request succeeded.
pub enum ErrorCodeType {
    Success,
    Fail,
}

impl ErrorCodeType {
    /// The number that stands for the outcome.
    pub open spec fn number(self) -> i8 {
        match self {
            ErrorCodeType::Success => 0i8,
            ErrorCodeType::Fail => -1i8,
        }
    }
}

/// An answer.
#[derive(Debug)]
pub struct Res<T> {
    pub data: Option<T>,
    pub success: bool,
    pub error_message: Option<String>,
    pub error_code: Option<i8>,
    pub show_type: u8,
}

/// The number of an optional way of showing; none is silent.
pub open spec fn show_number(show_type: Option<ErrorShowType>) -> u8 {
    match show_type {
        Some(show_type) => show_type.number(),
        None => 0,
    }
}

/// The number of an optional outcome.
pub open spec fn code_number(error_code: Option<ErrorCodeType>) -> Option<i8> {
    match error_code {
        Some(error_code) => Some(error_code.number()),
        None => None,
    }
}

impl<T> Default for Res<T> {
    fn default() -> (r: Self)
        ensures
            r.data is None,
            !r.success,
            r.error_message is None,
            r.error_code is None,
            r.show_type == 0,
    {
        Res { data: None, success: false, error_message: None, error_code: None, show_type: 0 }
    }
}

impl<T> Res<T> {
    /// The answer to a request that succeeded: the data, the message
    /// `success`, the code of success, shown as a notification.
    pub fn with_data(data: T) -> (r: Self)
        ensures
            r.data == Some(data),
            r.success,
            text_view(r.error_message) == Some("success"@),
            r.error_code == Some(0i8),
            r.show_type == 3,
    {
        Res {
            data: Some(data),
            success: true,
            error_message: Some(String::from_str("success")),
            error_code: Some(0),
            show_type: 3,
        }
    }

    /// The answer to a request that failed: no data, the message `err`,
    /// the code of failure, shown as `show_type` says.
    pub fn with_err(err: &str, show_type: ErrorShowType) -> (r: Self)
        ensures
            r.data is None,
            !r.success,
            text_view(r.error_message) == Some(err@),
            r.error_code == Some(-1i8),
            r.show_type == show_type.number(),
    {
        let number = Self::show_type_number(show_type);
        Res {
            data: None,
            success: false,
            error_message: Some(String::from_str(err)),
            error_code: Some(-1),
            show_type: number,
        }
    }

    /// An answer with every part given: the data, the message, whether
    /// the request succeeded, how to show the message (silently where
    /// nothing is said), and the code, if any.
    pub fn with_msg(
        data: Option<T>,
        msg: &str,
        success: bool,
        show_type: Option<ErrorShowType>,
        error_code: Option<ErrorCodeType>,
    ) -> (r: Self)
        ensures
            r.data == data,
            r.success == success,
            text_view(r.error_message) == Some(msg@),
            r.error_code == code_number(error_code),
            r.show_type == show_number(show_type),
    {
        let number = match show_type {
            Some(t) => Self::show_type_number(t),
            None => 0,
        };
        let code = match error_code {
            Some(c) => Some(Self::error_code_number(c)),
            None => None,
        };
        Res {
            data,
            success,
            error_message: Some(String::from_str(msg)),
            error_code: code,
            show_type: number,
        }
    }

    /// The number that stands for a way of showing a message.
    pub fn show_type_number(show_type: ErrorShowType) -> (r: u8)
        ensures
            r == show_type.number(),
    {
        match show_type {
            ErrorShowType::Silent => 0,
            ErrorShowType::WarnMessage => 1,
            ErrorShowType::ErrorMessage => 2,
            ErrorShowType::Notification => 3,
            ErrorShowType::Redirect => 9,
        }
    }

    /// The number that stands for an outcome.
    pub fn error_code_number(error_code: ErrorCodeType) -> (r: i8)
        ensures
            r == error_code.number(),
    {
        match error_code {
            ErrorCodeType::Success => 0,
            ErrorCodeType::Fail => -1,
        }
    }
}

} // verus!
