//! The error type that commands report: a code, a message and an optional detail.
use vstd::prelude::*;
use crate::text::{append_str, string_from_chars, concat3};

verus! {

/// Error codes, grouped by area: general (1xxx), clipboard (2xxx), classifier (3xxx),
/// actions (4xxx), models (5xxx) and configuration (6xxx).
#[derive(Debug, Clone, Copy, PartialEq, Eq)]
pub enum ErrorCode {
    Unknown,
    InvalidInput,
    NotFound,
    PermissionDenied,
    Timeout,
    ClipboardAccessDenied,
    ClipboardEmpty,
    ClipboardWriteFailed,
    ClassifyFailed,
    ActionNotFound,
    ActionExecutionFailed,
    ActionTimeout,
    ModelNotConfigured,
    ModelConnectionFailed,
    ModelRequestFailed,
    ModelResponseInvalid,
    ApiKeyMissing,
    ConfigLoadFailed,
    ConfigSaveFailed,
    ConfigInvalid,
}

/// The number of an error code.
pub open spec fn code_number(c: ErrorCode) -> u32 {
    match c {
        ErrorCode::Unknown => 1000,
        ErrorCode::InvalidInput => 1001,
        ErrorCode::NotFound => 1002,
        ErrorCode::PermissionDenied => 1003,
        ErrorCode::Timeout => 1004,
        ErrorCode::ClipboardAccessDenied => 2001,
        ErrorCode::ClipboardEmpty => 2002,
        ErrorCode::ClipboardWriteFailed => 2003,
        ErrorCode::ClassifyFailed => 3001,
        ErrorCode::ActionNotFound => 4001,
        ErrorCode::ActionExecutionFailed => 4002,
        ErrorCode::ActionTimeout => 4003,
        ErrorCode::ModelNotConfigured => 5001,
        ErrorCode::ModelConnectionFailed => 5002,
        ErrorCode::ModelRequestFailed => 5003,
        ErrorCode::ModelResponseInvalid => 5004,
        ErrorCode::ApiKeyMissing => 5005,
        ErrorCode::ConfigLoadFailed => 6001,
        ErrorCode::ConfigSaveFailed => 6002,
        ErrorCode::ConfigInvalid => 6003,
    }
}

/// The name of an error code, as its `Debug` form shows it.
pub open spec fn code_name(c: ErrorCode) -> Seq<char> {
    match c {
        ErrorCode::Unknown => "Unknown"@,
        ErrorCode::InvalidInput => "InvalidInput"@,
        ErrorCode::NotFound => "NotFound"@,
        ErrorCode::PermissionDenied => "PermissionDenied"@,
        ErrorCode::Timeout => "Timeout"@,
        ErrorCode::ClipboardAccessDenied => "ClipboardAccessDenied"@,
        ErrorCode::ClipboardEmpty => "ClipboardEmpty"@,
        ErrorCode::ClipboardWriteFailed => "ClipboardWriteFailed"@,
        ErrorCode::ClassifyFailed => "ClassifyFailed"@,
        ErrorCode::ActionNotFound => "ActionNotFound"@,
        ErrorCode::ActionExecutionFailed => "ActionExecutionFailed"@,
        ErrorCode::ActionTimeout => "ActionTimeout"@,
        ErrorCode::ModelNotConfigured => "ModelNotConfigured"@,
        ErrorCode::ModelConnectionFailed => "ModelConnectionFailed"@,
        ErrorCode::ModelRequestFailed => "ModelRequestFailed"@,
        ErrorCode::ModelResponseInvalid => "ModelResponseInvalid"@,
        ErrorCode::ApiKeyMissing => "ApiKeyMissing"@,
        ErrorCode::ConfigLoadFailed => "ConfigLoadFailed"@,
        ErrorCode::ConfigSaveFailed => "ConfigSaveFailed"@,
        ErrorCode::ConfigInvalid => "ConfigInvalid"@,
    }
}

impl ErrorCode {
    /// The number of this code.
    pub fn number(&self) -> (r: u32)
        ensures
            r == code_number(*self),
    {
        match self {
            ErrorCode::Unknown => 1000,
            ErrorCode::InvalidInput => 1001,
            ErrorCode::NotFound => 1002,
            ErrorCode::PermissionDenied => 1003,
            ErrorCode::Timeout => 1004,
            ErrorCode::ClipboardAccessDenied => 2001,
            ErrorCode::ClipboardEmpty => 2002,
            ErrorCode::ClipboardWriteFailed => 2003,
            ErrorCode::ClassifyFailed => 3001,
            ErrorCode::ActionNotFound => 4001,
            ErrorCode::ActionExecutionFailed => 4002,
            ErrorCode::ActionTimeout => 4003,
            ErrorCode::ModelNotConfigured => 5001,
            ErrorCode::ModelConnectionFailed => 5002,
            ErrorCode::ModelRequestFailed => 5003,
            ErrorCode::ModelResponseInvalid => 5004,
            ErrorCode::ApiKeyMissing => 5005,
            ErrorCode::ConfigLoadFailed => 6001,
            ErrorCode::ConfigSaveFailed => 6002,
            ErrorCode::ConfigInvalid => 6003,
        }
    }

    /// The name of this code.
    pub fn name(&self) -> (r: &'static str)
        ensures
            r@ == code_name(*self),
    {
        match self {
            ErrorCode::Unknown => "Unknown",
            ErrorCode::InvalidInput => "InvalidInput",
            ErrorCode::NotFound => "NotFound",
            ErrorCode::PermissionDenied => "PermissionDenied",
            ErrorCode::Timeout => "Timeout",
            ErrorCode::ClipboardAccessDenied => "ClipboardAccessDenied",
            ErrorCode::ClipboardEmpty => "ClipboardEmpty",
            ErrorCode::ClipboardWriteFailed => "ClipboardWriteFailed",
            ErrorCode::ClassifyFailed => "ClassifyFailed",
            ErrorCode::ActionNotFound => "ActionNotFound",
            ErrorCode::ActionExecutionFailed => "ActionExecutionFailed",
            ErrorCode::ActionTimeout => "ActionTimeout",
            ErrorCode::ModelNotConfigured => "ModelNotConfigured",
            ErrorCode::ModelConnectionFailed => "ModelConnectionFailed",
            ErrorCode::ModelRequestFailed => "ModelRequestFailed",
            ErrorCode::ModelResponseInvalid => "ModelResponseInvalid",
            ErrorCode::ApiKeyMissing => "ApiKeyMissing",
            ErrorCode::ConfigLoadFailed => "ConfigLoadFailed",
            ErrorCode::ConfigSaveFailed => "ConfigSaveFailed",
            ErrorCode::ConfigInvalid => "ConfigInvalid",
        }
    }
}

/// An error that a command reports.
#[derive(Debug, Clone)]
pub struct AppError {
    pub code: ErrorCode,
    pub message: String,
    pub detail: Option<String>,
}

/// `e` has this code and message, and no detail.
pub open spec fn error_is(e: AppError, code: ErrorCode, message: Seq<char>) -> bool {
    e.code == code && e.message@ == message && e.detail is None
}

impl AppError {
    /// An error with a code and a message.
    pub fn new(code: ErrorCode, message: &str) -> (r: AppError)
        ensures
            error_is(r, code, message@),
    {
        AppError { code, message: message.to_owned(), detail: None }
    }

    /// The same error with a detail attached.
    pub fn with_detail(self, detail: &str) -> (r: AppError)
        ensures
            r.code == self.code,
            r.message@ == self.message@,
            r.detail matches Some(d) && d@ == detail@,
    {
        let mut e = self;
        e.detail = Some(detail.to_owned());
        e
    }

    /// "[Code] message", as the error is displayed.
    pub fn display_text(&self) -> (r: String)
        ensures
            r@ == "["@ + code_name(self.code) + "] "@ + self.message@,
    {
        let mut v: Vec<char> = Vec::new();
        append_str(&mut v, "[");
        append_str(&mut v, self.code.name());
        append_str(&mut v, "] ");
        append_str(&mut v, self.message.as_str());
        string_from_chars(&v)
    }

    /// The clipboard cannot be accessed.
    pub fn clipboard_access() -> (r: AppError)
        ensures
            error_is(r, ErrorCode::ClipboardAccessDenied, "无法访问剪贴板"@),
    {
        Self::new(ErrorCode::ClipboardAccessDenied, "无法访问剪贴板")
    }

    /// The clipboard is empty.
    pub fn clipboard_empty() -> (r: AppError)
        ensures
            error_is(r, ErrorCode::ClipboardEmpty, "剪贴板为空"@),
    {
        Self::new(ErrorCode::ClipboardEmpty, "剪贴板为空")
    }

    /// No action has this id.
    pub fn action_not_found(id: &str) -> (r: AppError)
        ensures
            error_is(r, ErrorCode::ActionNotFound, "操作 '"@ + id@ + "' 未找到"@),
    {
        let m = concat3("操作 '", id, "' 未找到");
        Self::new(ErrorCode::ActionNotFound, m.as_str())
    }

    /// An action failed.
    pub fn action_failed(msg: &str) -> (r: AppError)
        ensures
            error_is(r, ErrorCode::ActionExecutionFailed, msg@),
    {
        Self::new(ErrorCode::ActionExecutionFailed, msg)
    }

    /// No inference backend is configured.
    pub fn model_not_configured() -> (r: AppError)
        ensures
            error_is(r, ErrorCode::ModelNotConfigured, "未配置推理后端"@),
    {
        Self::new(ErrorCode::ModelNotConfigured, "未配置推理后端")
    }

    /// A backend has no API key.
    pub fn api_key_missing(backend: &str) -> (r: AppError)
        ensures
            error_is(r, ErrorCode::ApiKeyMissing, "后端 '"@ + backend@ + "' 缺少 API Key"@),
    {
        let m = concat3("后端 '", backend, "' 缺少 API Key");
        Self::new(ErrorCode::ApiKeyMissing, m.as_str())
    }

    /// Something took too long.
    pub fn timeout(msg: &str) -> (r: AppError)
        ensures
            error_is(r, ErrorCode::Timeout, msg@),
    {
        Self::new(ErrorCode::Timeout, msg)
    }

    /// The configuration could not be loaded; `err` is the cause's message.
    pub fn config_load(err: &str) -> (r: AppError)
        ensures
            error_is(r, ErrorCode::ConfigLoadFailed, "配置加载失败: "@ + err@),
    {
        let m = concat3("配置加载失败: ", err, "");
        proof {
            reveal_strlit("");
            assert(m@ =~= "配置加载失败: "@ + err@);
        }
        Self::new(ErrorCode::ConfigLoadFailed, m.as_str())
    }

    /// The configuration could not be saved; `err` is the cause's message.
    pub fn config_save(err: &str) -> (r: AppError)
        ensures
            error_is(r, ErrorCode::ConfigSaveFailed, "配置保存失败: "@ + err@),
    {
        let m = concat3("配置保存失败: ", err, "");
        proof {
            reveal_strlit("");
            assert(m@ =~= "配置保存失败: "@ + err@);
        }
        Self::new(ErrorCode::ConfigSaveFailed, m.as_str())
    }
}

} // verus!
