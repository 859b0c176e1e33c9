//! Error values of the bridge and the Bilibili error-code tables.
use vstd::prelude::*;
use crate::text::{push_i64, push_str, string_of, dec_int};

verus! {

/// Every error the bridge reports.
pub enum AppError {
    /// An error that a Bilibili API call answered: the operation, its code and message.
    BiliAPI { operation: &'static str, code: i64, message: String },
    /// A service that stopped: its role and what happened.
    Crash(&'static str, String),
    /// Any other failure, with its message.
    General(String),
}

impl AppError {
    /// The text that the error displays.
    pub open spec fn describe_spec(&self) -> Seq<char> {
        match self {
            AppError::BiliAPI { operation, code, message } =>
                "BiliAPI ("@ + operation@ + ", code="@ + dec_int(*code as int) + "): "@ + message@,
            AppError::Crash(role, detail) => role@ + " crashed - "@ + detail@,
            AppError::General(message) => message@,
        }
    }

    /// Builds a Bilibili API error.
    pub fn bili_api(operation: &'static str, code: i64, message: String) -> (e: AppError)
        ensures
            e == (AppError::BiliAPI { operation, code, message }),
    {
        AppError::BiliAPI { operation, code, message }
    }

    /// Builds the error of a service that stopped.
    pub fn crash(role: &'static str, detail: String) -> (e: AppError)
        ensures
            e == AppError::Crash(role, detail),
    {
        AppError::Crash(role, detail)
    }

    /// The text that the error displays, as its `Display` form writes it.
    pub fn describe(&self) -> (s: String)
        ensures
            s@ == self.describe_spec(),
    {
        match self {
            AppError::BiliAPI { operation, code, message } => {
                let mut s = string_of("BiliAPI (");
                push_str(&mut s, operation);
                push_str(&mut s, ", code=");
                push_i64(&mut s, *code);
                push_str(&mut s, "): ");
                push_str(&mut s, message.as_str());
                s
            },
            AppError::Crash(role, detail) => {
                let mut s = string_of(role);
                push_str(&mut s, " crashed - ");
                push_str(&mut s, detail.as_str());
                s
            },
            AppError::General(message) => string_of(message.as_str()),
        }
    }
}

/// The meaning of the error codes that every Bilibili API may answer.
pub open spec fn common_error_spec(code: i64) -> Option<Seq<char>> {
    if code == -400 {
        Some("请求参数错误"@)
    } else if code == -101 {
        Some("未登录"@)
    } else if code == -3 {
        Some("API校验密匙错误"@)
    } else if code == 3 {
        Some("鉴权失败"@)
    } else if code == 4 {
        Some("没有权限"@)
    } else if code == 65530 {
        Some("登录已失效"@)
    } else {
        None
    }
}

/// The message of a code common to all Bilibili APIs, if it is one.
pub fn bili_common_error(code: i64) -> (r: Option<&'static str>)
    ensures
        r matches Some(m) ==> common_error_spec(code) == Some(m@),
        r is None <==> common_error_spec(code) is None,
{
    if code == -400 {
        Some("请求参数错误")
    } else if code == -101 {
        Some("未登录")
    } else if code == -3 {
        Some("API校验密匙错误")
    } else if code == 3 {
        Some("鉴权失败")
    } else if code == 4 {
        Some("没有权限")
    } else if code == 65530 {
        Some("登录已失效")
    } else {
        None
    }
}

/// The message for a failed start of a live broadcast: the codes of that API
/// first, then the common codes, else the raw message.
pub open spec fn start_live_error_spec(code: i64, raw: Seq<char>) -> Seq<char> {
    if code == 60009 {
        "分区不存在"@
    } else if code == 60013 {
        "所在地区受实名认证限制无法开播"@
    } else if code == 60024 {
        "目标分区需要人脸认证"@
    } else if code == 60034 {
        "系统维护仅支持直播姬开播"@
    } else if code == 60037 {
        "在线开播已下线"@
    } else if code == 60043 {
        "本次开播需要身份验证"@
    } else {
        match common_error_spec(code) {
            Some(m) => m,
            None => raw,
        }
    }
}

/// The message for a failed start of a live broadcast.
pub fn start_live_error(code: i64, raw: &str) -> (s: String)
    ensures
        s@ == start_live_error_spec(code, raw@),
{
    if code == 60009 {
        string_of("分区不存在")
    } else if code == 60013 {
        string_of("所在地区受实名认证限制无法开播")
    } else if code == 60024 {
        string_of("目标分区需要人脸认证")
    } else if code == 60034 {
        string_of("系统维护仅支持直播姬开播")
    } else if code == 60037 {
        string_of("在线开播已下线")
    } else if code == 60043 {
        string_of("本次开播需要身份验证")
    } else {
        match bili_common_error(code) {
            Some(m) => string_of(m),
            None => string_of(raw),
        }
    }
}

/// How a streaming run ended.
pub enum FfmpegExitStatus {
    /// It ended normally (end of input or stopped on request).
    Normal,
    /// It failed.
    Error(FfmpegErrorKind),
}

/// Why a streaming run failed.
pub enum FfmpegErrorKind {
    /// The process was killed by a signal.
    Crash(String),
    /// The connection broke or a read or write failed.
    IoError(String),
}

impl FfmpegExitStatus {
    /// The report of a failed run.
    pub open spec fn message_spec(&self) -> Seq<char> {
        match self {
            FfmpegExitStatus::Error(FfmpegErrorKind::Crash(s)) => "Crash: "@ + s@,
            FfmpegExitStatus::Error(FfmpegErrorKind::IoError(s)) => "I/O: "@ + s@,
            FfmpegExitStatus::Normal => Seq::empty(),
        }
    }

    /// The report of a failed run; a normal end has none.
    pub fn message(&self) -> (s: String)
        requires
            !(self matches FfmpegExitStatus::Normal),
        ensures
            s@ == self.message_spec(),
    {
        match self {
            FfmpegExitStatus::Error(FfmpegErrorKind::Crash(d)) => {
                let mut s = string_of("Crash: ");
                push_str(&mut s, d.as_str());
                s
            },
            FfmpegExitStatus::Error(FfmpegErrorKind::IoError(d)) => {
                let mut s = string_of("I/O: ");
                push_str(&mut s, d.as_str());
                s
            },
            FfmpegExitStatus::Normal => String::new(),
        }
    }
}

} // verus!

verus! {

/// The kind of an I/O error, as far as the messages tell them apart.
#[derive(Debug, Clone, Copy, PartialEq, Eq, Structural)]
pub enum IoKind {
    NotFound,
    PermissionDenied,
    TimedOut,
    ConnectionRefused,
    ConnectionReset,
    ConnectionAborted,
    NotConnected,
    Other,
}

/// The prefix of the message of an I/O error of this kind.
pub open spec fn io_prefix(kind: IoKind) -> Seq<char> {
    match kind {
        IoKind::NotFound => "file not found: "@,
        IoKind::PermissionDenied => "permission denied: "@,
        IoKind::TimedOut => "IO timeout: "@,
        IoKind::ConnectionRefused | IoKind::ConnectionReset | IoKind::ConnectionAborted
        | IoKind::NotConnected => "connection failed: "@,
        IoKind::Other => "IO error: "@,
    }
}

/// An I/O error as the bridge reports it: its kind's prefix, then its text.
pub fn io_error(kind: IoKind, detail: &str) -> (e: AppError)
    ensures
        e matches AppError::General(m) && m@ == io_prefix(kind) + detail@,
{
    let mut m = match kind {
        IoKind::NotFound => string_of("file not found: "),
        IoKind::PermissionDenied => string_of("permission denied: "),
        IoKind::TimedOut => string_of("IO timeout: "),
        IoKind::ConnectionRefused | IoKind::ConnectionReset | IoKind::ConnectionAborted
        | IoKind::NotConnected => string_of("connection failed: "),
        IoKind::Other => string_of("IO error: "),
    };
    push_str(&mut m, detail);
    AppError::General(m)
}

/// An HTTP error as the bridge reports it: a timeout, a failed connection, or
/// any other error, then its text.
pub fn http_error(is_timeout: bool, is_connect: bool, detail: &str) -> (e: AppError)
    ensures
        e matches AppError::General(m) && m@ == (if is_timeout {
            "HTTP timeout: "@
        } else if is_connect {
            "HTTP connect failed: "@
        } else {
            "HTTP error: "@
        }) + detail@,
{
    let mut m = if is_timeout {
        string_of("HTTP timeout: ")
    } else if is_connect {
        string_of("HTTP connect failed: ")
    } else {
        string_of("HTTP error: ")
    };
    push_str(&mut m, detail);
    AppError::General(m)
}

/// Where another error came from.
#[derive(Debug, Clone, Copy, PartialEq, Eq, Structural)]
pub enum ErrorSource {
    Json,
    TomlParse,
    TomlSerialize,
    AddrParse,
    CString,
    Blivemsg,
    Rtmp,
}

/// The prefix of the message of an error from this source.
pub open spec fn source_prefix(src: ErrorSource) -> Seq<char> {
    match src {
        ErrorSource::Json => "JSON parse error: "@,
        ErrorSource::TomlParse => "TOML parse error: "@,
        ErrorSource::TomlSerialize => "TOML serialize error: "@,
        ErrorSource::AddrParse => "address parse error: "@,
        ErrorSource::CString => "CString error: "@,
        ErrorSource::Blivemsg => "blivemsg: "@,
        ErrorSource::Rtmp => "rtmp: "@,
    }
}

/// An error of another library as the bridge reports it: its source's prefix, then its text.
pub fn source_error(src: ErrorSource, detail: &str) -> (e: AppError)
    ensures
        e matches AppError::General(m) && m@ == source_prefix(src) + detail@,
{
    let mut m = match src {
        ErrorSource::Json => string_of("JSON parse error: "),
        ErrorSource::TomlParse => string_of("TOML parse error: "),
        ErrorSource::TomlSerialize => string_of("TOML serialize error: "),
        ErrorSource::AddrParse => string_of("address parse error: "),
        ErrorSource::CString => string_of("CString error: "),
        ErrorSource::Blivemsg => string_of("blivemsg: "),
        ErrorSource::Rtmp => string_of("rtmp: "),
    };
    push_str(&mut m, detail);
    AppError::General(m)
}

} // verus!
