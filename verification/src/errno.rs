//! The errors of a service, each with its code and its message.

use crate::api::Response;
use crate::shared_string::SharedString;
use vstd::prelude::*;
use vstd::string::StringExecFns;

verus! {

#[verifier::external_type_specification]
#[verifier::external_body]
pub struct ExAnyhowError(anyhow::Error);

#[verifier::external_type_specification]
#[verifier::external_body]
pub struct ExJsonError(serde_json::Error);

#[derive(Debug)]
pub enum ErrNo {
    LoginRequired,
    CommonError(SharedString),
    Other(anyhow::Error),
    ConfigError(SharedString),
    Timeout(SharedString),
    NoService(SharedString),
    ServiceBusy(SharedString),
    ServicePaused,
    NoSuchApi,
    SerializeError(serde_json::Error),
    DeserializeError(serde_json::Error),
    ApiError(anyhow::Error),
    Utf8Only,
    ParamFormatError,
    ParamInvalid(SharedString),
    TokenInvalid,
    NotAllowed,
    TooFrequent,
    MultipartRequired,
    UndefinedEnumValue(SharedString),
    NoDbClient,
    PrepareStatementError(anyhow::Error),
    QueryError(anyhow::Error),
    ExecuteError(anyhow::Error),
    OpenTransactionError(anyhow::Error),
    ExtractDataError(anyhow::Error),
    CommitTransactionError(anyhow::Error),
    NoCacheClient,
    CacheOperationError(anyhow::Error),
}

/// The `Display` of `anyhow::Error`: the text of the error.
#[verifier::external_body]
fn anyhow_text(error: &anyhow::Error) -> String {
    error.to_string()
}

/// The `Display` of `serde_json::Error`: the text of the error.
#[verifier::external_body]
fn json_text(error: &serde_json::Error) -> String {
    error.to_string()
}

/// The text before the detail of an error's message.
pub open spec fn message_head(err: ErrNo) -> Seq<char> {
    match err {
        ErrNo::LoginRequired => "用户未登录"@,
        ErrNo::CommonError(_) => ""@,
        ErrNo::Other(_) => ""@,
        ErrNo::ConfigError(_) => "配置错误，"@,
        ErrNo::Timeout(_) => "任务超时，"@,
        ErrNo::NoService(_) => "没有可用的"@,
        ErrNo::ServiceBusy(_) => ""@,
        ErrNo::ServicePaused => "暂停服务"@,
        ErrNo::NoSuchApi => "接口不存在"@,
        ErrNo::SerializeError(_) => "序列化数据失败,"@,
        ErrNo::DeserializeError(_) => "反序列化数据失败,"@,
        ErrNo::ApiError(_) => "调用远程接口失败,"@,
        ErrNo::Utf8Only => "只支持UTF-8格式的数据"@,
        ErrNo::ParamFormatError => "参数格式不正确"@,
        ErrNo::ParamInvalid(_) => "参数无效,"@,
        ErrNo::TokenInvalid => "令牌无效"@,
        ErrNo::NotAllowed => "没有权限"@,
        ErrNo::TooFrequent => "访问太频繁"@,
        ErrNo::MultipartRequired => "文件上传请求格式不正确"@,
        ErrNo::UndefinedEnumValue(_) => "未定义的枚举值,"@,
        ErrNo::NoDbClient => "没有数据库连接"@,
        ErrNo::PrepareStatementError(_) => "预编译sql失败,"@,
        ErrNo::QueryError(_) => "查询数据失败,"@,
        ErrNo::ExecuteError(_) => "数据操作失败,"@,
        ErrNo::OpenTransactionError(_) => "开启数据库事务失败,"@,
        ErrNo::ExtractDataError(_) => "获取数据字段失败,"@,
        ErrNo::CommitTransactionError(_) => "提交数据库事务失败,"@,
        ErrNo::NoCacheClient => "没有缓存连接"@,
        ErrNo::CacheOperationError(_) => "缓存操作失败,"@,
    }
}

/// The text behind the detail of an error's message.
pub open spec fn message_tail(err: ErrNo) -> Seq<char> {
    match err {
        ErrNo::NoService(_) => "服务"@,
        ErrNo::ServiceBusy(_) => "服务忙"@,
        _ => ""@,
    }
}

/// The detail of an error's message, where the error carries a text.
pub open spec fn message_detail(err: ErrNo) -> Option<Seq<char>> {
    match err {
        ErrNo::CommonError(text) => Some(text@),
        ErrNo::ConfigError(text) => Some(text@),
        ErrNo::Timeout(text) => Some(text@),
        ErrNo::NoService(text) => Some(text@),
        ErrNo::ServiceBusy(text) => Some(text@),
        ErrNo::ParamInvalid(text) => Some(text@),
        ErrNo::UndefinedEnumValue(text) => Some(text@),
        ErrNo::LoginRequired => Some(""@),
        ErrNo::ServicePaused => Some(""@),
        ErrNo::NoSuchApi => Some(""@),
        ErrNo::Utf8Only => Some(""@),
        ErrNo::ParamFormatError => Some(""@),
        ErrNo::TokenInvalid => Some(""@),
        ErrNo::NotAllowed => Some(""@),
        ErrNo::TooFrequent => Some(""@),
        ErrNo::MultipartRequired => Some(""@),
        ErrNo::NoDbClient => Some(""@),
        ErrNo::NoCacheClient => Some(""@),
        _ => None,
    }
}

/// The code of an error.
pub open spec fn code_of(err: ErrNo) -> int {
    match err {
        ErrNo::LoginRequired => -1,
        ErrNo::CommonError(_) => -2,
        ErrNo::Other(_) => -3,
        ErrNo::ConfigError(_) => -4,
        ErrNo::Timeout(_) => -5,
        ErrNo::NoService(_) => -6,
        ErrNo::ServiceBusy(_) => -7,
        ErrNo::ServicePaused => -8,
        ErrNo::NoSuchApi => -9,
        ErrNo::SerializeError(_) => -10,
        ErrNo::DeserializeError(_) => -11,
        ErrNo::ApiError(_) => -12,
        ErrNo::Utf8Only => -13,
        ErrNo::ParamFormatError => -14,
        ErrNo::ParamInvalid(_) => -15,
        ErrNo::TokenInvalid => -16,
        ErrNo::NotAllowed => -17,
        ErrNo::TooFrequent => -18,
        ErrNo::MultipartRequired => -19,
        ErrNo::UndefinedEnumValue(_) => -20,
        ErrNo::NoDbClient => -21,
        ErrNo::PrepareStatementError(_) => -22,
        ErrNo::QueryError(_) => -23,
        ErrNo::ExecuteError(_) => -24,
        ErrNo::OpenTransactionError(_) => -25,
        ErrNo::ExtractDataError(_) => -26,
        ErrNo::CommitTransactionError(_) => -27,
        ErrNo::NoCacheClient => -28,
        ErrNo::CacheOperationError(_) => -29,
    }
}

/// The message of an error with the given detail.
pub open spec fn message_with(err: ErrNo, detail: Seq<char>) -> Seq<char> {
    message_head(err) + detail + message_tail(err)
}

impl ErrNo {
    pub fn code(&self) -> (r: i32)
        ensures
            r == code_of(*self),
            -29 <= r <= -1,
    {
        match self {
            ErrNo::LoginRequired => -1,
            ErrNo::CommonError(_) => -2,
            ErrNo::Other(_) => -3,
            ErrNo::ConfigError(_) => -4,
            ErrNo::Timeout(_) => -5,
            ErrNo::NoService(_) => -6,
            ErrNo::ServiceBusy(_) => -7,
            ErrNo::ServicePaused => -8,
            ErrNo::NoSuchApi => -9,
            ErrNo::SerializeError(_) => -10,
            ErrNo::DeserializeError(_) => -11,
            ErrNo::ApiError(_) => -12,
            ErrNo::Utf8Only => -13,
            ErrNo::ParamFormatError => -14,
            ErrNo::ParamInvalid(_) => -15,
            ErrNo::TokenInvalid => -16,
            ErrNo::NotAllowed => -17,
            ErrNo::TooFrequent => -18,
            ErrNo::MultipartRequired => -19,
            ErrNo::UndefinedEnumValue(_) => -20,
            ErrNo::NoDbClient => -21,
            ErrNo::PrepareStatementError(_) => -22,
            ErrNo::QueryError(_) => -23,
            ErrNo::ExecuteError(_) => -24,
            ErrNo::OpenTransactionError(_) => -25,
            ErrNo::ExtractDataError(_) => -26,
            ErrNo::CommitTransactionError(_) => -27,
            ErrNo::NoCacheClient => -28,
            ErrNo::CacheOperationError(_) => -29,
        }
    }

    /// The text before the detail of the message.
    fn head(&self) -> (r: &'static str)
        ensures
            r@ == message_head(*self),
    {
        match self {
            ErrNo::LoginRequired => "用户未登录",
            ErrNo::CommonError(_) => "",
            ErrNo::Other(_) => "",
            ErrNo::ConfigError(_) => "配置错误，",
            ErrNo::Timeout(_) => "任务超时，",
            ErrNo::NoService(_) => "没有可用的",
            ErrNo::ServiceBusy(_) => "",
            ErrNo::ServicePaused => "暂停服务",
            ErrNo::NoSuchApi => "接口不存在",
            ErrNo::SerializeError(_) => "序列化数据失败,",
            ErrNo::DeserializeError(_) => "反序列化数据失败,",
            ErrNo::ApiError(_) => "调用远程接口失败,",
            ErrNo::Utf8Only => "只支持UTF-8格式的数据",
            ErrNo::ParamFormatError => "参数格式不正确",
            ErrNo::ParamInvalid(_) => "参数无效,",
            ErrNo::TokenInvalid => "令牌无效",
            ErrNo::NotAllowed => "没有权限",
            ErrNo::TooFrequent => "访问太频繁",
            ErrNo::MultipartRequired => "文件上传请求格式不正确",
            ErrNo::UndefinedEnumValue(_) => "未定义的枚举值,",
            ErrNo::NoDbClient => "没有数据库连接",
            ErrNo::PrepareStatementError(_) => "预编译sql失败,",
            ErrNo::QueryError(_) => "查询数据失败,",
            ErrNo::ExecuteError(_) => "数据操作失败,",
            ErrNo::OpenTransactionError(_) => "开启数据库事务失败,",
            ErrNo::ExtractDataError(_) => "获取数据字段失败,",
            ErrNo::CommitTransactionError(_) => "提交数据库事务失败,",
            ErrNo::NoCacheClient => "没有缓存连接",
            ErrNo::CacheOperationError(_) => "缓存操作失败,",
        }
    }

    /// The text behind the detail of the message.
    fn tail(&self) -> (r: &'static str)
        ensures
            r@ == message_tail(*self),
    {
        match self {
            ErrNo::NoService(_) => "服务",
            ErrNo::ServiceBusy(_) => "服务忙",
            _ => "",
        }
    }

    /// The detail of the message: the text that the error carries, or the
    /// text of the error from outside that it carries.
    fn detail(&self) -> (r: String)
        ensures
            message_detail(*self) is Some ==> r@ == message_detail(*self)->Some_0,
    {
        proof {
            reveal_strlit("");
        }
        match self {
            ErrNo::CommonError(text) => text.to_string(),
            ErrNo::ConfigError(text) => text.to_string(),
            ErrNo::Timeout(text) => text.to_string(),
            ErrNo::NoService(text) => text.to_string(),
            ErrNo::ServiceBusy(text) => text.to_string(),
            ErrNo::ParamInvalid(text) => text.to_string(),
            ErrNo::UndefinedEnumValue(text) => text.to_string(),
            ErrNo::Other(error) => anyhow_text(error),
            ErrNo::ApiError(error) => anyhow_text(error),
            ErrNo::PrepareStatementError(error) => anyhow_text(error),
            ErrNo::QueryError(error) => anyhow_text(error),
            ErrNo::ExecuteError(error) => anyhow_text(error),
            ErrNo::OpenTransactionError(error) => anyhow_text(error),
            ErrNo::ExtractDataError(error) => anyhow_text(error),
            ErrNo::CommitTransactionError(error) => anyhow_text(error),
            ErrNo::CacheOperationError(error) => anyhow_text(error),
            ErrNo::SerializeError(error) => json_text(error),
            ErrNo::DeserializeError(error) => json_text(error),
            _ => String::new(),
        }
    }

    /// The message of the error: a fixed text around the detail. The detail
    /// is the text that the error carries, or the text of the error from
    /// outside that it carries.
    pub fn message(&self) -> (r: SharedString)
        ensures
            exists|detail: Seq<char>|
                r@ == #[trigger] message_with(*self, detail) && (message_detail(*self) is Some
                    ==> detail == message_detail(*self)->Some_0),
    {
        let detail = self.detail();
        let text = String::from_str(self.head()).concat(detail.as_str()).concat(self.tail());
        assert(text@ == message_with(*self, detail@));
        SharedString::from(text)
    }

    /// The answer that reports this error: its code, its message and no
    /// data.
    pub fn into_response<T>(self) -> (r: Response<T>)
        ensures
            r.code == code_of(self),
            r.data is None,
            exists|detail: Seq<char>|
                r.message@ == #[trigger] message_with(self, detail) && (message_detail(self)
                    is Some ==> detail == message_detail(self)->Some_0),
    {
        Response::failure(self.code(), self.message(), None)
    }
}

impl From<anyhow::Error> for ErrNo {
    fn from(error: anyhow::Error) -> (r: ErrNo) {
        ErrNo::Other(error)
    }
}

impl vstd::std_specs::convert::FromSpecImpl<anyhow::Error> for ErrNo {
    open spec fn obeys_from_spec() -> bool {
        true
    }

    open spec fn from_spec(error: anyhow::Error) -> ErrNo {
        ErrNo::Other(error)
    }
}

pub fn open_transaction_error(error: anyhow::Error) -> (r: ErrNo)
    ensures
        r == ErrNo::OpenTransactionError(error),
{
    ErrNo::OpenTransactionError(error)
}

pub fn prepare_statement_error(error: anyhow::Error) -> (r: ErrNo)
    ensures
        r == ErrNo::PrepareStatementError(error),
{
    ErrNo::PrepareStatementError(error)
}

pub fn query_error(error: anyhow::Error) -> (r: ErrNo)
    ensures
        r == ErrNo::QueryError(error),
{
    ErrNo::QueryError(error)
}

pub fn undefined_enum_value(err_msg: SharedString) -> (r: ErrNo)
    ensures
        r == ErrNo::UndefinedEnumValue(err_msg),
{
    ErrNo::UndefinedEnumValue(err_msg)
}

pub fn extract_data_error(error: anyhow::Error) -> (r: ErrNo)
    ensures
        r == ErrNo::ExtractDataError(error),
{
    ErrNo::ExtractDataError(error)
}

pub fn execute_error(error: anyhow::Error) -> (r: ErrNo)
    ensures
        r == ErrNo::ExecuteError(error),
{
    ErrNo::ExecuteError(error)
}

pub fn commit_transaction_error(error: anyhow::Error) -> (r: ErrNo)
    ensures
        r == ErrNo::CommitTransactionError(error),
{
    ErrNo::CommitTransactionError(error)
}

} // verus!
