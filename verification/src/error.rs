//! The library's error type, with one variant per kind of failure.

use vstd::prelude::*;

use crate::text::join2;

verus! {

/// What went wrong. Failures that come from I/O carry the outside error's
/// message as text; failures that the library decides carry their own text.
#[derive(Debug, Clone)]
pub enum Error {
    /// The configuration file could not be read.
    ConfigRead(String),
    /// The configuration file is not valid TOML for a configuration.
    ConfigParse(String),
    /// The configuration file could not be written.
    ConfigWrite(String),
    /// The configuration could not be turned into TOML.
    ConfigSerialize(String),
    /// The system keyring refused an operation.
    Keyring(String),
    /// A D-Bus call failed.
    Dbus(String),
    /// An HTTP request failed.
    Http(String),
    /// Any other failure, described by its text.
    Other(String),
}

/// An [`Error`] with its text taken as a character sequence.
pub enum ErrorView {
    ConfigRead(Seq<char>),
    ConfigParse(Seq<char>),
    ConfigWrite(Seq<char>),
    ConfigSerialize(Seq<char>),
    Keyring(Seq<char>),
    Dbus(Seq<char>),
    Http(Seq<char>),
    Other(Seq<char>),
}

impl View for Error {
    type V = ErrorView;

    open spec fn view(&self) -> ErrorView {
        match self {
            Error::ConfigRead(m) => ErrorView::ConfigRead(m@),
            Error::ConfigParse(m) => ErrorView::ConfigParse(m@),
            Error::ConfigWrite(m) => ErrorView::ConfigWrite(m@),
            Error::ConfigSerialize(m) => ErrorView::ConfigSerialize(m@),
            Error::Keyring(m) => ErrorView::Keyring(m@),
            Error::Dbus(m) => ErrorView::Dbus(m@),
            Error::Http(m) => ErrorView::Http(m@),
            Error::Other(m) => ErrorView::Other(m@),
        }
    }
}

impl ErrorView {
    /// The text that reports this error to a user.
    pub open spec fn message(self) -> Seq<char> {
        match self {
            ErrorView::ConfigRead(m) => "读取配置文件失败："@ + m,
            ErrorView::ConfigParse(m) => "解析配置文件失败："@ + m,
            ErrorView::ConfigWrite(m) => "保存配置文件失败："@ + m,
            ErrorView::ConfigSerialize(m) => "序列化配置失败："@ + m,
            ErrorView::Keyring(m) => "密钥环操作失败："@ + m,
            ErrorView::Dbus(m) => "DBus 操作失败："@ + m,
            ErrorView::Http(m) => "网络请求失败："@ + m,
            ErrorView::Other(m) => m,
        }
    }
}

impl Error {
    /// The text that reports this error to a user: a fixed heading for the
    /// kind of failure, then the carried text.
    pub fn message(&self) -> (s: String)
        ensures
            s@ == self@.message(),
    {
        match self {
            Error::ConfigRead(m) => join2("读取配置文件失败：", m.as_str()),
            Error::ConfigParse(m) => join2("解析配置文件失败：", m.as_str()),
            Error::ConfigWrite(m) => join2("保存配置文件失败：", m.as_str()),
            Error::ConfigSerialize(m) => join2("序列化配置失败：", m.as_str()),
            Error::Keyring(m) => join2("密钥环操作失败：", m.as_str()),
            Error::Dbus(m) => join2("DBus 操作失败：", m.as_str()),
            Error::Http(m) => join2("网络请求失败：", m.as_str()),
            Error::Other(m) => m.as_str().to_owned(),
        }
    }
}

/// Each error reads as a fixed heading for its kind followed by the text it
/// carries; an `Other` error reads as its text alone.
pub proof fn lemma_error_message_texts(m: Seq<char>)
    ensures
        ErrorView::ConfigRead(m).message() == "读取配置文件失败："@ + m,
        ErrorView::ConfigParse(m).message() == "解析配置文件失败："@ + m,
        ErrorView::ConfigWrite(m).message() == "保存配置文件失败："@ + m,
        ErrorView::ConfigSerialize(m).message() == "序列化配置失败："@ + m,
        ErrorView::Keyring(m).message() == "密钥环操作失败："@ + m,
        ErrorView::Dbus(m).message() == "DBus 操作失败："@ + m,
        ErrorView::Http(m).message() == "网络请求失败："@ + m,
        ErrorView::Other(m).message() == m,
{
}

} // verus!

