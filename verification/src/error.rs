//! Error types for the DLNA library

use vstd::prelude::*;
use crate::text::push_str;

verus! {

/// The kind of an I/O failure, as far as the library tells kinds apart.
#[derive(Debug, Clone, Copy, PartialEq, Eq, Structural)]
pub enum IoKind {
    NotFound,
    PermissionDenied,
    TimedOut,
    ConnectionRefused,
    ConnectionReset,
    ConnectionAborted,
    WouldBlock,
    NetworkUnreachable,
    HostUnreachable,
    InvalidInput,
    InvalidData,
    Other,
}

/// Main error type for the DLNA library
#[derive(Debug)]
pub enum Error {
    /// An I/O failure: its kind and its message.
    Io(IoKind, String),
    Network(String),
    Ssdp(String),
    Upnp(String),
    Xml(String),
    Http(String),
    DeviceNotFound(String),
    ServiceNotFound(String),
    FileNotFound(String),
    InvalidResponse(String),
    Timeout,
    InvalidRange(String),
    Config(String),
    Unsupported(String),
}

/// The message shown to a user for each kind of error.
pub open spec fn friendly_message_of(e: Error) -> Seq<char> {
    match e {
        Error::Io(..) => "Ошибка ввода/вывода. Проверьте доступ к файлам."@,
        Error::Network(_) => "Ошибка сети. Проверьте подключение."@,
        Error::Ssdp(_) => "Ошибка обнаружения устройств."@,
        Error::Upnp(_) => "Ошибка протокола UPnP."@,
        Error::Xml(_) => "Ошибка обработки ответа устройства."@,
        Error::Http(_) => "Ошибка HTTP соединения."@,
        Error::DeviceNotFound(_) => "Устройство не найдено в сети."@,
        Error::ServiceNotFound(_) => "Сервис не поддерживается устройством."@,
        Error::FileNotFound(_) => "Файл не найден."@,
        Error::InvalidResponse(_) => "Некорректный ответ устройства."@,
        Error::Timeout => "Превышено время ожидания ответа."@,
        Error::InvalidRange(_) => "Некорректный диапазон для потоковой передачи."@,
        Error::Config(_) => "Ошибка конфигурации."@,
        Error::Unsupported(_) => "Устройство не поддерживает эту функцию."@,
    }
}

/// The recovery actions suggested for each kind of error.
pub open spec fn recovery_actions_of(e: Error) -> Seq<Seq<char>> {
    match e {
        Error::Network(_) | Error::Ssdp(_) => seq![
            "Проверить Wi-Fi подключение"@,
            "Убедиться что устройство в той же сети"@,
            "Попробовать снова"@,
        ],
        Error::DeviceNotFound(_) => seq![
            "Повторить поиск устройств"@,
            "Проверить включено ли устройство"@,
            "Проверить сетевое подключение устройства"@,
        ],
        Error::Timeout => seq![
            "Попробовать снова"@,
            "Проверить доступность устройства"@,
            "Увеличить таймаут"@,
        ],
        Error::FileNotFound(_) => seq!["Проверить путь к файлу"@, "Убедиться что файл существует"@],
        Error::ServiceNotFound(_) => seq![
            "Проверить что устройство поддерживает DLNA"@,
            "Попробовать другое устройство"@,
        ],
        Error::Unsupported(_) => seq!["Попробовать другой протокол или устройство"@],
        _ => seq!["Попробовать снова"@],
    }
}

/// Which errors are worth retrying.
pub open spec fn recoverable(e: Error) -> bool {
    match e {
        Error::Timeout | Error::Network(_) | Error::Ssdp(_) | Error::Http(_) => true,
        Error::Io(kind, _) => kind == IoKind::TimedOut || kind == IoKind::ConnectionRefused
            || kind == IoKind::ConnectionReset || kind == IoKind::ConnectionAborted
            || kind == IoKind::WouldBlock,
        _ => false,
    }
}

/// The text of an error: its category and its detail.
pub open spec fn message_of(e: Error) -> Seq<char> {
    match e {
        Error::Io(_, m) => "IO error: "@ + m@,
        Error::Network(m) => "Network error: "@ + m@,
        Error::Ssdp(m) => "SSDP error: "@ + m@,
        Error::Upnp(m) => "UPnP error: "@ + m@,
        Error::Xml(m) => "XML parsing error: "@ + m@,
        Error::Http(m) => "HTTP error: "@ + m@,
        Error::DeviceNotFound(m) => "Device not found: "@ + m@,
        Error::ServiceNotFound(m) => "Service not found: "@ + m@,
        Error::FileNotFound(m) => "File not found: "@ + m@,
        Error::InvalidResponse(m) => "Invalid response: "@ + m@,
        Error::Timeout => "Timeout"@,
        Error::InvalidRange(m) => "Invalid range: "@ + m@,
        Error::Config(m) => "Configuration error: "@ + m@,
        Error::Unsupported(m) => "Unsupported: "@ + m@,
    }
}

fn prefixed(prefix: &str, detail: &String) -> (r: String)
    ensures
        r@ == prefix@ + detail@,
{
    let mut r = String::new();
    push_str(&mut r, prefix);
    push_str(&mut r, detail.as_str());
    r
}

impl Error {
    /// The error's text: its category followed by its detail.
    pub fn message(&self) -> (r: String)
        ensures
            r@ == message_of(*self),
    {
        match self {
            Error::Io(_, m) => prefixed("IO error: ", m),
            Error::Network(m) => prefixed("Network error: ", m),
            Error::Ssdp(m) => prefixed("SSDP error: ", m),
            Error::Upnp(m) => prefixed("UPnP error: ", m),
            Error::Xml(m) => prefixed("XML parsing error: ", m),
            Error::Http(m) => prefixed("HTTP error: ", m),
            Error::DeviceNotFound(m) => prefixed("Device not found: ", m),
            Error::ServiceNotFound(m) => prefixed("Service not found: ", m),
            Error::FileNotFound(m) => prefixed("File not found: ", m),
            Error::InvalidResponse(m) => prefixed("Invalid response: ", m),
            Error::Timeout => String::from_str("Timeout"),
            Error::InvalidRange(m) => prefixed("Invalid range: ", m),
            Error::Config(m) => prefixed("Configuration error: ", m),
            Error::Unsupported(m) => prefixed("Unsupported: ", m),
        }
    }

    /// Returns a user-friendly error message suitable for UI display
    pub fn user_friendly_message(&self) -> (r: String)
        ensures
            r@ == friendly_message_of(*self),
    {
        let s = match self {
            Error::Io(..) => "Ошибка ввода/вывода. Проверьте доступ к файлам.",
            Error::Network(_) => "Ошибка сети. Проверьте подключение.",
            Error::Ssdp(_) => "Ошибка обнаружения устройств.",
            Error::Upnp(_) => "Ошибка протокола UPnP.",
            Error::Xml(_) => "Ошибка обработки ответа устройства.",
            Error::Http(_) => "Ошибка HTTP соединения.",
            Error::DeviceNotFound(_) => "Устройство не найдено в сети.",
            Error::ServiceNotFound(_) => "Сервис не поддерживается устройством.",
            Error::FileNotFound(_) => "Файл не найден.",
            Error::InvalidResponse(_) => "Некорректный ответ устройства.",
            Error::Timeout => "Превышено время ожидания ответа.",
            Error::InvalidRange(_) => "Некорректный диапазон для потоковой передачи.",
            Error::Config(_) => "Ошибка конфигурации.",
            Error::Unsupported(_) => "Устройство не поддерживает эту функцию.",
        };
        String::from_str(s)
    }

    /// Returns a list of suggested recovery actions
    pub fn recovery_actions(&self) -> (r: Vec<&'static str>)
        ensures
            r@.map_values(|s: &'static str| s@) == recovery_actions_of(*self),
    {
        let r: Vec<&'static str> = match self {
            Error::Network(_) | Error::Ssdp(_) => vec![
                "Проверить Wi-Fi подключение",
                "Убедиться что устройство в той же сети",
                "Попробовать снова",
            ],
            Error::DeviceNotFound(_) => vec![
                "Повторить поиск устройств",
                "Проверить включено ли устройство",
                "Проверить сетевое подключение устройства",
            ],
            Error::Timeout => vec![
                "Попробовать снова",
                "Проверить доступность устройства",
                "Увеличить таймаут",
            ],
            Error::FileNotFound(_) => vec!["Проверить путь к файлу", "Убедиться что файл существует"],
            Error::ServiceNotFound(_) => vec![
                "Проверить что устройство поддерживает DLNA",
                "Попробовать другое устройство",
            ],
            Error::Unsupported(_) => vec!["Попробовать другой протокол или устройство"],
            _ => vec!["Попробовать снова"],
        };
        assert(r@.map_values(|s: &'static str| s@) =~= recovery_actions_of(*self));
        r
    }

    /// Returns whether the error is recoverable (can be retried)
    pub fn is_recoverable(&self) -> (r: bool)
        ensures
            r == recoverable(*self),
    {
        match self {
            Error::Timeout | Error::Network(_) | Error::Ssdp(_) | Error::Http(_) => true,
            Error::Io(kind, _) => match kind {
                IoKind::TimedOut | IoKind::ConnectionRefused | IoKind::ConnectionReset
                | IoKind::ConnectionAborted | IoKind::WouldBlock => true,
                _ => false,
            },
            _ => false,
        }
    }
}

} // verus!
