//! Requests, responses and notifications, and their names.
use vstd::prelude::*;

use crate::json::{Json, JsonModel};
use crate::text::{owned, same_text};

verus! {

/// What can be asked of the daemon.
#[derive(Debug, Clone, Copy, PartialEq, Eq, Structural)]
pub enum Method {
    Status,
    Peers,
    Ping,
    SendMessage,
    Shutdown,
    TcpConnect,
    PushFile,
    GetFile,
    Doctor,
    ProxyAdd,
    ProxyRemove,
    ProxyList,
    Subscribe,
}

/// What the methods are called on the wire.
pub struct MethodNames {
    pub status: String,
    pub peers: String,
    pub ping: String,
    pub send_message: String,
    pub shutdown: String,
    pub tcp_connect: String,
    pub push_file: String,
    pub get_file: String,
    pub doctor: String,
    pub proxy_add: String,
    pub proxy_remove: String,
    pub proxy_list: String,
    pub subscribe: String,
}

/// The method of a name.
pub open spec fn method_named(names: MethodNames, name: Seq<char>) -> Option<Method> {
    if name == names.status@ {
        Some(Method::Status)
    } else if name == names.peers@ {
        Some(Method::Peers)
    } else if name == names.ping@ {
        Some(Method::Ping)
    } else if name == names.send_message@ {
        Some(Method::SendMessage)
    } else if name == names.shutdown@ {
        Some(Method::Shutdown)
    } else if name == names.tcp_connect@ {
        Some(Method::TcpConnect)
    } else if name == names.push_file@ {
        Some(Method::PushFile)
    } else if name == names.get_file@ {
        Some(Method::GetFile)
    } else if name == names.doctor@ {
        Some(Method::Doctor)
    } else if name == names.proxy_add@ {
        Some(Method::ProxyAdd)
    } else if name == names.proxy_remove@ {
        Some(Method::ProxyRemove)
    } else if name == names.proxy_list@ {
        Some(Method::ProxyList)
    } else if name == names.subscribe@ {
        Some(Method::Subscribe)
    } else {
        None
    }
}

impl MethodNames {
    /// The method of a name.
    pub fn method(&self, name: &str) -> (r: Option<Method>)
        ensures
            r == method_named(*self, name@),
    {
        if same_text(name, self.status.as_str()) {
            Some(Method::Status)
        } else if same_text(name, self.peers.as_str()) {
            Some(Method::Peers)
        } else if same_text(name, self.ping.as_str()) {
            Some(Method::Ping)
        } else if same_text(name, self.send_message.as_str()) {
            Some(Method::SendMessage)
        } else if same_text(name, self.shutdown.as_str()) {
            Some(Method::Shutdown)
        } else if same_text(name, self.tcp_connect.as_str()) {
            Some(Method::TcpConnect)
        } else if same_text(name, self.push_file.as_str()) {
            Some(Method::PushFile)
        } else if same_text(name, self.get_file.as_str()) {
            Some(Method::GetFile)
        } else if same_text(name, self.doctor.as_str()) {
            Some(Method::Doctor)
        } else if same_text(name, self.proxy_add.as_str()) {
            Some(Method::ProxyAdd)
        } else if same_text(name, self.proxy_remove.as_str()) {
            Some(Method::ProxyRemove)
        } else if same_text(name, self.proxy_list.as_str()) {
            Some(Method::ProxyList)
        } else if same_text(name, self.subscribe.as_str()) {
            Some(Method::Subscribe)
        } else {
            None
        }
    }
}

/// What the notifications are called on the wire.
pub struct NotificationNames {
    pub peer_joined: String,
    pub peer_left: String,
    pub peer_updated: String,
    pub peer_ws_connected: String,
    pub peer_ws_disconnected: String,
    pub message_received: String,
    pub cp_progress: String,
}

/// The kinds of failure.
#[derive(Debug, Clone, Copy, PartialEq, Eq, Structural)]
pub enum ErrorCode {
    MethodNotFound,
    InvalidParams,
    NodeNotFound,
    InternalError,
}

/// A request to the daemon.
#[derive(Debug)]
pub struct DaemonRequest {
    pub id: u64,
    pub method: String,
    pub params: Json,
}

/// The daemon's answer.
#[derive(Debug)]
pub struct DaemonResponse {
    pub id: u64,
    pub result: Result<Json, (ErrorCode, String)>,
}

/// The texts of a [`DaemonResponse`].
pub struct ResponseModel {
    pub id: u64,
    pub result: Result<JsonModel, (ErrorCode, Seq<char>)>,
}

impl View for DaemonResponse {
    type V = ResponseModel;

    open spec fn view(&self) -> ResponseModel {
        ResponseModel {
            id: self.id,
            result: match self.result {
                Ok(j) => Ok(j@),
                Err((code, text)) => Err((code, text@)),
            },
        }
    }
}

pub open spec fn success_model(id: u64, result: JsonModel) -> ResponseModel {
    ResponseModel { id, result: Ok(result) }
}

pub open spec fn error_model(id: u64, code: ErrorCode, text: Seq<char>) -> ResponseModel {
    ResponseModel { id, result: Err((code, text)) }
}

impl DaemonResponse {
    pub fn success(id: u64, result: Json) -> (r: Self)
        ensures
            r@ == success_model(id, result@),
    {
        DaemonResponse { id, result: Ok(result) }
    }

    pub fn error(id: u64, code: ErrorCode, text: &str) -> (r: Self)
        ensures
            r@ == error_model(id, code, text@),
    {
        DaemonResponse { id, result: Err((code, owned(text))) }
    }
}

/// What the daemon tells unasked.
#[derive(Debug)]
pub struct DaemonNotification {
    pub method: String,
    pub params: Json,
}

/// The texts of a [`DaemonNotification`].
pub struct NotificationModel {
    pub method: Seq<char>,
    pub params: JsonModel,
}

impl View for DaemonNotification {
    type V = NotificationModel;

    open spec fn view(&self) -> NotificationModel {
        NotificationModel { method: self.method@, params: self.params@ }
    }
}

pub open spec fn notification_model(o: Option<DaemonNotification>) -> Option<NotificationModel> {
    match o {
        Some(n) => Some(n@),
        None => None,
    }
}

} // verus!
