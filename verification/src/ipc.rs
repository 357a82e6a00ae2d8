//! The daemon's socket protocol: requests, replies, the dispatch of a
//! request, and where the socket lives.
use vstd::prelude::*;
use crate::item::ClipboardItem;
use crate::preview::{decimal, push_decimal};
use crate::service::{DaemonService, ServiceError};
use crate::search::ranked;
use crate::storage::{
    SqlCall, instant_storable, recent_call, set_favorite_call, set_pinned_call, soft_delete_call,
    uuid_text,
};
use crate::text::{chars_of, starts_with, string_of};

verus! {

/// A request to the daemon.
#[derive(Clone, Debug, PartialEq, Eq)]
pub enum IpcRequest {
    Capture,
    Search { query: String },
    Restore { id: u128, auto_paste: bool, plain_text_only: bool },
    Delete { id: u128 },
    Pin { id: u128, value: bool },
    Favorite { id: u128, value: bool },
}

/// The daemon's reply: a value, or an error message (`Ok` and `Err` on the
/// wire).
#[derive(Clone, Debug, PartialEq, Eq)]
pub enum IpcResponse<T> {
    Success { value: T },
    Failure { message: String },
}

/// The reply for the outcome of a service operation.
pub fn service_response<T>(result: Result<T, ServiceError>) -> (r: IpcResponse<T>)
    ensures
        result matches Ok(v) ==> r == (IpcResponse::Success::<T> { value: v }),
        result is Err ==> r is Failure,
        result matches Err(ServiceError::NotFound(id)) ==> (r matches IpcResponse::Failure::<T> {
            message,
        } && message@ == "item not found: "@ + uuid_text(id)),
        result matches Err(ServiceError::Storage(_)) ==> (r matches IpcResponse::Failure::<T> {
            message,
        } && starts_with(message@, "storage error: "@)),
{
    match result {
        Ok(value) => IpcResponse::Success { value },
        Err(error) => IpcResponse::Failure { message: error.message() },
    }
}

/// What the daemon does with a request: a reply computed at once, or the
/// clipboard work a capture or restore needs first.
#[derive(Debug)]
pub enum Dispatch {
    Items(IpcResponse<Vec<ClipboardItem>>),
    Done(IpcResponse<()>),
    Capture,
    Restore { id: u128, auto_paste: bool, plain_text_only: bool },
}

/// The reply to an action on the item `id`: done, not found, or a storage
/// error.
pub open spec fn item_reply(r: IpcResponse<()>, id: u128) -> bool {
    match r {
        IpcResponse::Success { value } => true,
        IpcResponse::Failure { message } => message@ == "item not found: "@ + uuid_text(id)
            || starts_with(message@, "storage error: "@),
    }
}

/// What answering `request` at `now` does on the history's database: a
/// search reads the recent items; a delete, pin or favorite runs its update
/// on the item (a delete only when `now` can be stored); a capture or a
/// restore is left to the clipboard work.
pub open spec fn request_calls(request: IpcRequest, now: i128) -> Seq<SqlCall> {
    match request {
        IpcRequest::Search { .. } => seq![recent_call()],
        IpcRequest::Delete { id } => if instant_storable(now) {
            seq![soft_delete_call(id, now)]
        } else {
            Seq::empty()
        },
        IpcRequest::Pin { id, value } => seq![set_pinned_call(id, value)],
        IpcRequest::Favorite { id, value } => seq![set_favorite_call(id, value)],
        _ => Seq::empty(),
    }
}

/// Handles a request received at `now` (nanoseconds since the Unix epoch):
/// searches and item actions are answered from the history; a capture or a
/// restore is handed back as clipboard work.
pub fn dispatch_request<C, P>(request: IpcRequest, service: &mut DaemonService<C, P>, now: i128) -> (d: Dispatch)
    ensures
        final(service).calls() == old(service).calls() + request_calls(request, now),
        final(service).clipboard() == old(service).clipboard(),
        final(service).paste() == old(service).paste(),
        request is Capture ==> d is Capture,
        request matches IpcRequest::Restore { id, auto_paste, plain_text_only } ==> d
            == (Dispatch::Restore { id, auto_paste, plain_text_only }),
        request matches IpcRequest::Search { query } ==> (d matches Dispatch::Items(r) && (r matches IpcResponse::Success::<Vec<ClipboardItem>> { value } ==> exists|items: Seq<ClipboardItem>| value@ == ranked(query@, items))),
        request matches IpcRequest::Delete { id } ==> (d matches Dispatch::Done(r) && item_reply(r, id)),
        request matches IpcRequest::Pin { id, value } ==> (d matches Dispatch::Done(r) && item_reply(r, id)),
        request matches IpcRequest::Favorite { id, value } ==> (d matches Dispatch::Done(r) && item_reply(r, id)),
{
    match request {
        IpcRequest::Capture => Dispatch::Capture,
        IpcRequest::Search { query } => Dispatch::Items(service_response(service.search(query.as_str()))),
        IpcRequest::Restore { id, auto_paste, plain_text_only } => Dispatch::Restore {
            id,
            auto_paste,
            plain_text_only,
        },
        IpcRequest::Delete { id } => Dispatch::Done(service_response(service.soft_delete(id, now))),
        IpcRequest::Pin { id, value } => Dispatch::Done(service_response(service.set_pinned(id, value))),
        IpcRequest::Favorite { id, value } => Dispatch::Done(
            service_response(service.set_favorite(id, value)),
        ),
    }
}

/// `component` appended to the path `base`, as `Path::join` does for a
/// relative component: a separator is added unless `base` is empty or
/// already ends with one.
pub open spec fn path_join(base: Seq<char>, component: Seq<char>) -> Seq<char> {
    if base.len() == 0 {
        component
    } else if base.last() == '/' {
        base + component
    } else {
        base + seq!['/'] + component
    }
}

/// `component` (a relative path) appended to the path `base`.
pub fn join_path(base: &str, component: &str) -> (p: String)
    ensures
        p@ == path_join(base@, component@),
{
    let cs = chars_of(base);
    let mut p = String::from_str(base);
    if cs.len() > 0 && cs[cs.len() - 1] != '/' {
        p.append("/");
    }
    p.append(component);
    proof {
        reveal_strlit("/");
        if base@.len() > 0 {
            assert(cs@.last() == base@.last());
        }
    }
    p
}

/// The socket path: `<runtime dir>/rcopy/rcopyd.sock`, or without a runtime
/// dir `<temp dir>/rcopy-<uid>/rcopyd.sock`.
pub open spec fn socket_path(runtime_dir: Option<Seq<char>>, temp_dir: Seq<char>, uid: u32) -> Seq<
    char,
> {
    match runtime_dir {
        Some(d) => path_join(path_join(d, "rcopy"@), "rcopyd.sock"@),
        None => path_join(path_join(temp_dir, "rcopy-"@ + decimal(uid as nat)), "rcopyd.sock"@),
    }
}

/// The socket path for a runtime dir, or for a temp dir and user id; see
/// [`socket_path`].
pub fn socket_path_for_runtime_dir(runtime_dir: Option<&str>, temp_dir: &str, uid: u32) -> (p: String)
    ensures
        p@ == socket_path(
            match runtime_dir {
                Some(d) => Some(d@),
                None => None,
            },
            temp_dir@,
            uid,
        ),
{
    match runtime_dir {
        Some(d) => {
            let dir = join_path(d, "rcopy");
            join_path(dir.as_str(), "rcopyd.sock")
        },
        None => {
            let mut name = chars_of("rcopy-");
            push_decimal(&mut name, uid as u64);
            let name = string_of(&name);
            let dir = join_path(temp_dir, name.as_str());
            join_path(dir.as_str(), "rcopyd.sock")
        },
    }
}

/// The picker's connection settings: the daemon's socket path.
#[derive(Clone, Debug)]
pub struct IpcClient {
    socket_path: String,
}

impl IpcClient {
    /// The socket the client connects to.
    pub closed spec fn socket_path_view(&self) -> Seq<char> {
        self.socket_path@
    }

    /// A client for the daemon listening on `socket_path`.
    pub fn new(socket_path: &str) -> (c: Self)
        ensures
            c.socket_path_view() == socket_path@,
    {
        IpcClient { socket_path: String::from_str(socket_path) }
    }

    /// The socket the client connects to.
    pub fn socket_path(&self) -> (p: &str)
        ensures
            p@ == self.socket_path_view(),
    {
        self.socket_path.as_str()
    }
}

} // verus!
