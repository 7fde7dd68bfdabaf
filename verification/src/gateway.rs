//! Requests to the gateway's control API, as plain values.

use vstd::prelude::*;
use vstd::string::StringExecFns;

verus! {

/// One call of the gateway's control API.
#[derive(Clone, Debug, PartialEq, Eq)]
pub enum ApiRequest {
    SendMsg { user_id: i64, message: String },
    SendGroupMsg { group_id: i64, message: String },
    GetMsg { message_id: i32 },
    GetGroupMemberInfo { group_id: i64, user_id: i64 },
    GetGroupMemberList { group_id: i64 },
}

/// The mathematical content of an [`ApiRequest`].
pub enum ApiRequestView {
    SendMsg { user_id: i64, message: Seq<char> },
    SendGroupMsg { group_id: i64, message: Seq<char> },
    GetMsg { message_id: i32 },
    GetGroupMemberInfo { group_id: i64, user_id: i64 },
    GetGroupMemberList { group_id: i64 },
}

impl View for ApiRequest {
    type V = ApiRequestView;

    open spec fn view(&self) -> ApiRequestView {
        match *self {
            ApiRequest::SendMsg { user_id, message } => ApiRequestView::SendMsg { user_id, message: message@ },
            ApiRequest::SendGroupMsg { group_id, message } => ApiRequestView::SendGroupMsg {
                group_id,
                message: message@,
            },
            ApiRequest::GetMsg { message_id } => ApiRequestView::GetMsg { message_id },
            ApiRequest::GetGroupMemberInfo { group_id, user_id } => ApiRequestView::GetGroupMemberInfo {
                group_id,
                user_id,
            },
            ApiRequest::GetGroupMemberList { group_id } => ApiRequestView::GetGroupMemberList { group_id },
        }
    }
}

impl ApiRequestView {
    /// The name of the control API that the request goes to.
    pub open spec fn api(self) -> Seq<char> {
        match self {
            ApiRequestView::SendMsg { .. } => "send_msg"@,
            ApiRequestView::SendGroupMsg { .. } => "send_group_msg"@,
            ApiRequestView::GetMsg { .. } => "get_msg"@,
            ApiRequestView::GetGroupMemberInfo { .. } => "get_group_member_info"@,
            ApiRequestView::GetGroupMemberList { .. } => "get_group_member_list"@,
        }
    }
}

impl ApiRequest {
    /// The name of the control API that the request goes to.
    pub fn api_name(&self) -> (r: &'static str)
        ensures
            r@ == self@.api(),
    {
        match self {
            ApiRequest::SendMsg { .. } => "send_msg",
            ApiRequest::SendGroupMsg { .. } => "send_group_msg",
            ApiRequest::GetMsg { .. } => "get_msg",
            ApiRequest::GetGroupMemberInfo { .. } => "get_group_member_info",
            ApiRequest::GetGroupMemberList { .. } => "get_group_member_list",
        }
    }
}

/// The requests of `requests`, each by its content.
pub open spec fn views_of(requests: Seq<ApiRequest>) -> Seq<ApiRequestView> {
    Seq::new(requests.len(), |i: int| requests[i]@)
}

/// A request with the same content as `request`.
pub fn copy_request(request: &ApiRequest) -> (r: ApiRequest)
    ensures
        r@ == request@,
{
    match request {
        ApiRequest::SendMsg { user_id, message } => ApiRequest::SendMsg { user_id: *user_id, message: message.clone() },
        ApiRequest::SendGroupMsg { group_id, message } => ApiRequest::SendGroupMsg {
            group_id: *group_id,
            message: message.clone(),
        },
        ApiRequest::GetMsg { message_id } => ApiRequest::GetMsg { message_id: *message_id },
        ApiRequest::GetGroupMemberInfo { group_id, user_id } => ApiRequest::GetGroupMemberInfo {
            group_id: *group_id,
            user_id: *user_id,
        },
        ApiRequest::GetGroupMemberList { group_id } => ApiRequest::GetGroupMemberList { group_id: *group_id },
    }
}

/// A group message with the text `message`.
pub fn send_group(group_id: i64, message: &str) -> (r: ApiRequest)
    ensures
        r@ == (ApiRequestView::SendGroupMsg { group_id, message: message@ }),
{
    ApiRequest::SendGroupMsg { group_id, message: String::from_str(message) }
}

/// A private message with the text `message`.
pub fn send_private(user_id: i64, message: &str) -> (r: ApiRequest)
    ensures
        r@ == (ApiRequestView::SendMsg { user_id, message: message@ }),
{
    ApiRequest::SendMsg { user_id, message: String::from_str(message) }
}

/// The address that a call of `api` is posted to on the gateway at
/// `cq_addr`.
pub open spec fn endpoint(cq_addr: Seq<char>, api: Seq<char>) -> Seq<char> {
    "http://"@ + cq_addr + "/"@ + api
}

/// The address that a call of `api` is posted to on the gateway at
/// `cq_addr`.
pub fn api_url(cq_addr: &str, api: &str) -> (r: String)
    ensures
        r@ == endpoint(cq_addr@, api@),
{
    let mut url = String::from_str("http://");
    url.append(cq_addr);
    url.append("/");
    url.append(api);
    url
}

} // verus!
