//! What the notification service receives and answers.

use vstd::prelude::*;
use vstd::string::StringExecFns;
use crate::table::Table;
use crate::text::string_views;

verus! {

/// A notification as the service received it.
#[derive(Debug, Clone, PartialEq, Eq)]
pub struct Notification {
    pub app_name: String,
    /// The id the sender asked to replace (0 for a new notification).
    pub id: u32,
    pub app_icon: String,
    pub summary: String,
    pub body: String,
    /// The hints whose value is a string, by name.
    pub hints: Table<String>,
    pub expire_timeout: i32,
}

/// Takes in a `Notify` request: the notification it describes, and the id the service
/// answers with, which is always 1.
pub fn accept_notification(
    app_name: String,
    replaces_id: u32,
    app_icon: String,
    summary: String,
    body: String,
    hints: Table<String>,
    expire_timeout: i32,
) -> (r: (Notification, u32))
    ensures
        r.0.app_name == app_name,
        r.0.id == replaces_id,
        r.0.app_icon == app_icon,
        r.0.summary == summary,
        r.0.body == body,
        r.0.hints == hints,
        r.0.expire_timeout == expire_timeout,
        r.1 == 1,
{
    let notification = Notification { app_name, id: replaces_id, app_icon, summary, body, hints, expire_timeout };
    (notification, 1)
}

/// The optional features the service announces: bodies and static icons.
pub fn capabilities() -> (r: Vec<String>)
    ensures
        string_views(r@) == seq!["body"@, "icon-static"@],
{
    let mut r: Vec<String> = Vec::new();
    r.push(String::from_str("body"));
    r.push(String::from_str("icon-static"));
    assert(string_views(r@) =~= seq!["body"@, "icon-static"@]);
    r
}

/// Name, vendor, version and specification version of the service.
pub fn server_information() -> (r: (String, String, String, String))
    ensures
        r.0@ == "notify"@,
        r.1@ == "notify-project"@,
        r.2@ == "0.1.0"@,
        r.3@ == "1.2"@,
{
    (
        String::from_str("notify"),
        String::from_str("notify-project"),
        String::from_str("0.1.0"),
        String::from_str("1.2"),
    )
}

} // verus!
