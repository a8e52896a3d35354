//! Service-notification records: tickers the transit service publishes
//! about disruptions on its lines.

use vstd::prelude::*;
use crate::datetime::DateTime;

verus! {

/// A station named by a notification.
#[derive(Clone, Debug)]
pub struct NotificationStation {
    pub id: String,
    pub name: String,
}

/// A line a notification concerns, with the stations it touches.
#[derive(Clone, Debug)]
pub struct NotificationLines {
    pub id: String,
    pub name: String,
    pub type_of_transport: String,
    pub stations: Vec<NotificationStation>,
    pub direction: String,
}

/// The time span a notification is in force.
#[derive(Clone, Copy, Debug)]
pub struct Duration {
    pub from_date: DateTime,
    pub to_date: Option<DateTime>,
}

/// A link attached to a notification.
#[derive(Clone, Debug)]
pub struct NotificationLink {
    pub href: String,
    pub name: String,
}

/// A downloadable document attached to a notification.
#[derive(Clone, Debug)]
pub struct DownloadLink {
    pub id: String,
    pub name: String,
    pub mime_type: String,
}

/// One disruption ticker of the transit service.
#[derive(Clone, Debug)]
pub struct Notification {
    pub id: String,
    pub kind: String,
    pub title: String,
    pub text: String,
    pub html_text: String,
    pub lines: Vec<NotificationLines>,
    pub incidents: Vec<String>,
    pub links: Vec<NotificationLink>,
    pub download_links: Vec<DownloadLink>,
    pub incident_duration: Vec<Duration>,
    pub active_duration: Duration,
    pub modification_date: String,
}

} // verus!
