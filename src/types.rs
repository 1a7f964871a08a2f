//! Data records that mirror the remote service's JSON shapes.

use vstd::prelude::*;
use crate::text::str_eq;

verus! {

/// A UTC instant: whole seconds since the Unix epoch and the nanoseconds
/// past that second (above one billion only within a leap second).
#[derive(Debug, Clone, Copy, PartialEq, Eq, Structural)]
pub struct UtcTime {
    pub seconds: i64,
    pub nanos: u32,
}

impl UtcTime {
    /// The nanosecond part stays below two seconds' worth.
    pub open spec fn wf(&self) -> bool {
        self.nanos < 2_000_000_000
    }
}

/// Status code and raw bodies of one HTTP exchange.
#[derive(Debug, Clone)]
pub struct RequestDetails {
    pub status_code: u16,
    pub response_body: String,
    pub request_body: String,
}

/// A named entity (team or policy) that an incident paged.
#[derive(Debug, Clone)]
pub struct PagedEntity {
    pub name: Option<String>,
    pub slug: Option<String>,
}

/// A policy paged by an incident, with its team.
#[derive(Debug, Clone)]
pub struct PagedPolicy {
    pub policy: Option<PagedEntity>,
    pub team: Option<PagedEntity>,
}

/// One state change in an incident's history.
#[derive(Debug, Clone)]
pub struct Transition {
    pub name: Option<String>,
    pub at: Option<UtcTime>,
    pub message: Option<String>,
    pub by: Option<String>,
    pub manually: Option<bool>,
    pub alert_id: Option<String>,
    pub alert_url: Option<String>,
}

/// An incident as the service reports it.
#[derive(Debug, Clone)]
pub struct Incident {
    pub alert_count: Option<i32>,
    pub current_phase: Option<String>,
    pub entity_display_name: Option<String>,
    pub entity_id: Option<String>,
    pub entity_state: Option<String>,
    pub entity_type: Option<String>,
    pub host: Option<String>,
    pub incident_number: Option<String>,
    pub last_alert_id: Option<String>,
    pub last_alert_time: Option<UtcTime>,
    pub service: Option<String>,
    pub start_time: Option<UtcTime>,
    pub paged_teams: Option<Vec<String>>,
    pub paged_users: Option<Vec<String>>,
    pub paged_policies: Option<Vec<PagedPolicy>>,
    pub transitions: Option<Vec<Transition>>,
}

/// The incident list.
#[derive(Debug, Clone)]
pub struct IncidentResponse {
    pub incidents: Option<Vec<Incident>>,
}

/// A user account.
#[derive(Debug, Clone)]
pub struct User {
    pub first_name: Option<String>,
    pub last_name: Option<String>,
    pub username: Option<String>,
    pub email: Option<String>,
    pub admin: Option<bool>,
    pub expiration_hours: Option<i32>,
    pub created_at: Option<String>,
    pub password_last_updated: Option<String>,
    pub verified: Option<bool>,
}

/// The v1 user list; the service nests users one list deeper than needed,
/// and the nesting is kept as it comes.
#[derive(Debug, Clone)]
pub struct UserList {
    pub users: Vec<Vec<User>>,
}

/// The v2 user list.
#[derive(Debug, Clone)]
pub struct UserListV2 {
    pub users: Vec<User>,
}

/// A team.
#[derive(Debug, Clone)]
pub struct Team {
    pub name: Option<String>,
    pub slug: Option<String>,
    pub member_count: Option<i32>,
    pub version: Option<i32>,
    pub is_default_team: Option<bool>,
}

/// The members of a team.
#[derive(Debug, Clone)]
pub struct TeamMembers {
    pub members: Option<Vec<User>>,
}

/// A team administrator.
#[derive(Debug, Clone)]
pub struct Admin {
    pub username: Option<String>,
    pub first_name: Option<String>,
    pub last_name: Option<String>,
    pub self_url: Option<String>,
}

/// The administrators of a team.
#[derive(Debug, Clone)]
pub struct TeamAdmins {
    pub admin: Option<Vec<Admin>>,
}

/// One entry of a user's email contact methods, as far as the default
/// lookup reads it: its label, when that is a string, and whether its
/// identifier is a number.
#[derive(Debug, Clone)]
pub struct EmailContactEntry {
    pub label: Option<String>,
    pub has_numeric_id: bool,
}

/// A team in a schedule.
#[derive(Debug, Clone)]
pub struct ApiTeam {
    pub name: Option<String>,
    pub slug: Option<String>,
}

/// An escalation policy in a schedule.
#[derive(Debug, Clone)]
pub struct ApiEscalationPolicy {
    pub name: Option<String>,
    pub slug: Option<String>,
}

/// A user in a schedule.
#[derive(Debug, Clone)]
pub struct ApiUser {
    pub username: Option<String>,
}

/// An on-call override.
#[derive(Debug, Clone)]
pub struct ApiOnCallOverride {
    pub orig_on_call_user: Option<ApiUser>,
    pub override_on_call_user: Option<ApiUser>,
    pub start: Option<UtcTime>,
    pub end: Option<UtcTime>,
    pub policy: Option<ApiEscalationPolicy>,
}

/// One on-call roll.
#[derive(Debug, Clone)]
pub struct ApiOnCallRoll {
    pub start: Option<UtcTime>,
    pub end: Option<UtcTime>,
    pub on_call_user: Option<ApiUser>,
    pub is_roll: Option<bool>,
}

/// One on-call entry of a schedule.
#[derive(Debug, Clone)]
pub struct ApiOnCallEntry {
    pub on_call_user: Option<ApiUser>,
    pub override_on_call_user: Option<ApiUser>,
    pub on_call_type: Option<String>,
    pub rotation_name: Option<String>,
    pub shift_name: Option<String>,
    pub shift_roll: Option<UtcTime>,
    pub rolls: Option<Vec<ApiOnCallRoll>>,
}

/// The schedule of one escalation policy.
#[derive(Debug, Clone)]
pub struct ApiEscalationPolicySchedule {
    pub policy: Option<ApiEscalationPolicy>,
    pub schedule: Option<Vec<ApiOnCallEntry>>,
    pub overrides: Option<Vec<ApiOnCallOverride>>,
}

/// A team's on-call schedule.
#[derive(Debug, Clone)]
pub struct ApiTeamSchedule {
    pub team: Option<ApiTeam>,
    pub schedules: Option<Vec<ApiEscalationPolicySchedule>>,
}

/// A user's on-call schedule over their teams.
#[derive(Debug, Clone)]
pub struct ApiUserSchedule {
    pub schedules: Option<Vec<ApiTeamSchedule>>,
}

/// A request to take on-call from one user for another.
#[derive(Debug, Clone)]
pub struct TakeRequest {
    pub from_user: Option<String>,
    pub to_user: Option<String>,
}

/// The answer to a take request.
#[derive(Debug, Clone)]
pub struct TakeResponse {
    pub result: Option<String>,
}

/// One target of an escalation step; each map holds the target's fields.
#[derive(Debug, Clone)]
pub struct EscalationPolicyStepEntry {
    pub execution_type: Option<String>,
    pub user: Option<std::collections::HashMap<String, String>>,
    pub rotation_group: Option<std::collections::HashMap<String, String>>,
    pub webhook: Option<std::collections::HashMap<String, String>>,
    pub email: Option<std::collections::HashMap<String, String>>,
    pub target_policy: Option<std::collections::HashMap<String, String>>,
}

/// One step of an escalation policy.
#[derive(Debug, Clone)]
pub struct EscalationPolicySteps {
    pub timeout: i32,
    pub entries: Vec<EscalationPolicyStepEntry>,
}

/// An escalation policy.
#[derive(Debug, Clone)]
pub struct EscalationPolicy {
    pub name: String,
    pub team_id: String,
    pub ignore_custom_paging_policies: bool,
    pub steps: Vec<EscalationPolicySteps>,
    pub id: String,
}

/// Name and slug of a policy or team in the policy list.
#[derive(Debug, Clone)]
pub struct EscalationPolicyListDetail {
    pub name: String,
    pub slug: String,
}

/// One policy of the policy list, with its team.
#[derive(Debug, Clone)]
pub struct EscalationPolicyListElement {
    pub policy: EscalationPolicyListDetail,
    pub team: EscalationPolicyListDetail,
}

/// The escalation policy list.
#[derive(Debug, Clone)]
pub struct EscalationPolicyList {
    pub policies: Vec<EscalationPolicyListElement>,
}

/// A routing key to create.
#[derive(Debug, Clone)]
pub struct RoutingKey {
    pub routing_key: Option<String>,
    pub targets: Option<Vec<String>>,
}

/// A target of a listed routing key.
#[derive(Debug, Clone)]
pub struct RoutingKeyResponseTargets {
    pub policy_slug: Option<String>,
}

/// A routing key as listed.
#[derive(Debug, Clone)]
pub struct RoutingKeyResponse {
    pub routing_key: Option<String>,
    pub targets: Option<Vec<RoutingKeyResponseTargets>>,
}

/// The routing key list.
#[derive(Debug, Clone)]
pub struct RoutingKeyResponseList {
    pub routing_keys: Option<Vec<RoutingKeyResponse>>,
}

/// The kind of a contact method, which selects its endpoint.
#[derive(Debug, Clone, Copy, PartialEq, Eq, Structural)]
pub enum ContactType {
    Phone,
    Email,
    Device,
}

/// The path segment of each contact kind.
pub open spec fn noun_of(t: ContactType) -> Seq<char> {
    match t {
        ContactType::Phone => "phones"@,
        ContactType::Email => "emails"@,
        ContactType::Device => "devices"@,
    }
}

/// The contact kind that a notification type names, if any.
pub open spec fn kind_of_notification(s: Seq<char>) -> Option<ContactType> {
    if s == "push"@ {
        Some(ContactType::Device)
    } else if s == "email"@ {
        Some(ContactType::Email)
    } else if s == "phone"@ || s == "sms"@ {
        Some(ContactType::Phone)
    } else {
        None
    }
}

impl ContactType {
    /// The endpoint noun (`phones`, `emails` or `devices`) of this kind.
    pub fn endpoint_noun(&self) -> (r: &'static str)
        ensures
            r@ == noun_of(*self),
    {
        match self {
            ContactType::Phone => "phones",
            ContactType::Email => "emails",
            ContactType::Device => "devices",
        }
    }

    /// Maps a notification type (`push`, `email`, `phone`, `sms`) to its kind.
    pub fn from_notification_type(notification_type: &str) -> (r: Option<ContactType>)
        ensures
            r == kind_of_notification(notification_type@),
    {
        if str_eq(notification_type, "push") {
            Some(ContactType::Device)
        } else if str_eq(notification_type, "email") {
            Some(ContactType::Email)
        } else if str_eq(notification_type, "phone") || str_eq(notification_type, "sms") {
            Some(ContactType::Phone)
        } else {
            None
        }
    }
}

/// A contact method of a user: a phone, an email address or a device.
#[derive(Debug, Clone)]
pub struct Contact {
    pub phone_number: Option<String>,
    pub email: Option<String>,
    pub label: Option<String>,
    pub rank: Option<i32>,
    pub ext_id: Option<String>,
    pub id: Option<i32>,
    pub value: Option<String>,
    pub verified: Option<String>,
}

/// The kind of a contact, read from which of its two describing fields is
/// present: the phone number first, then the email address.
pub open spec fn kind_of_contact(c: Contact) -> Option<ContactType> {
    if c.phone_number is Some {
        Some(ContactType::Phone)
    } else if c.email is Some {
        Some(ContactType::Email)
    } else {
        None
    }
}

impl Contact {
    /// The kind of this contact, or `None` when neither a phone number nor
    /// an email address is present.
    pub fn contact_type(&self) -> (r: Option<ContactType>)
        ensures
            r == kind_of_contact(*self),
    {
        if self.phone_number.is_some() {
            Some(ContactType::Phone)
        } else if self.email.is_some() {
            Some(ContactType::Email)
        } else {
            None
        }
    }
}

/// A contact's kind follows from its describing fields alone: a phone
/// number without an email address makes a phone, an email address without
/// a phone number makes an email, and neither leaves the kind undetermined.
pub proof fn lemma_contact_kind_by_fields(c: Contact)
    ensures
        c.phone_number is Some && c.email is None ==> kind_of_contact(c) == Some(ContactType::Phone),
        c.email is Some && c.phone_number is None ==> kind_of_contact(c) == Some(ContactType::Email),
        c.phone_number is None && c.email is None ==> kind_of_contact(c) is None,
{
}

/// The contact methods of one kind.
#[derive(Debug, Clone)]
pub struct ContactGroup {
    pub contact_methods: Vec<Contact>,
}

/// All contact methods of a user, grouped by kind.
#[derive(Debug, Clone)]
pub struct AllContactResponse {
    pub phones: Option<ContactGroup>,
    pub emails: Option<ContactGroup>,
    pub devices: Option<ContactGroup>,
}

/// The contact methods of one kind, as that kind's endpoint lists them.
#[derive(Debug, Clone)]
pub struct GetAllContactResponse {
    pub contact_methods: Option<Vec<Contact>>,
}

} // verus!
