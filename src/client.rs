//! The resource operations: for each remote action, the request that it
//! makes, with the validation that refuses a record before any exchange.

use vstd::prelude::*;
use vstd::utf8::{decode_utf8, encode_utf8, encode_utf8_decode_utf8};
use crate::error::{ApiResult, Error};
use crate::request::{body_view, pairs_view, Client, Method, PairView, PreparedRequest};
use crate::text::{
    encode_path_segment, form_decode, form_encode, form_safe_char, form_urlencode, i32_to_decimal,
    json_string, json_string_of, lemma_form_decode_encode, lemma_form_encode_is_path_safe,
    segment_encode, signed_decimal,
};
use crate::types::{kind_of_contact, noun_of, Contact, ContactType, Team, User};

verus! {

/// A username as a path segment: its UTF-8 bytes, form-encoded.
pub open spec fn username_segment(username: Seq<char>) -> Seq<char> {
    form_encode(encode_utf8(username))
}

/// A username segment holds no reserved character (every character is a
/// letter, a digit or one of `*-._+%`, so no `@`, `/`, `?` or `#`), and
/// decoding it gives back the username.
pub proof fn lemma_username_segment(username: Seq<char>)
    ensures
        forall|k: int|
            0 <= k < username_segment(username).len() ==> form_safe_char(
                #[trigger] username_segment(username)[k],
            ),
        decode_utf8(form_decode(username_segment(username))) == username,
{
    lemma_form_encode_is_path_safe(encode_utf8(username));
    lemma_form_decode_encode(encode_utf8(username));
    encode_utf8_decode_utf8(username);
}

/// The path of a user: `v1/user/` and the username segment.
pub open spec fn user_path(username: Seq<char>) -> Seq<char> {
    "v1/user/"@ + username_segment(username)
}

/// A username enters a user's path only encoded: past the `v1/user/`
/// prefix stands exactly the username segment, which holds no reserved
/// character such as `@` and decodes back to the username.
pub proof fn lemma_user_path_is_encoded(username: Seq<char>)
    ensures
        user_path(username).len() >= 8,
        user_path(username).skip(8) == username_segment(username),
        forall|k: int| 8 <= k < user_path(username).len() ==> form_safe_char(#[trigger] user_path(username)[k]),
        decode_utf8(form_decode(user_path(username).skip(8))) == username,
{
    reveal_strlit("v1/user/");
    let enc = username_segment(username);
    lemma_username_segment(username);
    assert(user_path(username).skip(8) =~= enc);
    assert forall|k: int| 8 <= k < user_path(username).len() implies form_safe_char(#[trigger] user_path(username)[k]) by {
        assert(user_path(username)[k] == enc[k - 8]);
    }
}

/// The path of a user's contact methods.
pub open spec fn contact_methods_path(username: Seq<char>) -> Seq<char> {
    user_path(username) + "/contact-methods"@
}

/// The path of a user's contact methods of one kind.
pub open spec fn contact_kind_path(username: Seq<char>, kind: ContactType) -> Seq<char> {
    contact_methods_path(username) + "/"@ + noun_of(kind)
}

/// The path of one contact method.
pub open spec fn contact_path(username: Seq<char>, kind: ContactType, ext_id: Seq<char>) -> Seq<char> {
    contact_kind_path(username, kind) + "/"@ + ext_id
}

/// The path of a team.
pub open spec fn team_path(team_id: Seq<char>) -> Seq<char> {
    "v1/team/"@ + team_id
}

/// The path of an escalation policy.
pub open spec fn policy_path(policy_id: Seq<char>) -> Seq<char> {
    "v1/policies/"@ + policy_id
}

/// The schedule suffix with its three window parameters.
pub open spec fn schedule_suffix(days_forward: i32, days_skip: i32, step: i32) -> Seq<char> {
    "/oncall/schedule?daysForward="@ + signed_decimal(days_forward as int) + "&daysSkip="@
        + signed_decimal(days_skip as int) + "&step="@ + signed_decimal(step as int)
}

/// A JSON object with one string member.
pub open spec fn single_member_body(key: Seq<char>, value: Seq<char>) -> Seq<char> {
    "{\""@ + key + "\":"@ + json_string_of(value) + "}"@
}

/// The reason given when a user update lacks its username.
pub const USERNAME_REQUIRED: &'static str = "Username is required for user update";

/// The reason given when a team update lacks its name.
pub const TEAM_NAME_REQUIRED: &'static str = "Team name is required for team update";

/// The reason given when a new contact has neither phone nor email.
pub const CONTACT_KIND_REQUIRED: &'static str = "Contact must have either phone_number or email";

fn text_of(parts: &str) -> (r: String)
    ensures
        r@ == parts@,
{
    String::from_str(parts)
}

fn single_member_json(key: &str, value: &str) -> (r: String)
    ensures
        r@ == single_member_body(key@, value@),
{
    let mut out = String::from_str("{\"");
    out.append(key);
    out.append("\":");
    let v = json_string(value);
    out.append(v.as_str());
    out.append("}");
    out
}

fn user_endpoint(username: &str) -> (r: String)
    ensures
        r@ == user_path(username@),
{
    let mut out = String::from_str("v1/user/");
    let enc = form_urlencode(username);
    out.append(enc.as_str());
    out
}

fn contact_kind_endpoint(username: &str, kind: ContactType) -> (r: String)
    ensures
        r@ == contact_kind_path(username@, kind),
{
    let mut out = user_endpoint(username);
    out.append("/contact-methods");
    out.append("/");
    out.append(kind.endpoint_noun());
    out
}

fn contact_endpoint(username: &str, kind: ContactType, ext_id: &str) -> (r: String)
    ensures
        r@ == contact_path(username@, kind, ext_id@),
{
    let mut out = contact_kind_endpoint(username, kind);
    out.append("/");
    out.append(ext_id);
    out
}

fn prefixed(prefix: &str, rest: &str) -> (r: String)
    ensures
        r@ == prefix@ + rest@,
{
    let mut out = String::from_str(prefix);
    out.append(rest);
    out
}

fn joined(prefix: &str, middle: &str, suffix: &str) -> (r: String)
    ensures
        r@ == prefix@ + middle@ + suffix@,
{
    let mut out = String::from_str(prefix);
    out.append(middle);
    out.append(suffix);
    out
}

fn schedule_endpoint(
    prefix: &str,
    subject: &str,
    days_forward: i32,
    days_skip: i32,
    step: i32,
) -> (r: String)
    ensures
        r@ == prefix@ + subject@ + schedule_suffix(days_forward, days_skip, step),
{
    let mut out = String::from_str(prefix);
    out.append(subject);
    out.append("/oncall/schedule?daysForward=");
    let f = i32_to_decimal(days_forward);
    out.append(f.as_str());
    out.append("&daysSkip=");
    let s = i32_to_decimal(days_skip);
    out.append(s.as_str());
    out.append("&step=");
    let st = i32_to_decimal(step);
    out.append(st.as_str());
    assert(out@ =~= prefix@ + subject@ + schedule_suffix(days_forward, days_skip, step));
    out
}

impl Client {
    fn call(
        &self,
        method: Method,
        endpoint: String,
        body: Option<String>,
    ) -> (r: ApiResult<PreparedRequest>)
        ensures
            self.plans(r, method, endpoint@, body_view(body), Seq::<PairView>::empty()),
    {
        let query: Vec<(String, String)> = Vec::new();
        assert(pairs_view(query@) =~= Seq::<PairView>::empty());
        self.prepare(method, endpoint, body, query)
    }

    /// The request that reads one incident.
    pub fn get_incident_request(&self, incident_id: i32) -> (r: ApiResult<PreparedRequest>)
        ensures
            self.plans(r, Method::Get, "v1/incidents/"@ + signed_decimal(incident_id as int), None, seq![]),
    {
        let mut endpoint = String::from_str("v1/incidents/");
        let id = i32_to_decimal(incident_id);
        endpoint.append(id.as_str());
        self.call(Method::Get, endpoint, None)
    }

    /// The request that lists the incidents.
    pub fn get_incidents_request(&self) -> (r: ApiResult<PreparedRequest>)
        ensures
            self.plans(r, Method::Get, "v1/incidents"@, None, seq![]),
    {
        self.call(Method::Get, text_of("v1/incidents"), None)
    }

    /// The request that creates a user from its JSON text.
    pub fn create_user_request(&self, user_json: String) -> (r: ApiResult<PreparedRequest>)
        ensures
            self.plans(r, Method::Post, "v1/user"@, Some(user_json@), seq![]),
    {
        self.call(Method::Post, text_of("v1/user"), Some(user_json))
    }

    /// The request that reads a user.
    pub fn get_user_request(&self, username: &str) -> (r: ApiResult<PreparedRequest>)
        ensures
            self.plans(r, Method::Get, user_path(username@), None, seq![]),
    {
        self.call(Method::Get, user_endpoint(username), None)
    }

    /// The request that deletes a user and hands their duties to another.
    pub fn delete_user_request(
        &self,
        username: &str,
        replacement_user: &str,
    ) -> (r: ApiResult<PreparedRequest>)
        ensures
            self.plans(
                r,
                Method::Delete,
                user_path(username@),
                Some(single_member_body("replacement"@, replacement_user@)),
                seq![],
            ),
    {
        let body = single_member_json("replacement", replacement_user);
        self.call(Method::Delete, user_endpoint(username), Some(body))
    }

    /// The request that lists all users (v1, nested list).
    pub fn get_all_users_request(&self) -> (r: ApiResult<PreparedRequest>)
        ensures
            self.plans(r, Method::Get, "v1/user"@, None, seq![]),
    {
        self.call(Method::Get, text_of("v1/user"), None)
    }

    /// The request that lists all users (v2).
    pub fn get_all_users_v2_request(&self) -> (r: ApiResult<PreparedRequest>)
        ensures
            self.plans(r, Method::Get, "v2/user"@, None, seq![]),
    {
        self.call(Method::Get, text_of("v2/user"), None)
    }

    /// The request that finds users by email address, given as a query
    /// parameter.
    pub fn get_user_by_email_request(&self, email: &str) -> (r: ApiResult<PreparedRequest>)
        ensures
            self.plans(r, Method::Get, "v2/user"@, None, seq![("email"@, email@)]),
    {
        let mut query: Vec<(String, String)> = Vec::new();
        query.push((String::from_str("email"), String::from_str(email)));
        assert(pairs_view(query@) =~= seq![("email"@, email@)]);
        self.prepare(Method::Get, text_of("v2/user"), None, query)
    }

    /// The request that updates a user; the username names the user in the
    /// path, so a record without one is refused before any exchange.
    pub fn update_user_request(
        &self,
        user: &User,
        user_json: String,
    ) -> (r: ApiResult<PreparedRequest>)
        ensures
            user.username is None ==> (r matches Err(Error::InvalidInput(m)) && m@ == USERNAME_REQUIRED@),
            user.username matches Some(u) ==> self.plans(r, Method::Put, user_path(u@), Some(user_json@), seq![]),
    {
        match &user.username {
            None => Err(Error::InvalidInput(String::from_str(USERNAME_REQUIRED))),
            Some(username) => self.call(Method::Put, user_endpoint(username.as_str()), Some(user_json)),
        }
    }

    /// The request that lists a user's contact methods of one kind.
    pub(crate) fn contact_kind_list_request(
        &self,
        username: &str,
        kind: ContactType,
    ) -> (r: ApiResult<PreparedRequest>)
        ensures
            self.plans(r, Method::Get, contact_kind_path(username@, kind), None, seq![]),
    {
        self.call(Method::Get, contact_kind_endpoint(username, kind), None)
    }

    /// The request that lists a user's email contact methods, for the
    /// default-email lookup.
    pub fn get_user_default_email_contact_id_request(
        &self,
        username: &str,
    ) -> (r: ApiResult<PreparedRequest>)
        ensures
            self.plans(r, Method::Get, contact_kind_path(username@, ContactType::Email), None, seq![]),
    {
        self.contact_kind_list_request(username, ContactType::Email)
    }

    /// The request that creates a team from its JSON text.
    pub fn create_team_request(&self, team_json: String) -> (r: ApiResult<PreparedRequest>)
        ensures
            self.plans(r, Method::Post, "v1/team"@, Some(team_json@), seq![]),
    {
        self.call(Method::Post, text_of("v1/team"), Some(team_json))
    }

    /// The request that reads a team.
    pub fn get_team_request(&self, team_id: &str) -> (r: ApiResult<PreparedRequest>)
        ensures
            self.plans(r, Method::Get, team_path(team_id@), None, seq![]),
    {
        self.call(Method::Get, prefixed("v1/team/", team_id), None)
    }

    /// The request that lists all teams.
    pub fn get_all_teams_request(&self) -> (r: ApiResult<PreparedRequest>)
        ensures
            self.plans(r, Method::Get, "v1/team"@, None, seq![]),
    {
        self.call(Method::Get, text_of("v1/team"), None)
    }

    /// The request that lists a team's members.
    pub fn get_team_members_request(&self, team_id: &str) -> (r: ApiResult<PreparedRequest>)
        ensures
            self.plans(r, Method::Get, team_path(team_id@) + "/members"@, None, seq![]),
    {
        self.call(Method::Get, joined("v1/team/", team_id, "/members"), None)
    }

    /// The request that deletes a team.
    pub fn delete_team_request(&self, team_id: &str) -> (r: ApiResult<PreparedRequest>)
        ensures
            self.plans(r, Method::Delete, team_path(team_id@), None, seq![]),
    {
        self.call(Method::Delete, prefixed("v1/team/", team_id), None)
    }

    /// The request that updates a team; its name, percent-encoded as one
    /// path segment, names it in the path, so a record without one is
    /// refused before any exchange.
    pub fn update_team_request(
        &self,
        team: &Team,
        team_json: String,
    ) -> (r: ApiResult<PreparedRequest>)
        ensures
            team.name is None ==> (r matches Err(Error::InvalidInput(m)) && m@ == TEAM_NAME_REQUIRED@),
            team.name matches Some(n) ==> self.plans(r, Method::Put, team_path(segment_encode(n@)), Some(team_json@), seq![]),
    {
        match &team.name {
            None => Err(Error::InvalidInput(String::from_str(TEAM_NAME_REQUIRED))),
            Some(name) => {
                let segment = encode_path_segment(name.as_str());
                self.call(Method::Put, prefixed("v1/team/", segment.as_str()), Some(team_json))
            },
        }
    }

    /// The request that adds a user to a team.
    pub fn add_team_member_request(
        &self,
        team_id: &str,
        username: &str,
    ) -> (r: ApiResult<PreparedRequest>)
        ensures
            self.plans(
                r,
                Method::Post,
                team_path(team_id@) + "/members"@,
                Some(single_member_body("username"@, username@)),
                seq![],
            ),
    {
        let body = single_member_json("username", username);
        self.call(Method::Post, joined("v1/team/", team_id, "/members"), Some(body))
    }

    /// The request that removes a user from a team, naming who takes over.
    pub fn remove_team_member_request(
        &self,
        team_id: &str,
        username: &str,
        replacement: &str,
    ) -> (r: ApiResult<PreparedRequest>)
        ensures
            self.plans(
                r,
                Method::Delete,
                team_path(team_id@) + "/members/"@ + username_segment(username@),
                Some(single_member_body("replacement"@, replacement@)),
                seq![],
            ),
    {
        let body = single_member_json("replacement", replacement);
        let enc = form_urlencode(username);
        let mut endpoint = joined("v1/team/", team_id, "/members/");
        endpoint.append(enc.as_str());
        self.call(Method::Delete, endpoint, Some(body))
    }

    /// The request that lists a team's administrators.
    pub fn get_team_admins_request(&self, team_id: &str) -> (r: ApiResult<PreparedRequest>)
        ensures
            self.plans(r, Method::Get, team_path(team_id@) + "/admins"@, None, seq![]),
    {
        self.call(Method::Get, joined("v1/team/", team_id, "/admins"), None)
    }

    /// The request that reads a team's on-call schedule over a window.
    pub fn get_api_team_schedule_request(
        &self,
        team_slug: &str,
        days_forward: i32,
        days_skip: i32,
        step: i32,
    ) -> (r: ApiResult<PreparedRequest>)
        ensures
            self.plans(
                r,
                Method::Get,
                "v2/team/"@ + team_slug@ + schedule_suffix(days_forward, days_skip, step),
                None,
                seq![],
            ),
    {
        self.call(Method::Get, schedule_endpoint("v2/team/", team_slug, days_forward, days_skip, step), None)
    }

    /// The request that reads a user's on-call schedule over a window.
    pub fn get_user_on_call_schedule_request(
        &self,
        username: &str,
        days_forward: i32,
        days_skip: i32,
        step: i32,
    ) -> (r: ApiResult<PreparedRequest>)
        ensures
            self.plans(
                r,
                Method::Get,
                "v2/user/"@ + username_segment(username@) + schedule_suffix(days_forward, days_skip, step),
                None,
                seq![],
            ),
    {
        let enc = form_urlencode(username);
        self.call(Method::Get, schedule_endpoint("v2/user/", enc.as_str(), days_forward, days_skip, step), None)
    }

    /// The request that takes on-call for a team, with the take request's
    /// JSON text.
    pub fn take_on_call_for_team_request(
        &self,
        team_slug: &str,
        request_json: String,
    ) -> (r: ApiResult<PreparedRequest>)
        ensures
            self.plans(r, Method::Patch, team_path(team_slug@) + "/oncall/user"@, Some(request_json@), seq![]),
    {
        self.call(Method::Patch, joined("v1/team/", team_slug, "/oncall/user"), Some(request_json))
    }

    /// The request that takes on-call for a policy, with the take request's
    /// JSON text.
    pub fn take_on_call_for_policy_request(
        &self,
        policy_slug: &str,
        request_json: String,
    ) -> (r: ApiResult<PreparedRequest>)
        ensures
            self.plans(r, Method::Patch, policy_path(policy_slug@) + "/oncall/user"@, Some(request_json@), seq![]),
    {
        self.call(Method::Patch, joined("v1/policies/", policy_slug, "/oncall/user"), Some(request_json))
    }

    /// The request that creates an escalation policy from its JSON text.
    pub fn create_escalation_policy_request(
        &self,
        policy_json: String,
    ) -> (r: ApiResult<PreparedRequest>)
        ensures
            self.plans(r, Method::Post, "v1/policies"@, Some(policy_json@), seq![]),
    {
        self.call(Method::Post, text_of("v1/policies"), Some(policy_json))
    }

    /// The request that lists all escalation policies.
    pub fn get_all_escalation_policies_request(&self) -> (r: ApiResult<PreparedRequest>)
        ensures
            self.plans(r, Method::Get, "v1/policies"@, None, seq![]),
    {
        self.call(Method::Get, text_of("v1/policies"), None)
    }

    /// The request that reads an escalation policy.
    pub fn get_escalation_policy_request(
        &self,
        escalation_policy_id: &str,
    ) -> (r: ApiResult<PreparedRequest>)
        ensures
            self.plans(r, Method::Get, policy_path(escalation_policy_id@), None, seq![]),
    {
        self.call(Method::Get, prefixed("v1/policies/", escalation_policy_id), None)
    }

    /// The request that deletes an escalation policy.
    pub fn delete_escalation_policy_request(
        &self,
        escalation_policy_id: &str,
    ) -> (r: ApiResult<PreparedRequest>)
        ensures
            self.plans(r, Method::Delete, policy_path(escalation_policy_id@), None, seq![]),
    {
        self.call(Method::Delete, prefixed("v1/policies/", escalation_policy_id), None)
    }

    /// The request that creates a routing key from its JSON text.
    pub fn create_routing_key_request(
        &self,
        routing_key_json: String,
    ) -> (r: ApiResult<PreparedRequest>)
        ensures
            self.plans(r, Method::Post, "v1/org/routing-keys"@, Some(routing_key_json@), seq![]),
    {
        self.call(Method::Post, text_of("v1/org/routing-keys"), Some(routing_key_json))
    }

    /// The request that lists all routing keys.
    pub fn get_all_routing_keys_request(&self) -> (r: ApiResult<PreparedRequest>)
        ensures
            self.plans(r, Method::Get, "v1/org/routing-keys"@, None, seq![]),
    {
        self.call(Method::Get, text_of("v1/org/routing-keys"), None)
    }

    /// The request that creates a contact method; its kind, read from the
    /// contact, picks the endpoint, and a contact of no kind is refused
    /// before any exchange.
    pub fn create_contact_request(
        &self,
        username: &str,
        contact: &Contact,
        contact_json: String,
    ) -> (r: ApiResult<PreparedRequest>)
        ensures
            kind_of_contact(*contact) is None ==> (r matches Err(Error::InvalidInput(m)) && m@ == CONTACT_KIND_REQUIRED@),
            kind_of_contact(*contact) matches Some(k) ==> self.plans(
                r,
                Method::Post,
                contact_kind_path(username@, k),
                Some(contact_json@),
                seq![],
            ),
    {
        match contact.contact_type() {
            None => Err(Error::InvalidInput(String::from_str(CONTACT_KIND_REQUIRED))),
            Some(kind) => self.call(Method::Post, contact_kind_endpoint(username, kind), Some(contact_json)),
        }
    }

    /// The request that reads one contact method.
    pub fn get_contact_request(
        &self,
        username: &str,
        contact_ext_id: &str,
        contact_type: ContactType,
    ) -> (r: ApiResult<PreparedRequest>)
        ensures
            self.plans(r, Method::Get, contact_path(username@, contact_type, contact_ext_id@), None, seq![]),
    {
        self.call(Method::Get, contact_endpoint(username, contact_type, contact_ext_id), None)
    }

    /// The request that lists all contact methods of a user.
    pub fn get_all_contacts_request(&self, username: &str) -> (r: ApiResult<PreparedRequest>)
        ensures
            self.plans(r, Method::Get, contact_methods_path(username@), None, seq![]),
    {
        let mut endpoint = user_endpoint(username);
        endpoint.append("/contact-methods");
        self.call(Method::Get, endpoint, None)
    }

    /// The request that deletes one contact method.
    pub fn delete_contact_request(
        &self,
        username: &str,
        contact_ext_id: &str,
        contact_type: ContactType,
    ) -> (r: ApiResult<PreparedRequest>)
        ensures
            self.plans(r, Method::Delete, contact_path(username@, contact_type, contact_ext_id@), None, seq![]),
    {
        self.call(Method::Delete, contact_endpoint(username, contact_type, contact_ext_id), None)
    }
}

} // verus!
