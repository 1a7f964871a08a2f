//! Local decisions around the list-scan lookups: the synthesized
//! "All Devices" contact, and the searches over list responses (by contact
//! identifier, for the default email, for a team member, for a routing key).

use vstd::prelude::*;
use crate::error::{ApiResult, Error};
use crate::request::{Client, Method, PairView, PreparedRequest};
use crate::client::contact_kind_path;
use crate::text::{lower_of, to_lower};
use crate::types::{
    Contact, ContactType, EmailContactEntry, GetAllContactResponse, RequestDetails,
    RoutingKeyResponse, RoutingKeyResponseList, TeamMembers,
};

verus! {

/// The label and value of the synthesized contact for all devices.
pub const ALL_DEVICES: &'static str = "All Devices";

/// The label that marks a user's default email contact.
pub const DEFAULT_LABEL: &'static str = "Default";

/// Whether `c` is the synthesized contact for all devices: identifier 0,
/// rank 0, label and value "All Devices", nothing else.
pub open spec fn is_all_devices(c: Contact) -> bool {
    &&& c.phone_number is None
    &&& c.email is None
    &&& c.label matches Some(l) && l@ == ALL_DEVICES@
    &&& c.rank == Some(0i32)
    &&& c.ext_id is None
    &&& c.id == Some(0i32)
    &&& c.value matches Some(v) && v@ == ALL_DEVICES@
    &&& c.verified is None
}

/// Whether `d` is the record of an exchange that never took place: status
/// 200 and empty bodies.
pub open spec fn is_local_exchange(d: RequestDetails) -> bool {
    d.status_code == 200 && d.response_body@.len() == 0 && d.request_body@.len() == 0
}

/// The first step of a contact lookup by identifier.
#[derive(Debug, Clone)]
pub enum ContactLookup {
    /// Answered without any exchange.
    Local(Contact, RequestDetails),
    /// The list of that kind's contacts must be fetched and searched.
    Fetch(PreparedRequest),
}

/// Whether `c` carries identifier `id`.
pub open spec fn has_id(c: Contact, id: i32) -> bool {
    c.id == Some(id)
}

/// Whether `r` is the first contact of `list` with identifier `id`, or
/// `None` when no contact there has it.
pub open spec fn first_with_id(list: Option<Vec<Contact>>, id: i32, r: Option<Contact>) -> bool {
    match list {
        None => r is None,
        Some(v) => match r {
            None => forall|i: int| 0 <= i < v@.len() ==> !has_id(#[trigger] v@[i], id),
            Some(c) => exists|i: int|
                0 <= i < v@.len() && v@[i] == c && has_id(c, id) && forall|j: int|
                    0 <= j < i ==> !has_id(#[trigger] v@[j], id),
        },
    }
}

/// Searches a contact list for the first contact with identifier `id`;
/// absence is `None`, never an error.
pub fn contact_with_id(contacts: GetAllContactResponse, id: i32) -> (r: Option<Contact>)
    ensures
        first_with_id(contacts.contact_methods, id, r),
{
    let ghost before = contacts.contact_methods;
    match contacts.contact_methods {
        None => None,
        Some(mut v) => {
            let ghost orig = v@;
            let mut i: usize = 0;
            while i < v.len()
                invariant
                    v@ == orig,
                    before == contacts.contact_methods,
                    before is Some && before->0@ == orig,
                    i <= v@.len(),
                    forall|j: int| 0 <= j < i ==> !has_id(#[trigger] orig[j], id),
                decreases v@.len() - i,
            {
                let matched = match v[i].id {
                    Some(x) => x == id,
                    None => false,
                };
                if matched {
                    let c = v.remove(i);
                    assert(orig[i as int] == c && has_id(c, id));
                    return Some(c);
                }
                i = i + 1;
            }
            None
        },
    }
}

/// Whether an email entry is the default one: labelled exactly "Default",
/// with a numeric identifier.
pub open spec fn is_default_entry(e: EmailContactEntry) -> bool {
    e.label matches Some(l) && l@ == DEFAULT_LABEL@ && e.has_numeric_id
}

/// Whether `r` is the outcome of searching `entries` for the default:
/// the position of the first default entry, or `NotFound` when none is.
pub open spec fn default_search(entries: Seq<EmailContactEntry>, r: ApiResult<usize>) -> bool {
    &&& (r matches Ok(i) ==> i < entries.len() && is_default_entry(entries[i as int]) && forall|
        j: int,
    | 0 <= j < i ==> !is_default_entry(#[trigger] entries[j]))
    &&& (r is Err ==> r matches Err(Error::NotFound))
    &&& r is Err <==> forall|j: int| 0 <= j < entries.len() ==> !is_default_entry(#[trigger] entries[j])
}

/// The default search answers with the single default entry when there is
/// exactly one, and with `NotFound` for an empty list or one without any.
pub proof fn lemma_default_search_outcomes(entries: Seq<EmailContactEntry>, r: ApiResult<usize>, k: int)
    requires
        default_search(entries, r),
    ensures
        entries.len() == 0 ==> r matches Err(Error::NotFound),
        (forall|j: int| 0 <= j < entries.len() ==> !is_default_entry(#[trigger] entries[j])) ==> r matches Err(Error::NotFound),
        (0 <= k < entries.len() && is_default_entry(entries[k]) && forall|j: int|
            0 <= j < entries.len() && j != k ==> !is_default_entry(#[trigger] entries[j])) ==> r == Ok::<usize, Error>(k as usize),
{
    if 0 <= k < entries.len() && is_default_entry(entries[k]) {
        assert(r is Ok);
    }
}

/// The position of the first default entry among a user's email contact
/// methods; `NotFound` when the list is empty or none is the default.
pub fn default_email_index(entries: &Vec<EmailContactEntry>) -> (r: ApiResult<usize>)
    ensures
        default_search(entries@, r),
{
    let default_label = String::from_str(DEFAULT_LABEL);
    let mut i: usize = 0;
    while i < entries.len()
        invariant
            i <= entries@.len(),
            default_label@ == DEFAULT_LABEL@,
            forall|j: int| 0 <= j < i ==> !is_default_entry(#[trigger] entries@[j]),
        decreases entries@.len() - i,
    {
        let e = &entries[i];
        let labelled = match &e.label {
            Some(l) => *l == default_label,
            None => false,
        };
        if labelled && e.has_numeric_id {
            return Ok(i);
        }
        i = i + 1;
    }
    Err(Error::NotFound)
}

/// What a routing-key search can return: nothing from a missing or empty
/// list or from entries without a name, and only a key whose name is
/// exactly the one asked for.
pub proof fn lemma_routing_key_search_outcomes(
    list: Option<Vec<RoutingKeyResponse>>,
    name: Seq<char>,
    r: Option<RoutingKeyResponse>,
)
    requires
        first_named(list, name, r),
    ensures
        list is None ==> r is None,
        (list matches Some(v) && v@.len() == 0) ==> r is None,
        (list matches Some(v) && forall|i: int| 0 <= i < v@.len() ==> (#[trigger] v@[i]).routing_key is None) ==> r is None,
        r matches Some(k) ==> (k.routing_key matches Some(n) && n@ == name),
{
    if let Some(v) = list {
        if let Some(k) = r {
            let i = choose|i: int|
                0 <= i < v@.len() && v@[i] == k && key_named(k, name) && forall|j: int|
                    0 <= j < i ==> !key_named(#[trigger] v@[j], name);
            assert(v@[i].routing_key is Some);
        }
    }
}

/// Whether an optional username is present and equals `username` up to case.
pub open spec fn same_user(name: Option<String>, username: Seq<char>) -> bool {
    match name {
        Some(u) => lower_of(u@) == lower_of(username),
        None => false,
    }
}

/// Whether a user, by case-insensitive username, is among a team's members.
pub open spec fn has_member(members: TeamMembers, username: Seq<char>) -> bool {
    match members.members {
        None => false,
        Some(v) => exists|i: int| 0 <= i < v@.len() && same_user((#[trigger] v@[i]).username, username),
    }
}

/// Membership ignores case: two usernames with the same lower case are
/// members of the same teams, and a missing or empty member list holds no
/// one.
pub proof fn lemma_membership_ignores_case(members: TeamMembers, a: Seq<char>, b: Seq<char>)
    requires
        lower_of(a) == lower_of(b),
    ensures
        has_member(members, a) == has_member(members, b),
        (members.members matches Some(v) && v@.len() == 0) ==> !has_member(members, a),
        members.members is None ==> !has_member(members, a),
{
    if let Some(v) = members.members {
        if has_member(members, a) {
            let k = choose|k: int| 0 <= k < v@.len() && same_user((#[trigger] v@[k]).username, a);
            assert(same_user(v@[k].username, b));
        }
        if has_member(members, b) {
            let k = choose|k: int| 0 <= k < v@.len() && same_user((#[trigger] v@[k]).username, b);
            assert(same_user(v@[k].username, a));
        }
    }
}

/// Whether an optional text is present and equals `target`.
pub open spec fn present_and_equal(name: Option<String>, target: Seq<char>) -> bool {
    match name {
        Some(n) => n@ == target,
        None => false,
    }
}

/// Whether some present name among `names` equals `target`.
pub open spec fn any_equal(names: Seq<Option<String>>, target: Seq<char>) -> bool {
    exists|i: int| 0 <= i < names.len() && present_and_equal(#[trigger] names[i], target)
}

/// Whether some present name equals `target`; the names and the target are
/// given already in lower case.
pub fn any_folded_match(folded_names: &Vec<Option<String>>, folded_target: &String) -> (r: bool)
    ensures
        r == any_equal(folded_names@, folded_target@),
{
    let mut i: usize = 0;
    while i < folded_names.len()
        invariant
            i <= folded_names@.len(),
            forall|j: int|
                0 <= j < i ==> !present_and_equal(#[trigger] folded_names@[j], folded_target@),
        decreases folded_names@.len() - i,
    {
        let hit = match &folded_names[i] {
            Some(n) => *n == *folded_target,
            None => false,
        };
        if hit {
            return true;
        }
        i = i + 1;
    }
    false
}

/// Whether `username` is among a team's members, comparing usernames
/// without regard to case; an empty or missing list gives `false`.
pub fn team_has_member(members: &TeamMembers, username: &str) -> (r: bool)
    ensures
        r == has_member(*members, username@),
{
    match &members.members {
        None => false,
        Some(v) => {
            let mut folded: Vec<Option<String>> = Vec::new();
            let mut i: usize = 0;
            while i < v.len()
                invariant
                    i <= v@.len(),
                    folded@.len() == i,
                    forall|j: int|
                        0 <= j < i ==> match (#[trigger] v@[j]).username {
                            Some(u) => folded@[j] matches Some(f) && f@ == lower_of(u@),
                            None => folded@[j] is None,
                        },
                decreases v@.len() - i,
            {
                let f = match &v[i].username {
                    Some(u) => Some(to_lower(u.as_str())),
                    None => None,
                };
                folded.push(f);
                i = i + 1;
            }
            let target = to_lower(username);
            let r = any_folded_match(&folded, &target);
            proof {
                if r {
                    let k = choose|k: int|
                        0 <= k < folded@.len() && present_and_equal(#[trigger] folded@[k], target@);
                    assert(same_user(v@[k].username, username@));
                }
                if has_member(*members, username@) {
                    let k = choose|k: int|
                        0 <= k < v@.len() && same_user((#[trigger] v@[k]).username, username@);
                    assert(present_and_equal(folded@[k], target@));
                }
            }
            r
        },
    }
}

/// Whether a listed routing key is named exactly `name`.
pub open spec fn key_named(k: RoutingKeyResponse, name: Seq<char>) -> bool {
    k.routing_key matches Some(n) && n@ == name
}

/// Whether `r` is the first routing key of `list` named exactly `name`, or
/// `None` when none is (entries without a name never match).
pub open spec fn first_named(list: Option<Vec<RoutingKeyResponse>>, name: Seq<char>, r: Option<RoutingKeyResponse>) -> bool {
    match list {
        None => r is None,
        Some(v) => match r {
            None => forall|i: int| 0 <= i < v@.len() ==> !key_named(#[trigger] v@[i], name),
            Some(k) => exists|i: int|
                0 <= i < v@.len() && v@[i] == k && key_named(k, name) && forall|j: int|
                    0 <= j < i ==> !key_named(#[trigger] v@[j], name),
        },
    }
}

/// Searches the routing-key list for the first key named exactly
/// `key_name`; absence is `None`, never an error.
pub fn routing_key_named(
    keys: RoutingKeyResponseList,
    key_name: &str,
) -> (r: Option<RoutingKeyResponse>)
    ensures
        first_named(keys.routing_keys, key_name@, r),
{
    let ghost before = keys.routing_keys;
    match keys.routing_keys {
        None => None,
        Some(mut v) => {
            let ghost orig = v@;
            let wanted = String::from_str(key_name);
            let mut i: usize = 0;
            while i < v.len()
                invariant
                    v@ == orig,
                    before == keys.routing_keys,
                    before is Some && before->0@ == orig,
                    i <= v@.len(),
                    wanted@ == key_name@,
                    forall|j: int| 0 <= j < i ==> !key_named(#[trigger] orig[j], key_name@),
                decreases v@.len() - i,
            {
                let matched = match &v[i].routing_key {
                    Some(n) => *n == wanted,
                    None => false,
                };
                if matched {
                    let k = v.remove(i);
                    assert(orig[i as int] == k && key_named(k, key_name@));
                    return Some(k);
                }
                i = i + 1;
            }
            None
        },
    }
}

impl Client {
    /// The first step of looking up a contact by identifier. A device with
    /// identifier 0 is the synthesized "All Devices" contact, answered
    /// locally with a status-200 record and empty bodies, whatever the
    /// username; any other pair fetches the list of that kind.
    pub fn get_contact_by_id_request(
        &self,
        username: &str,
        id: i32,
        contact_type: ContactType,
    ) -> (r: ApiResult<ContactLookup>)
        ensures
            contact_type == ContactType::Device && id == 0 ==> (r matches Ok(
                ContactLookup::Local(c, d),
            ) && is_all_devices(c) && is_local_exchange(d)),
            !(contact_type == ContactType::Device && id == 0) ==> match r {
                Ok(ContactLookup::Fetch(p)) => self.plans(
                    Ok(p),
                    Method::Get,
                    contact_kind_path(username@, contact_type),
                    None,
                    Seq::<PairView>::empty(),
                ),
                Ok(ContactLookup::Local(_, _)) => false,
                Err(e) => self.plans(
                    Err(e),
                    Method::Get,
                    contact_kind_path(username@, contact_type),
                    None,
                    Seq::<PairView>::empty(),
                ),
            },
    {
        if contact_type == ContactType::Device && id == 0 {
            let contact = Contact {
                phone_number: None,
                email: None,
                label: Some(String::from_str(ALL_DEVICES)),
                rank: Some(0),
                ext_id: None,
                id: Some(0),
                value: Some(String::from_str(ALL_DEVICES)),
                verified: None,
            };
            let details = RequestDetails {
                status_code: 200,
                response_body: String::new(),
                request_body: String::new(),
            };
            return Ok(ContactLookup::Local(contact, details));
        }
        match self.contact_kind_list_request(username, contact_type) {
            Ok(p) => Ok(ContactLookup::Fetch(p)),
            Err(e) => Err(e),
        }
    }
}

} // verus!
