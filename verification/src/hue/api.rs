//! The bridge's REST interface: request addresses, and what the answer to a
//! registration request means.

use vstd::prelude::*;

verus! {

/// `http://{ip}/api`.
pub open spec fn api_address(ip: Seq<char>) -> Seq<char> {
    "http://"@ + ip + "/api"@
}

/// `http://{ip}/api/{username}/{resource}`.
pub open spec fn resource_address(ip: Seq<char>, username: Seq<char>, resource: Seq<char>) -> Seq<char> {
    api_address(ip) + "/"@ + username + "/"@ + resource
}

/// `http://{ip}/api/{username}/lights/{id}/state`.
pub open spec fn light_state_address(ip: Seq<char>, username: Seq<char>, id: Seq<char>) -> Seq<char> {
    resource_address(ip, username, "lights"@) + "/"@ + id + "/state"@
}

/// `http://{ip}/api/{username}/groups/{id}/action`.
pub open spec fn group_action_address(ip: Seq<char>, username: Seq<char>, id: Seq<char>) -> Seq<char> {
    resource_address(ip, username, "groups"@) + "/"@ + id + "/action"@
}

/// The registration address of the bridge at `ip`.
pub fn api_url(ip: &str) -> (u: String)
    ensures
        u@ == api_address(ip@),
{
    let mut u = String::from_str("http://");
    u.append(ip);
    u.append("/api");
    u
}

fn resource_url(ip: &str, username: &str, resource: &str) -> (u: String)
    ensures
        u@ == resource_address(ip@, username@, resource@),
{
    let mut u = api_url(ip);
    u.append("/");
    u.append(username);
    u.append("/");
    u.append(resource);
    assert(u@ =~= resource_address(ip@, username@, resource@));
    u
}

/// The address that lists every light.
pub fn lights_url(ip: &str, username: &str) -> (u: String)
    ensures
        u@ == resource_address(ip@, username@, "lights"@),
{
    resource_url(ip, username, "lights")
}

/// The address that lists every group.
pub fn groups_url(ip: &str, username: &str) -> (u: String)
    ensures
        u@ == resource_address(ip@, username@, "groups"@),
{
    resource_url(ip, username, "groups")
}

/// The address that lists every scene.
pub fn scenes_url(ip: &str, username: &str) -> (u: String)
    ensures
        u@ == resource_address(ip@, username@, "scenes"@),
{
    resource_url(ip, username, "scenes")
}

/// The address that sets the state of light `id`.
pub fn light_state_url(ip: &str, username: &str, id: &str) -> (u: String)
    ensures
        u@ == light_state_address(ip@, username@, id@),
{
    let mut u = resource_url(ip, username, "lights");
    u.append("/");
    u.append(id);
    u.append("/state");
    assert(u@ =~= light_state_address(ip@, username@, id@));
    u
}

/// The address that sets the action of group `id`.
pub fn group_action_url(ip: &str, username: &str, id: &str) -> (u: String)
    ensures
        u@ == group_action_address(ip@, username@, id@),
{
    let mut u = resource_url(ip, username, "groups");
    u.append("/");
    u.append(id);
    u.append("/action");
    assert(u@ =~= group_action_address(ip@, username@, id@));
    u
}

/// A successful registration: the key that the bridge issued.
#[derive(Debug, Clone)]
pub struct HueApiSuccess {
    pub username: String,
}

/// An error that the bridge reported.
#[derive(Debug, Clone)]
pub struct HueApiError {
    pub error_type: u32,
    pub description: String,
}

/// One item of the bridge's answer.
#[derive(Debug, Clone)]
pub struct HueApiResponseItem {
    pub success: Option<HueApiSuccess>,
    pub error: Option<HueApiError>,
}

/// The error type that means that the link button was not pressed.
pub const LINK_BUTTON_NOT_PRESSED: u32 = 101;

/// What the answer to a registration request means, from item `i` on: the
/// first item that reports a success gives the issued key; the first that
/// reports an error gives nothing when the link button was not pressed and
/// the error's description otherwise; an answer without either gives nothing.
pub open spec fn registration_from(items: Seq<HueApiResponseItem>, i: int) -> Result<Option<Seq<char>>, Seq<char>>
    decreases items.len() - i,
{
    if i < 0 || i >= items.len() {
        Ok(None)
    } else {
        match items[i].success {
            Some(s) => Ok(Some(s.username@)),
            None => match items[i].error {
                Some(e) => if e.error_type == LINK_BUTTON_NOT_PRESSED {
                    Ok(None)
                } else {
                    Err(e.description@)
                },
                None => registration_from(items, i + 1),
            },
        }
    }
}

/// What the answer to a registration request means: `Ok(Some(key))` when the
/// bridge issued a key, `Ok(None)` when the link button is not yet pressed,
/// `Err(description)` when the bridge refused for another reason.
pub fn interpret_registration(items: &Vec<HueApiResponseItem>) -> (r: Result<Option<String>, String>)
    ensures
        match registration_from(items@, 0) {
            Ok(None) => r matches Ok(None),
            Ok(Some(k)) => r matches Ok(Some(u)) && u@ == k,
            Err(d) => r matches Err(e) && e@ == d,
        },
{
    let mut i: usize = 0;
    while i < items.len()
        invariant
            i <= items@.len(),
            registration_from(items@, 0) == registration_from(items@, i as int),
        decreases items@.len() - i,
    {
        let item = &items[i];
        if let Some(success) = &item.success {
            return Ok(Some(success.username.clone()));
        }
        if let Some(error) = &item.error {
            if error.error_type == LINK_BUTTON_NOT_PRESSED {
                return Ok(None);
            } else {
                return Err(error.description.clone());
            }
        }
        i = i + 1;
    }
    Ok(None)
}

} // verus!
