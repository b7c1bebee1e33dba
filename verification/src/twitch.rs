//! Twitch Helix decisions: the credential check, the endpoint URLs and
//! the bearer header, and how readings update the cached channel state.
//! The caller performs the HTTP requests and hands in the plain fields it
//! read.

use vstd::prelude::*;

verus! {

/// The cached Twitch channel state.
#[derive(Debug, Clone)]
pub struct TwitchState {
    pub connected: bool,
    pub channel_name: String,
    pub viewers: u32,
    pub followers: u32,
    pub is_live: bool,
    pub access_token: String,
    pub client_id: String,
    pub broadcaster_id: String,
    pub last_update: u64,
}

/// A disconnected cache with everything cleared.
pub fn twitch_state_start() -> (r: TwitchState)
    ensures
        !r.connected,
        !r.is_live,
        r.viewers == 0,
        r.followers == 0,
        r.last_update == 0,
        r.broadcaster_id@ == Seq::<char>::empty(),
{
    TwitchState {
        connected: false,
        channel_name: String::new(),
        viewers: 0,
        followers: 0,
        is_live: false,
        access_token: String::new(),
        client_id: String::new(),
        broadcaster_id: String::new(),
    last_update: 0,
    }
}

/// Checks that all three credentials were given.
pub fn twitch_credentials_ok(client_id: &str, access_token: &str, channel: &str) -> (r: Result<
    (),
    String,
>)
    ensures
        r is Ok <==> (client_id@.len() > 0 && access_token@.len() > 0 && channel@.len() > 0),
        r matches Err(e) ==> e@ == "Twitch credentials not configured"@,
{
    if client_id.unicode_len() == 0 || access_token.unicode_len() == 0 || channel.unicode_len()
        == 0 {
        Err(String::from_str("Twitch credentials not configured"))
    } else {
        Ok(())
    }
}

/// The cache can serve channel requests: initialized and holding a
/// broadcaster id.
pub fn twitch_ready(state: &TwitchState) -> (r: bool)
    ensures
        r == (state.connected && state.broadcaster_id@.len() > 0),
{
    state.connected && state.broadcaster_id.unicode_len() > 0
}

/// The user lookup endpoint for a channel name.
pub fn twitch_users_url(channel: &str) -> (r: String)
    ensures
        r@ == "https://api.twitch.tv/helix/users?login="@ + channel@,
{
    let mut s = String::from_str("https://api.twitch.tv/helix/users?login=");
    s.append(channel);
    s
}

/// The stream lookup endpoint for a broadcaster id.
pub fn twitch_streams_url(broadcaster_id: &str) -> (r: String)
    ensures
        r@ == "https://api.twitch.tv/helix/streams?user_id="@ + broadcaster_id@,
{
    let mut s = String::from_str("https://api.twitch.tv/helix/streams?user_id=");
    s.append(broadcaster_id);
    s
}

/// The follower count endpoint for a broadcaster id.
pub fn twitch_followers_url(broadcaster_id: &str) -> (r: String)
    ensures
        r@ == "https://api.twitch.tv/helix/channels/followers?broadcaster_id="@ + broadcaster_id@,
{
    let mut s = String::from_str("https://api.twitch.tv/helix/channels/followers?broadcaster_id=");
    s.append(broadcaster_id);
    s
}

/// The clip creation endpoint for a broadcaster id.
pub fn twitch_clips_url(broadcaster_id: &str) -> (r: String)
    ensures
        r@ == "https://api.twitch.tv/helix/clips?broadcaster_id="@ + broadcaster_id@,
{
    let mut s = String::from_str("https://api.twitch.tv/helix/clips?broadcaster_id=");
    s.append(broadcaster_id);
    s
}

/// The bearer value of the authorization header.
pub fn bearer_header(access_token: &str) -> (r: String)
    ensures
        r@ == "Bearer "@ + access_token@,
{
    let mut s = String::from_str("Bearer ");
    s.append(access_token);
    s
}

/// Marks the cache initialized with the channel, credentials and the
/// broadcaster id the lookup returned.
pub fn twitch_init_apply(
    state: &mut TwitchState,
    channel: String,
    client_id: String,
    access_token: String,
    broadcaster_id: String,
)
    ensures
        final(state).connected,
        final(state).channel_name == channel,
        final(state).client_id == client_id,
        final(state).access_token == access_token,
        final(state).broadcaster_id == broadcaster_id,
        final(state).viewers == old(state).viewers,
        final(state).followers == old(state).followers,
        final(state).is_live == old(state).is_live,
        final(state).last_update == old(state).last_update,
{
    state.connected = true;
    state.channel_name = channel;
    state.client_id = client_id;
    state.access_token = access_token;
    state.broadcaster_id = broadcaster_id;
}

/// Records a stream reading: the viewer count, whether the channel is
/// live, and when it was read.
pub fn twitch_apply_stream(state: &mut TwitchState, viewers: u32, is_live: bool, now: u64)
    ensures
        *final(state) == (TwitchState { viewers, is_live, last_update: now, ..*old(state) }),
{
    state.viewers = viewers;
    state.is_live = is_live;
    state.last_update = now;
}

/// Records a follower count reading.
pub fn twitch_apply_followers(state: &mut TwitchState, followers: u32)
    ensures
        *final(state) == (TwitchState { followers, ..*old(state) }),
{
    state.followers = followers;
}

} // verus!
