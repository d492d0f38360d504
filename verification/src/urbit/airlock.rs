//! The client of the upstream host: addresses, channel, message identifiers
//! and what each answer of the host means. The HTTP requests themselves are
//! made by whoever drives the client.

use vstd::prelude::*;
use vstd::arithmetic::power2::{lemma2_to64, pow2};
use crate::config::UrbitConfig;

verus! {

/// How often a connection is tried when a task starts.
pub const INITIAL_CONNECT_RETRIES: u32 = 5;

/// How often a connection is tried again once it was lost.
pub const RECONNECT_RETRIES: u32 = 3;

/// How many uplinks may wait for the forwarder.
pub const UPLINK_CHANNEL_CAPACITY: usize = 256;

/// The first message identifier of a channel.
pub const FIRST_MESSAGE_ID: u64 = 1;

/// Why the client cannot do what was asked.
#[derive(Debug, Clone, Copy, PartialEq, Eq, Structural)]
pub enum AirlockError {
    /// The client is not logged in.
    NotConnected,
    /// The host refused the login.
    LoginRefused { status: u16 },
    /// The host refused a message.
    Rejected { status: u16 },
    /// The channel has no message identifier left.
    IdsExhausted,
}

/// What to do once a connection attempt has failed.
#[derive(Debug, Clone, Copy, PartialEq, Eq, Structural)]
pub enum RetryDecision {
    /// Enough was tried.
    GiveUp,
    /// Wait that many seconds and try again.
    RetryAfter { secs: u64 },
}

/// What the answer of the host to a poke means.
#[derive(Debug, Clone, Copy, PartialEq, Eq, Structural)]
pub enum PokeOutcome {
    /// The poke went through. Acknowledge event 0 under the given message
    /// identifier, if one is left, and do not mind how that goes.
    Delivered { ack_id: Option<u64> },
    /// The login has expired: bind a new channel, log in, poke once more.
    Rebind,
    /// The host refused the poke.
    Failed { status: u16 },
}

/// A client of the host: where the host is and who asks, and the state of
/// the session with it.
#[derive(Debug)]
pub struct AirlockClient {
    /// Where the host is, and the ship, the code and the agent.
    pub config: UrbitConfig,
    /// Name of the channel: the name of the client, a hyphen and something
    /// unique.
    pub channel_id: String,
    /// The identifier of the next message on the channel.
    pub next_id: u64,
    /// Whether the client is logged in.
    pub connected: bool,
}

/// The name of a channel with the given unique part.
pub open spec fn channel_name(unique: Seq<char>) -> Seq<char> {
    "loraurbit-"@ + unique
}

/// Whether a status is a success (`2xx`).
pub open spec fn is_success(status: u16) -> bool {
    200 <= status < 300
}

/// Whether a status is a redirection (`3xx`).
pub open spec fn is_redirection(status: u16) -> bool {
    300 <= status < 400
}

/// Whether a status says that the login has expired.
pub open spec fn is_auth_expired(status: u16) -> bool {
    status == 401 || status == 403
}

/// Seconds to wait after the given number of failed attempts: two to the
/// number of attempts, and no more than two to the fifth.
pub open spec fn backoff_spec(attempts: u32) -> nat {
    pow2(
        if attempts < 5 {
            attempts as nat
        } else {
            5
        },
    )
}

/// What to do after one more failure, `failed_before` attempts having
/// failed already, where `max_retries` attempts are allowed in all.
pub open spec fn retry_spec(failed_before: u32, max_retries: u32) -> RetryDecision {
    if failed_before + 1 >= max_retries {
        RetryDecision::GiveUp
    } else {
        RetryDecision::RetryAfter { secs: backoff_spec((failed_before + 1) as u32) as u64 }
    }
}

/// A fresh random UUID as text, from `uuid::Uuid::new_v4`. Nothing is
/// promised of it.
#[verifier::external_body]
fn fresh_uuid() -> (text: String) {
    uuid::Uuid::new_v4().to_string()
}

/// Seconds to wait after the given number of failed attempts.
pub fn backoff_secs(attempts: u32) -> (secs: u64)
    ensures
        secs == backoff_spec(attempts),
        2 <= secs <= 32 || attempts == 0,
{
    proof {
        lemma2_to64();
    }
    if attempts == 0 {
        1
    } else if attempts == 1 {
        2
    } else if attempts == 2 {
        4
    } else if attempts == 3 {
        8
    } else if attempts == 4 {
        16
    } else {
        32
    }
}

/// Decides what to do after one more failed connection attempt.
pub fn retry_after_failure(failed_before: u32, max_retries: u32) -> (decision: RetryDecision)
    ensures
        decision == retry_spec(failed_before, max_retries),
{
    if failed_before == u32::MAX {
        return RetryDecision::GiveUp;
    }
    let attempts: u32 = failed_before + 1;
    if attempts >= max_retries {
        RetryDecision::GiveUp
    } else {
        RetryDecision::RetryAfter { secs: backoff_secs(attempts) }
    }
}

/// Whether the host accepted a login: it answers a good login with a
/// redirection as often as with a success.
pub fn login_accepted(status: u16) -> (accepted: bool)
    ensures
        accepted == (is_success(status) || is_redirection(status)),
{
    200 <= status && status < 400
}

impl AirlockClient {
    /// The address of the login: the address of the host and `/~/login`.
    pub open spec fn login_url_spec(&self) -> Seq<char> {
        self.config.url@ + "/~/login"@
    }

    /// The form body of the login: `password=` and the code.
    pub open spec fn login_body_spec(&self) -> Seq<char> {
        "password="@ + self.config.code@
    }

    /// The address of the channel: the address of the host, `/~/channel/`
    /// and the name of the channel.
    pub open spec fn channel_url_spec(&self) -> Seq<char> {
        self.config.url@ + "/~/channel/"@ + self.channel_id@
    }

    /// A client on the channel with the given unique part, not logged in.
    pub fn with_channel(config: UrbitConfig, unique: &str) -> (client: Self)
        ensures
            client.config == config,
            client.channel_id@ == channel_name(unique@),
            client.next_id == FIRST_MESSAGE_ID,
            !client.connected,
    {
        let mut channel_id = "loraurbit-".to_owned();
        channel_id.append(unique);
        AirlockClient { config, channel_id, next_id: FIRST_MESSAGE_ID, connected: false }
    }

    /// A client on a channel of its own, not logged in.
    pub fn new(config: UrbitConfig) -> (client: Self)
        ensures
            client.config == config,
            exists|unique: Seq<char>| client.channel_id@ == channel_name(unique),
            client.next_id == FIRST_MESSAGE_ID,
            !client.connected,
    {
        let unique = fresh_uuid();
        AirlockClient::with_channel(config, unique.as_str())
    }

    /// The address to send the login to.
    pub fn login_url(&self) -> (url: String)
        ensures
            url@ == self.login_url_spec(),
    {
        let mut url = self.config.url.clone();
        url.append("/~/login");
        url
    }

    /// The form body to send as the login.
    pub fn login_body(&self) -> (body: String)
        ensures
            body@ == self.login_body_spec(),
    {
        let mut body = "password=".to_owned();
        body.append(self.config.code.as_str());
        body
    }

    /// The address to send the messages of the channel to.
    pub fn channel_url(&self) -> (url: String)
        ensures
            url@ == self.channel_url_spec(),
    {
        let mut url = self.config.url.clone();
        url.append("/~/channel/");
        url.append(self.channel_id.as_str());
        url
    }

    /// Whether the client is logged in.
    pub fn is_connected(&self) -> (connected: bool)
        ensures
            connected == self.connected,
    {
        self.connected
    }

    /// Takes in the answer of the host to a login. The client is logged in
    /// from then on exactly where the host accepted; a refusal leaves it as
    /// it was.
    pub fn login_answered(&mut self, status: u16) -> (result: Result<(), AirlockError>)
        ensures
            final(self).config == old(self).config,
            final(self).channel_id == old(self).channel_id,
            final(self).next_id == old(self).next_id,
            is_success(status) || is_redirection(status) ==> result.is_ok() && final(self).connected,
            !(is_success(status) || is_redirection(status)) ==> result == Err::<(), AirlockError>(
                AirlockError::LoginRefused { status },
            ) && final(self).connected == old(self).connected,
    {
        if login_accepted(status) {
            self.connected = true;
            Ok(())
        } else {
            Err(AirlockError::LoginRefused { status })
        }
    }

    /// Takes the identifier for the next message on the channel. No
    /// identifier is given out twice: they go up by one, and where none is
    /// left, none is given.
    pub fn take_id(&mut self) -> (id: Option<u64>)
        ensures
            final(self).config == old(self).config,
            final(self).channel_id == old(self).channel_id,
            final(self).connected == old(self).connected,
            old(self).next_id < u64::MAX ==> id == Some(old(self).next_id) && final(self).next_id
                == old(self).next_id + 1,
            old(self).next_id == u64::MAX ==> id.is_none() && final(self).next_id == u64::MAX,
    {
        if self.next_id == u64::MAX {
            return None;
        }
        let id = self.next_id;
        self.next_id = id + 1;
        Some(id)
    }

    /// Starts a poke: gives the identifier under which it goes out. A client
    /// that is not logged in pokes nothing.
    pub fn begin_poke(&mut self) -> (result: Result<u64, AirlockError>)
        ensures
            final(self).config == old(self).config,
            final(self).channel_id == old(self).channel_id,
            final(self).connected == old(self).connected,
            !old(self).connected ==> result == Err::<u64, AirlockError>(AirlockError::NotConnected)
                && final(self).next_id == old(self).next_id,
            old(self).connected && old(self).next_id == u64::MAX ==> result == Err::<
                u64,
                AirlockError,
            >(AirlockError::IdsExhausted) && final(self).next_id == old(self).next_id,
            old(self).connected && old(self).next_id < u64::MAX ==> result == Ok::<
                u64,
                AirlockError,
            >(old(self).next_id) && final(self).next_id == old(self).next_id + 1,
    {
        if !self.connected {
            return Err(AirlockError::NotConnected);
        }
        match self.take_id() {
            Some(id) => Ok(id),
            None => Err(AirlockError::IdsExhausted),
        }
    }

    /// Takes in the answer of the host to a poke. A success takes the next
    /// identifier for the acknowledgement of event 0; an expired login ends
    /// the connection; any other answer is a failure and changes nothing.
    pub fn poke_answered(&mut self, status: u16) -> (outcome: PokeOutcome)
        ensures
            final(self).config == old(self).config,
            final(self).channel_id == old(self).channel_id,
            is_success(status) ==> final(self).connected == old(self).connected && (if old(self).next_id < u64::MAX {
                outcome == (PokeOutcome::Delivered { ack_id: Some(old(self).next_id) }) && final(self).next_id == old(self).next_id + 1
            } else {
                outcome == (PokeOutcome::Delivered { ack_id: None }) && final(self).next_id == old(self).next_id
            }),
            !is_success(status) && is_auth_expired(status) ==> outcome == PokeOutcome::Rebind
                && !final(self).connected && final(self).next_id == old(self).next_id,
            !is_success(status) && !is_auth_expired(status) ==> outcome == (PokeOutcome::Failed {
                status,
            }) && final(self).connected == old(self).connected && final(self).next_id == old(self).next_id,
    {
        if 200 <= status && status < 300 {
            PokeOutcome::Delivered { ack_id: self.take_id() }
        } else if status == 401 || status == 403 {
            self.connected = false;
            PokeOutcome::Rebind
        } else {
            PokeOutcome::Failed { status }
        }
    }

    /// Binds the client to the channel with the given unique part: not
    /// logged in, and the identifiers start over.
    pub fn rebind_to(&mut self, unique: &str)
        ensures
            final(self).config == old(self).config,
            final(self).channel_id@ == channel_name(unique@),
            final(self).next_id == FIRST_MESSAGE_ID,
            !final(self).connected,
    {
        let mut channel_id = "loraurbit-".to_owned();
        channel_id.append(unique);
        self.channel_id = channel_id;
        self.next_id = FIRST_MESSAGE_ID;
        self.connected = false;
    }

    /// Binds the client to a new channel of its own: not logged in, and the
    /// identifiers start over.
    pub fn rebind(&mut self)
        ensures
            final(self).config == old(self).config,
            exists|unique: Seq<char>| final(self).channel_id@ == channel_name(unique),
            final(self).next_id == FIRST_MESSAGE_ID,
            !final(self).connected,
    {
        let unique = fresh_uuid();
        self.rebind_to(unique.as_str());
    }

    /// Takes in the answer of the host to the poke that was repeated after a
    /// rebind: a success or a failure, and no third try.
    pub fn retry_answered(&self, status: u16) -> (result: Result<(), AirlockError>)
        ensures
            is_success(status) ==> result.is_ok(),
            !is_success(status) ==> result == Err::<(), AirlockError>(
                AirlockError::Rejected { status },
            ),
    {
        if 200 <= status && status < 300 {
            Ok(())
        } else {
            Err(AirlockError::Rejected { status })
        }
    }

    /// Ends the session. Where the client was logged in, the channel is to be
    /// deleted under the identifier that comes back, if one is left; a client
    /// that was not logged in has nothing to delete.
    pub fn disconnect(&mut self) -> (delete_id: Option<u64>)
        ensures
            final(self).config == old(self).config,
            final(self).channel_id == old(self).channel_id,
            !final(self).connected,
            !old(self).connected ==> delete_id.is_none() && final(self).next_id == old(self).next_id,
            old(self).connected && old(self).next_id < u64::MAX ==> delete_id == Some(
                old(self).next_id,
            ) && final(self).next_id == old(self).next_id + 1,
            old(self).connected && old(self).next_id == u64::MAX ==> delete_id.is_none(),
    {
        if !self.connected {
            return None;
        }
        let delete_id = self.take_id();
        self.connected = false;
        delete_id
    }

    /// How often to try to connect again after a request has failed: three
    /// times where the client has lost its login, and not at all where it
    /// still has it.
    pub fn recovery_attempts(&self) -> (attempts: Option<u32>)
        ensures
            attempts == if self.connected {
                None::<u32>
            } else {
                Some(RECONNECT_RETRIES)
            },
    {
        if self.connected {
            None
        } else {
            Some(RECONNECT_RETRIES)
        }
    }
}

} // verus!
