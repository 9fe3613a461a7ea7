use vstd::prelude::*;
use vstd::string::{StringExecFns, StringSliceAdditionalSpecFns};
use vstd::utf8::{decode_utf8, encode_utf8, encode_utf8_decode_utf8, is_char_boundary};
use crate::bindings::clock::{utc_now_seconds, LAST_INSTANT};
use crate::entity::tokens::MAX_SPAN_MINUTES;
use crate::utils::text::{opt_text, same_text};

verus! {

/// Longest user agent, in bytes, that is shown in full.
pub const USER_AGENT_LIMIT: usize = 200;

/// Bytes kept of a user agent that is over the limit, before the dots.
pub const USER_AGENT_KEPT: usize = 197;

/// A browser session of a user.
#[derive(Debug)]
pub struct Model {
    pub id: u128,
    pub user_id: u128,
    pub session_token: String,
    pub ip_address: Option<String>,
    pub user_agent: Option<String>,
    pub expires_at: i64,
    pub is_active: bool,
    pub created_at: i64,
    pub updated_at: i64,
}

/// `seconds` in whole minutes, rounded towards zero.
pub open spec fn whole_minutes(seconds: int) -> int {
    if seconds >= 0 {
        seconds / 60
    } else {
        -((-seconds) / 60)
    }
}

impl Model {
    /// The session has expired at `now`: its expiry lies in the past.
    pub open spec fn expired_at(&self, now: i64) -> bool {
        now > self.expires_at
    }

    /// The session can still be used at `now`.
    pub open spec fn valid_at(&self, now: i64) -> bool {
        self.is_active && !self.expired_at(now)
    }

    /// Seconds for which the session can still be used at `now`.
    pub open spec fn remaining_at(&self, now: i64) -> int {
        if self.expired_at(now) || !self.is_active {
            0
        } else {
            self.expires_at - now
        }
    }

    /// The session expires no later than `minutes` after `now`.
    pub open spec fn expires_within(&self, now: i64, minutes: i64) -> bool {
        self.expires_at <= now + minutes * 60
    }

    /// Whole minutes from the creation of the session to `now`.
    pub open spec fn age_at(&self, now: i64) -> int {
        whole_minutes(now - self.created_at)
    }

    /// The user agent as it is shown: in full up to the limit, else its
    /// first bytes followed by three dots.
    pub open spec fn shown_user_agent(&self) -> Option<Seq<char>> {
        match self.user_agent {
            Some(agent) => if encode_utf8(agent@).len() > USER_AGENT_LIMIT {
                Some(
                    decode_utf8(encode_utf8(agent@).subrange(0, USER_AGENT_KEPT as int))
                        + "..."@,
                )
            } else {
                Some(agent@)
            },
            None => None,
        }
    }

    /// Whether the session has expired at `now`.
    pub fn is_expired_at(&self, now: i64) -> (r: bool)
        ensures
            r == self.expired_at(now),
    {
        now > self.expires_at
    }

    /// Check if the session is expired, by the system clock.
    pub fn is_expired(&self) -> (r: bool)
        ensures
            exists|now: i64| 0 <= now <= LAST_INSTANT && r == self.expired_at(now),
    {
        let now: i64 = utc_now_seconds();
        self.is_expired_at(now)
    }

    /// Whether the session is active and not expired at `now`.
    pub fn is_valid_at(&self, now: i64) -> (r: bool)
        ensures
            r == self.valid_at(now),
    {
        self.is_active && !self.is_expired_at(now)
    }

    /// Check if the session is valid (active and not expired), by the
    /// system clock.
    pub fn is_valid(&self) -> (r: bool)
        ensures
            exists|now: i64| 0 <= now <= LAST_INSTANT && r == self.valid_at(now),
            !self.is_active ==> !r,
    {
        let now: i64 = utc_now_seconds();
        self.is_valid_at(now)
    }

    /// Seconds of validity left at `now`.
    pub fn remaining_validity_seconds_at(&self, now: i64) -> (r: i64)
        requires
            0 <= now,
        ensures
            r == self.remaining_at(now),
    {
        if self.is_expired_at(now) || !self.is_active {
            0
        } else {
            self.expires_at - now
        }
    }

    /// Get remaining validity time in seconds, by the system clock.
    pub fn remaining_validity_seconds(&self) -> (r: i64)
        ensures
            exists|now: i64| 0 <= now <= LAST_INSTANT && r == self.remaining_at(now),
            !self.is_active ==> r == 0,
            r >= 0,
    {
        let now: i64 = utc_now_seconds();
        self.remaining_validity_seconds_at(now)
    }

    /// Whether the session expires within `minutes` of `now`.
    pub fn expires_within_minutes_at(&self, now: i64, minutes: i64) -> (r: bool)
        requires
            0 <= now <= LAST_INSTANT,
            -MAX_SPAN_MINUTES <= minutes <= MAX_SPAN_MINUTES,
        ensures
            r == self.expires_within(now, minutes),
    {
        let threshold: i64 = now + minutes * 60;
        self.expires_at <= threshold
    }

    /// Check if session will expire within given minutes, by the system
    /// clock.
    pub fn expires_within_minutes(&self, minutes: i64) -> (r: bool)
        requires
            -MAX_SPAN_MINUTES <= minutes <= MAX_SPAN_MINUTES,
        ensures
            exists|now: i64| 0 <= now <= LAST_INSTANT && r == self.expires_within(now, minutes),
    {
        let now: i64 = utc_now_seconds();
        self.expires_within_minutes_at(now, minutes)
    }

    /// Get a safe representation of user agent (truncated if too long).
    ///
    /// A user agent over the limit is cut after a fixed number of bytes,
    /// which must not fall inside a character.
    pub fn safe_user_agent(&self) -> (r: Option<String>)
        requires
            self.user_agent matches Some(agent) ==> (encode_utf8(agent@).len()
                > USER_AGENT_LIMIT ==> is_char_boundary(
                encode_utf8(agent@),
                USER_AGENT_KEPT as int,
            )),
        ensures
            opt_text(r) == self.shown_user_agent(),
    {
        match &self.user_agent {
            Some(agent) => {
                if agent.as_str().as_bytes().len() > USER_AGENT_LIMIT {
                    let (head, _tail) = agent.as_str().split_at(USER_AGENT_KEPT);
                    let shown = String::from_str(head).concat("...");
                    proof {
                        let kept = encode_utf8(agent@).subrange(0, USER_AGENT_KEPT as int);
                        encode_utf8_decode_utf8(head@);
                        assert(head.spec_bytes() == kept);
                        assert(encode_utf8(head@) == kept);
                        assert(decode_utf8(kept) == head@);
                        assert(shown@ == decode_utf8(kept) + "..."@);
                    }
                    Some(shown)
                } else {
                    Some(agent.clone())
                }
            },
            None => None,
        }
    }

    /// Check if the session was created from the same IP.
    pub fn is_same_ip(&self, ip: &str) -> (r: bool)
        ensures
            r == (opt_text(self.ip_address) == Some(ip@)),
    {
        match &self.ip_address {
            Some(session_ip) => same_text(session_ip.as_str(), ip),
            None => false,
        }
    }

    /// Whole minutes from the creation of the session to `now`.
    pub fn duration_minutes_at(&self, now: i64) -> (r: i64)
        requires
            0 <= now <= LAST_INSTANT,
            self.created_at >= LAST_INSTANT - i64::MAX,
        ensures
            r == self.age_at(now),
    {
        let elapsed: i64 = now - self.created_at;
        if elapsed >= 0 {
            elapsed / 60
        } else {
            -((-elapsed) / 60)
        }
    }

    /// Get session duration in minutes since creation, by the system clock.
    pub fn duration_minutes(&self) -> (r: i64)
        requires
            self.created_at >= LAST_INSTANT - i64::MAX,
        ensures
            exists|now: i64| 0 <= now <= LAST_INSTANT && r == self.age_at(now),
    {
        let now: i64 = utc_now_seconds();
        self.duration_minutes_at(now)
    }
}

} // verus!
