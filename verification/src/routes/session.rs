//! The session endpoints: what a session reports about itself, and a visit
//! counter kept in a cookie.

use vstd::prelude::*;

use crate::codec::{decimal_text, i64_to_text, parse_i32, parse_i32_spec};
use crate::session::Session;
use vstd::string::StringExecFns;

verus! {

/// What a session reports about itself.
#[derive(Debug)]
pub struct SessionInfoDto {
    /// The account name.
    pub account: String,
    /// The nickname, if any.
    pub nickname: Option<String>,
    /// The codes of the session's permissions.
    pub permissions: Vec<String>,
}

/// The report of a session: its user's account and nickname and the codes
/// of its permissions.
pub fn session_info(account: String, nickname: Option<String>, session: Session) -> (res: SessionInfoDto)
    ensures
        res.account == account,
        res.nickname == nickname,
        res.permissions == session.payload.permissions,
{
    SessionInfoDto { account, nickname, permissions: session.payload.permissions }
}

/// What the visit counter answers.
#[derive(Debug)]
pub enum VisitOutcome {
    /// More than ten visits: the counter cookie is removed and the request is
    /// refused with the code `unknown` and status 200.
    Reset,
    /// The counter cookie is set to the next count and the message is sent.
    Counted {
        /// The new value of the `visited` cookie.
        next_cookie: String,
        /// The message for the client.
        message: String,
    },
}

/// The count in a `visited` cookie: its value read as an `i32`, and 0 when
/// the cookie is missing or does not hold one.
pub open spec fn visits_so_far(cookie: Option<Seq<char>>) -> i32 {
    match cookie {
        Some(v) => match parse_i32_spec(v) {
            Some(n) => n,
            None => 0,
        },
        None => 0,
    }
}

/// Counts a visit: reads the count in the `visited` cookie, resets after more
/// than ten visits, and otherwise reports the count and sets the next one.
pub fn visit_counter(visited_cookie: Option<&str>) -> (res: VisitOutcome)
    ensures
        ({
            let visited = visits_so_far(
                match visited_cookie {
                    Some(c) => Some(c@),
                    None => None,
                },
            );
            if visited > 10 {
                res is Reset
            } else {
                res matches VisitOutcome::Counted { next_cookie, message } && next_cookie@
                    == decimal_text(visited + 1) && message@ == "You've been here "@
                    + decimal_text(visited as int) + " times before"@
            }
        }),
{
    let visited: i32 = match visited_cookie {
        Some(v) => match parse_i32(v) {
            Some(n) => n,
            None => 0,
        },
        None => 0,
    };
    if visited > 10 {
        VisitOutcome::Reset
    } else {
        let next_cookie = i64_to_text((visited + 1) as i64);
        let count = i64_to_text(visited as i64);
        let mut message = String::new();
        message.append("You've been here ");
        message.append(count.as_str());
        message.append(" times before");
        VisitOutcome::Counted { next_cookie, message }
    }
}

} // verus!
