use vstd::prelude::*;
use vstd::string::*;
use crate::offset::{instant_of_wall, UtcOffset};
use crate::post::{Post, Status};

verus! {

/// Why a client request was refused.
#[derive(Clone, Copy, Debug, PartialEq, Eq, Structural)]
pub enum RequestError {
    /// A date or time that does not parse, or whose instant leaves the range
    /// of `i64` milliseconds.
    BadDate,
    /// A status other than `pending` and `published`.
    BadStatus,
    /// An identifier that is not 24 hexadecimal digits.
    BadId,
}

/// The wall clock, in milliseconds on the UTC scale, that chrono reads from
/// `text` in the strftime-style `format`.
pub uninterp spec fn naive_millis(text: Seq<char>, format: Seq<char>) -> Option<i64>;

/// Relies on chrono's `NaiveDateTime::parse_from_str`, taken as milliseconds
/// on the UTC scale by `and_utc().timestamp_millis()`: the result depends on
/// the two texts alone.
#[verifier::external_body]
fn parse_wall_clock(text: &str, format: &str) -> (r: Option<i64>)
    ensures
        r == naive_millis(text@, format@),
{
    chrono::NaiveDateTime::parse_from_str(text, format).ok().map(|t| t.and_utc().timestamp_millis())
}

/// The instant that a local wall-clock text shows at an offset, read in
/// `format`.
pub open spec fn instant_of_text(text: Seq<char>, format: Seq<char>, offset_seconds: int) -> Option<i64> {
    match naive_millis(text, format) {
        Some(wall) => instant_of_wall(wall as int, offset_seconds),
        None => None,
    }
}

/// The instant that a schedule text `YYYY-MM-DD HH:MM`, local to `offset`,
/// stands for, in milliseconds since the epoch.
pub fn schedule_instant(text: &str, offset: &UtcOffset) -> (r: Option<i64>)
    requires
        offset.wf(),
    ensures
        r == instant_of_text(text@, "%Y-%m-%d %H:%M"@, offset.spec_seconds()),
{
    match parse_wall_clock(text, "%Y-%m-%d %H:%M") {
        Some(wall) => offset.to_instant(wall),
        None => None,
    }
}

/// The status that a request names; `pending` when it names none.
pub open spec fn requested_status(name: Option<Seq<char>>) -> Option<Status> {
    match name {
        None => Some(Status::Pending),
        Some(n) => if n == "pending"@ {
            Some(Status::Pending)
        } else if n == "published"@ {
            Some(Status::Published)
        } else {
            None
        },
    }
}

pub open spec fn opt_view(s: Option<&str>) -> Option<Seq<char>> {
    match s {
        Some(t) => Some(t@),
        None => None,
    }
}

/// The post that a schedule or update request describes: its time is read as
/// `YYYY-MM-DD HH:MM` local to `offset` and stored as an instant; its status
/// defaults to `pending`.
pub fn prepare_post(
    title: String,
    content: String,
    scheduled_time: &str,
    status: Option<&str>,
    offset: &UtcOffset,
) -> (r: Result<Post, RequestError>)
    requires
        offset.wf(),
    ensures
        match instant_of_text(scheduled_time@, "%Y-%m-%d %H:%M"@, offset.spec_seconds()) {
            None => r == Err::<Post, RequestError>(RequestError::BadDate),
            Some(t) => match requested_status(opt_view(status)) {
                None => r == Err::<Post, RequestError>(RequestError::BadStatus),
                Some(st) => r == Ok::<Post, RequestError>(
                    Post { title, content, scheduled_time: t, status: st },
                ),
            },
        },
{
    let instant = match schedule_instant(scheduled_time, offset) {
        Some(t) => t,
        None => {
            return Err(RequestError::BadDate);
        },
    };
    let st = match status {
        None => Status::Pending,
        Some(name) => match Status::parse(name) {
            Some(st) => st,
            None => {
                return Err(RequestError::BadStatus);
            },
        },
    };
    Ok(Post { title, content, scheduled_time: instant, status: st })
}

/// The instants `[start, end]` that a query from `start_date` to `end_date`
/// (both `YYYY-MM-DD`) covers: from `00:00:00` of the first day to `23:59:59`
/// of the last, local to `offset`.
pub open spec fn window_of(start_date: Seq<char>, end_date: Seq<char>, offset_seconds: int) -> Option<(i64, i64)> {
    let start = instant_of_text(start_date + " 00:00:00"@, "%Y-%m-%d %H:%M:%S"@, offset_seconds);
    let end = instant_of_text(end_date + " 23:59:59"@, "%Y-%m-%d %H:%M:%S"@, offset_seconds);
    match (start, end) {
        (Some(s), Some(e)) => Some((s, e)),
        _ => None,
    }
}

/// The instant at a given time of day of a local date.
fn instant_at(date: &str, time_of_day: &str, offset: &UtcOffset) -> (r: Option<i64>)
    requires
        offset.wf(),
    ensures
        r == instant_of_text(date@ + time_of_day@, "%Y-%m-%d %H:%M:%S"@, offset.spec_seconds()),
{
    let mut text = String::from_str(date);
    text.append(time_of_day);
    match parse_wall_clock(text.as_str(), "%Y-%m-%d %H:%M:%S") {
        Some(wall) => offset.to_instant(wall),
        None => None,
    }
}

/// The inclusive range of instants that a date-range query covers; see
/// `window_of`.
pub fn query_window(start_date: &str, end_date: &str, offset: &UtcOffset) -> (r: Result<(i64, i64), RequestError>)
    requires
        offset.wf(),
    ensures
        match window_of(start_date@, end_date@, offset.spec_seconds()) {
            Some(w) => r == Ok::<(i64, i64), RequestError>(w),
            None => r == Err::<(i64, i64), RequestError>(RequestError::BadDate),
        },
{
    let start = instant_at(start_date, " 00:00:00", offset);
    let end = instant_at(end_date, " 23:59:59", offset);
    match (start, end) {
        (Some(s), Some(e)) => Ok((s, e)),
        _ => Err(RequestError::BadDate),
    }
}

/// The value of a hexadecimal digit, either case.
pub open spec fn hex_value(c: char) -> Option<int> {
    if '0' <= c <= '9' {
        Some(c as int - '0' as int)
    } else if 'a' <= c <= 'f' {
        Some(c as int - 'a' as int + 10)
    } else if 'A' <= c <= 'F' {
        Some(c as int - 'A' as int + 10)
    } else {
        None
    }
}

/// Whether `s` spells a document identifier: 24 hexadecimal digits.
pub open spec fn is_id_text(s: Seq<char>) -> bool {
    s.len() == 24 && forall|i: int| 0 <= i < 24 ==> (#[trigger] hex_value(s[i])) is Some
}

/// The byte that digits `2i` and `2i + 1` of an identifier text spell.
pub open spec fn id_byte(s: Seq<char>, i: int) -> int {
    hex_value(s[2 * i]).unwrap() * 16 + hex_value(s[2 * i + 1]).unwrap()
}

/// Relies on bson's `ObjectId::parse_str`, which decodes the text with
/// `hex::decode` (digits of either case, two per byte) and accepts exactly
/// twelve bytes.
#[verifier::external_body]
fn object_id_bytes(text: &str) -> (r: Option<[u8; 12]>)
    ensures
        r is Some <==> is_id_text(text@),
        r matches Some(b) ==> forall|i: int| 0 <= i < 12 ==> #[trigger] b@[i] == id_byte(text@, i),
{
    bson::oid::ObjectId::parse_str(text).ok().map(|o| o.bytes())
}

/// The twelve bytes of the document identifier that `text` spells.
pub fn parse_post_id(text: &str) -> (r: Result<[u8; 12], RequestError>)
    ensures
        r is Err <==> !is_id_text(text@),
        r is Err ==> r == Err::<[u8; 12], RequestError>(RequestError::BadId),
        r matches Ok(b) ==> forall|i: int| 0 <= i < 12 ==> #[trigger] b@[i] == id_byte(text@, i),
{
    match object_id_bytes(text) {
        Some(b) => Ok(b),
        None => Err(RequestError::BadId),
    }
}

/// The answer to an update request.
#[derive(Clone, Copy, Debug, PartialEq, Eq, Structural)]
pub enum UpdateReply {
    Updated,
    /// No pending post has that identifier: it does not exist, or it is
    /// already published and so may no longer be edited.
    NotFound,
    Failed,
}

/// The answer to an update, from the count of records that the store matched
/// (`None` when the store failed).
pub fn update_reply(matched: Option<u64>) -> (r: UpdateReply)
    ensures
        r == (match matched {
            None => UpdateReply::Failed,
            Some(n) => if n > 0 { UpdateReply::Updated } else { UpdateReply::NotFound },
        }),
{
    match matched {
        None => UpdateReply::Failed,
        Some(n) => if n > 0 { UpdateReply::Updated } else { UpdateReply::NotFound },
    }
}

impl UpdateReply {
    /// The HTTP status code of the answer.
    pub fn status_code(&self) -> (r: u16)
        ensures
            r == (match *self {
                UpdateReply::Updated => 200u16,
                UpdateReply::NotFound => 404u16,
                UpdateReply::Failed => 500u16,
            }),
    {
        match self {
            UpdateReply::Updated => 200,
            UpdateReply::NotFound => 404,
            UpdateReply::Failed => 500,
        }
    }
}

} // verus!
