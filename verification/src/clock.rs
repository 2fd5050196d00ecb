//! Time: the clock of the machine and the calendar text of a moment.

use vstd::prelude::*;

verus! {

/// Two digits, a colon, two digits, a colon, two digits.
pub open spec fn is_clock(s: Seq<char>) -> bool {
    &&& s.len() == 8
    &&& s[2] == ':' && s[5] == ':'
    &&& forall|i: int|
        0 <= i < 8 && i != 2 && i != 5 ==> '0' as u32 <= (#[trigger] s[i]) as u32 <= '9' as u32
}

/// `chrono::Local::now` rendered by `%H:%M:%S`: the hour, the minute and the
/// second, each padded to two digits. Which moment it is, is left open.
#[verifier::external_body]
pub(crate) fn wall_clock() -> (r: String)
    ensures
        is_clock(r@),
{
    chrono::Local::now().format("%H:%M:%S").to_string()
}

/// What `chrono::DateTime::<Utc>::format` renders for the moment `secs`
/// seconds after the Unix epoch; `None` for a moment outside its calendar.
pub uninterp spec fn utc_text(secs: i64, pattern: Seq<char>) -> Option<Seq<char>>;

/// `chrono::DateTime::from_timestamp` and `format`: the calendar text of a
/// moment in UTC, a function of the moment and the pattern alone.
#[verifier::external_body]
pub(crate) fn format_utc(secs: i64, pattern: &str) -> (r: Option<String>)
    requires
        pattern@ == "%Y-%m-%d"@ || pattern@ == "%Y-%m-%d %H:%M"@,
    ensures
        crate::text::opt_view(r) == utc_text(secs, pattern@),
{
    chrono::DateTime::from_timestamp(secs, 0).map(|d| d.format(pattern).to_string())
}

/// `chrono::Utc::now` in seconds after the Unix epoch; any moment may come.
#[verifier::external_body]
pub(crate) fn unix_now() -> i64 {
    chrono::Utc::now().timestamp()
}

/// The calendar day of a moment; empty for a moment outside the calendar.
pub open spec fn day_view(secs: i64) -> Seq<char> {
    match utc_text(secs, "%Y-%m-%d"@) {
        Some(t) => t,
        None => Seq::empty(),
    }
}

/// The calendar day of a moment; empty for a moment outside the calendar.
pub fn day_text(secs: i64) -> (r: String)
    ensures
        r@ == day_view(secs),
{
    match format_utc(secs, "%Y-%m-%d") {
        Some(t) => t,
        None => String::new(),
    }
}

/// The calendar day and minute of a moment; empty outside the calendar.
pub open spec fn minute_view(secs: i64) -> Seq<char> {
    match utc_text(secs, "%Y-%m-%d %H:%M"@) {
        Some(t) => t,
        None => Seq::empty(),
    }
}

/// The calendar day and minute of a moment; empty outside the calendar.
pub fn minute_text(secs: i64) -> (r: String)
    ensures
        r@ == minute_view(secs),
{
    match format_utc(secs, "%Y-%m-%d %H:%M") {
        Some(t) => t,
        None => String::new(),
    }
}

/// The shape of a version-4 UUID in its hyphenated form.
pub open spec fn is_uuid_text(s: Seq<char>) -> bool {
    s.len() == 36 && s[8] == '-' && s[13] == '-' && s[14] == '4' && s[18] == '-' && s[23] == '-'
}

/// `uuid::Uuid::new_v4` in its hyphenated form. Which one comes is chance;
/// that two differ is not claimed.
#[verifier::external_body]
pub(crate) fn random_uuid() -> (r: String)
    ensures
        is_uuid_text(r@),
{
    uuid::Uuid::new_v4().to_string()
}

/// `uuid::Uuid::new_v4` as a number. Which one comes is chance; nothing is
/// claimed of it.
#[verifier::external_body]
pub(crate) fn random_id() -> (r: u128) {
    uuid::Uuid::new_v4().as_u128()
}

// ---------------------------------------------------------------------------
// Readings and draws
// ---------------------------------------------------------------------------

/// The clock of the machine gave this reading, in seconds after the Unix epoch:
/// it is what a call of `unix_now` returned.
pub closed spec fn clock_read(t: i64) -> bool {
    call_ensures(unix_now, (), t)
}

/// What a call of `unix_now` returned is a reading of the clock.
pub(crate) broadcast proof fn lemma_call_reads_clock(t: i64)
    requires
        #[trigger] call_ensures(unix_now, (), t),
    ensures
        clock_read(t),
{
}

/// Reads the clock of the machine, in seconds after the Unix epoch.
pub fn read_clock() -> (t: i64)
    ensures
        clock_read(t),
{
    unix_now()
}

/// The clock of the machine showed this time of day: it is what a call of
/// `wall_clock` returned.
pub closed spec fn clock_shown(s: Seq<char>) -> bool {
    exists|t: String| #[trigger] call_ensures(wall_clock, (), t) && t@ == s
}

/// The time of day that the clock of the machine shows.
pub fn time_of_day() -> (r: String)
    ensures
        is_clock(r@),
        clock_shown(r@),
{
    wall_clock()
}

/// This UUID was drawn: it is what a call of `random_uuid` returned.
pub closed spec fn uuid_drawn(s: Seq<char>) -> bool {
    exists|u: String| #[trigger] call_ensures(random_uuid, (), u) && u@ == s
}

/// Draws a UUID.
pub fn draw_uuid() -> (r: String)
    ensures
        is_uuid_text(r@),
        uuid_drawn(r@),
{
    random_uuid()
}

/// This number was drawn: it is what a call of `random_id` returned.
pub closed spec fn id_drawn(n: u128) -> bool {
    call_ensures(random_id, (), n)
}

/// Draws a number.
pub fn draw_id() -> (r: u128)
    ensures
        id_drawn(r),
{
    random_id()
}

/// A reading, a time of day, a UUID or a number that counts as the machine's is
/// what a call of the outside function returned, and nothing else is.
proof fn lemma_only_calls_count(t: i64, clock: Seq<char>, uuid: Seq<char>, n: u128)
    ensures
        clock_read(t) ==> call_ensures(unix_now, (), t),
        id_drawn(n) ==> call_ensures(random_id, (), n),
        clock_shown(clock) ==> exists|s: String| #[trigger]
            call_ensures(wall_clock, (), s) && s@ == clock,
        uuid_drawn(uuid) ==> exists|s: String| #[trigger]
            call_ensures(random_uuid, (), s) && s@ == uuid,
{
}

/// A time of day that the clock showed has the form of one, and a UUID that was
/// drawn has the form of one.
pub proof fn law_outcomes_have_their_form(clock: Seq<char>, uuid: Seq<char>)
    ensures
        clock_shown(clock) ==> is_clock(clock),
        uuid_drawn(uuid) ==> is_uuid_text(uuid),
{
}

} // verus!
