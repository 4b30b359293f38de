//! Query parameters and the builder that validates them.
use vstd::prelude::*;

use crate::apod::ApodError;
use crate::date::{is_valid_ymd, four_digits, is_iso_date, lemma_iso_round_trip, two_digits, ApodDate};
use crate::json::{field, is_absent, str_field, JsonObject, JsonScalar, ObjectView, ScalarView};

verus! {

/// The parameters of one request. At most one of `date`, the pair
/// `start_date`/`end_date`, and `count` is set.
#[derive(Clone, Copy, Debug, PartialEq, Eq, Structural, Default)]
pub struct ApodParams {
    pub date: Option<ApodDate>,
    pub start_date: Option<ApodDate>,
    pub end_date: Option<ApodDate>,
    pub count: Option<u8>,
    pub thumbs: bool,
}

/// How a request selects its pictures.
#[derive(Clone, Copy, Debug, PartialEq, Eq, Structural)]
pub enum ApodRange {
    Count(u8),
    DateRange { start_date: ApodDate, end_date: ApodDate },
    Date(ApodDate),
}

/// Collects the parameters of a request; `build` checks them.
#[derive(Debug)]
pub struct ApodParamsBuilder {
    thumbs: bool,
    range: Option<ApodRange>,
}

pub struct BuilderView {
    pub thumbs: bool,
    pub mode: Option<ApodRange>,
}

impl View for ApodParamsBuilder {
    type V = BuilderView;

    closed spec fn view(&self) -> BuilderView {
        BuilderView { thumbs: self.thumbs, mode: self.range }
    }
}

pub open spec fn opt_date_wf(d: Option<ApodDate>) -> bool {
    d matches Some(x) ==> x.wf()
}

pub open spec fn mode_wf(mode: Option<ApodRange>) -> bool {
    match mode {
        Some(ApodRange::Date(d)) => d.wf(),
        Some(ApodRange::DateRange { start_date, end_date }) => start_date.wf() && end_date.wf(),
        _ => true,
    }
}

/// The first day the service has a picture for.
pub open spec fn launch_date() -> ApodDate {
    ApodDate { year: 1995, month: 6, day: 16 }
}

/// The reason a single date is rejected. Its last day is a fixed text, while
/// the check itself is against the day of the build; callers match on the
/// text as it stands, so it is kept.
pub open spec fn date_bounds_message() -> Seq<char> {
    "Date must be between Jun 16, 1995 and Dec 12, 2025."@
}

pub open spec fn range_order_message() -> Seq<char> {
    "Start date cannot be greater than end date"@
}

pub open spec fn current_date_message() -> Seq<char> {
    "The current date is out of range"@
}

/// Whether the outcome of a build depends on the day it runs.
pub open spec fn uses_today(mode: Option<ApodRange>) -> bool {
    mode is None || mode matches Some(ApodRange::Date(_))
}

/// Parameters with the given fields.
pub open spec fn params_of(
    date: Option<ApodDate>,
    start_date: Option<ApodDate>,
    end_date: Option<ApodDate>,
    count: Option<u8>,
    thumbs: bool,
) -> ApodParams {
    ApodParams { date, start_date, end_date, count, thumbs }
}

/// The parameters that a builder in state `b` yields on day `today`, or
/// `None` where it rejects them.
pub open spec fn built(b: BuilderView, today: ApodDate) -> Option<ApodParams> {
    match b.mode {
        None => Some(params_of(Some(today), None, None, None, b.thumbs)),
        Some(ApodRange::Count(n)) => Some(params_of(None, None, None, Some(n), b.thumbs)),
        Some(ApodRange::Date(d)) => if launch_date().spec_le(d) && d.spec_le(today) {
            Some(params_of(Some(d), None, None, None, b.thumbs))
        } else {
            None
        },
        Some(ApodRange::DateRange { start_date, end_date }) => if start_date.spec_le(end_date) {
            Some(params_of(None, Some(start_date), Some(end_date), None, b.thumbs))
        } else {
            None
        },
    }
}

/// The reason given when a builder in state `b` is rejected.
pub open spec fn rejection_message(b: BuilderView) -> Seq<char> {
    match b.mode {
        Some(ApodRange::DateRange { .. }) => range_order_message(),
        _ => date_bounds_message(),
    }
}

/// `r` is what a build of `b` on day `today` must return.
pub open spec fn build_outcome(
    r: Result<ApodParams, ApodError>,
    b: BuilderView,
    today: ApodDate,
) -> bool {
    match built(b, today) {
        Some(p) => r == Ok::<ApodParams, ApodError>(p),
        None => r matches Err(ApodError::ApodParamsError(m)) && m@ == rejection_message(b),
    }
}

impl ApodParams {
    pub open spec fn wf(self) -> bool {
        opt_date_wf(self.date) && opt_date_wf(self.start_date) && opt_date_wf(self.end_date)
    }

    /// A builder with thumbnails off and no selection.
    pub fn builder() -> (r: ApodParamsBuilder)
        ensures
            r@.thumbs == false,
            r@.mode is None,
    {
        ApodParamsBuilder { thumbs: false, range: None }
    }
}

impl ApodParamsBuilder {
    /// Every date a builder holds is a calendar day.
    #[verifier::type_invariant]
    spec fn inv(&self) -> bool {
        mode_wf(self.range)
    }

    /// Asks for thumbnails of videos or not; leaves the selection alone.
    pub fn thumbs(self, thumbs: bool) -> (r: Self)
        ensures
            r@.thumbs == thumbs,
            r@.mode == self@.mode,
    {
        proof {
            use_type_invariant(&self);
        }
        ApodParamsBuilder { thumbs, range: self.range }
    }

    /// Selects the given number of random pictures, replacing any earlier selection.
    pub fn count(self, count: u8) -> (r: Self)
        ensures
            r@.thumbs == self@.thumbs,
            r@.mode == Some(ApodRange::Count(count)),
    {
        ApodParamsBuilder { thumbs: self.thumbs, range: Some(ApodRange::Count(count)) }
    }

    /// Selects the picture of one day, replacing any earlier selection.
    pub fn date(self, date: ApodDate) -> (r: Self)
        requires
            date.wf(),
        ensures
            r@.thumbs == self@.thumbs,
            r@.mode == Some(ApodRange::Date(date)),
    {
        ApodParamsBuilder { thumbs: self.thumbs, range: Some(ApodRange::Date(date)) }
    }

    /// Selects the pictures of a span of days, replacing any earlier selection.
    pub fn date_range(self, start_date: ApodDate, end_date: ApodDate) -> (r: Self)
        requires
            start_date.wf(),
            end_date.wf(),
        ensures
            r@.thumbs == self@.thumbs,
            r@.mode == Some(ApodRange::DateRange { start_date, end_date }),
    {
        ApodParamsBuilder {
            thumbs: self.thumbs,
            range: Some(ApodRange::DateRange { start_date, end_date }),
        }
    }

    /// Checks the selection against the given current day and yields the parameters.
    pub fn build_on(self, today: ApodDate) -> (r: Result<ApodParams, ApodError>)
        ensures
            build_outcome(r, self@, today),
            r matches Ok(p) ==> (today.wf() ==> p.wf()),
    {
        proof {
            use_type_invariant(&self);
        }
        let thumbs = self.thumbs;
        match self.range {
            None => Ok(ApodParams { date: Some(today), start_date: None, end_date: None, count: None, thumbs }),
            Some(ApodRange::Count(count)) => Ok(
                ApodParams { date: None, start_date: None, end_date: None, count: Some(count), thumbs },
            ),
            Some(ApodRange::Date(date)) => {
                let launch = ApodDate { year: 1995, month: 6, day: 16 };
                if !launch.le(&date) || !date.le(&today) {
                    return Err(
                        ApodError::ApodParamsError(
                            String::from_str("Date must be between Jun 16, 1995 and Dec 12, 2025."),
                        ),
                    );
                }
                Ok(ApodParams { date: Some(date), start_date: None, end_date: None, count: None, thumbs })
            },
            Some(ApodRange::DateRange { start_date, end_date }) => {
                if !start_date.le(&end_date) {
                    return Err(
                        ApodError::ApodParamsError(
                            String::from_str("Start date cannot be greater than end date"),
                        ),
                    );
                }
                Ok(
                    ApodParams {
                        date: None,
                        start_date: Some(start_date),
                        end_date: Some(end_date),
                        count: None,
                        thumbs,
                    },
                )
            },
        }
    }

    /// Checks the selection against today's date in UTC and yields the parameters.
    pub fn build(self) -> (r: Result<ApodParams, ApodError>)
        ensures
            !uses_today(self@.mode) ==> forall|t: ApodDate| #[trigger] build_outcome(r, self@, t),
            uses_today(self@.mode) ==> exists|after: bool, secs: u64, nanos: u32|
                nanos < 1_000_000_000 && #[trigger] clock_outcome(r, self@, after, secs, nanos),
            r matches Ok(p) ==> p.wf(),
    {
        let ghost b = self@;
        match self.range {
            None | Some(ApodRange::Date(_)) => {
                let (after, secs, nanos) = clock_since_epoch();
                let r = match day_from_clock(after, secs, nanos) {
                    Some(today) => self.build_on(today),
                    None => Err(
                        ApodError::ApodParamsError(String::from_str("The current date is out of range")),
                    ),
                };
                assert(clock_outcome(r, b, after, secs, nanos));
                r
            },
            _ => {
                let r = self.build_on(ApodDate { year: 1995, month: 6, day: 16 });
                assert forall|t: ApodDate| #[trigger] build_outcome(r, b, t) by {
                    assert(built(b, t) == built(b, launch_date()));
                }
                r
            },
        }
    }
}

#[verifier::external_type_specification]
#[verifier::external_body]
pub struct ExSystemTime(std::time::SystemTime);

#[verifier::external_type_specification]
#[verifier::external_body]
pub struct ExSystemTimeError(std::time::SystemTimeError);

/// Relies on `SystemTime::now`: the system clock's reading.
#[verifier::external_body]
fn system_now() -> std::time::SystemTime {
    std::time::SystemTime::now()
}

/// Relies on `SystemTime::duration_since(UNIX_EPOCH)`: how long after the Unix
/// epoch `t` is, or an error that tells how long before it.
#[verifier::external_body]
fn since_epoch(t: &std::time::SystemTime) -> Result<std::time::Duration, std::time::SystemTimeError> {
    t.duration_since(std::time::UNIX_EPOCH)
}

/// Relies on `SystemTimeError::duration`: how far the later time lay ahead.
#[verifier::external_body]
fn error_duration(e: &std::time::SystemTimeError) -> std::time::Duration {
    e.duration()
}

/// Relies on `Duration::as_secs`: the whole seconds of a duration.
#[verifier::external_body]
fn whole_seconds(d: &std::time::Duration) -> u64 {
    d.as_secs()
}

/// Relies on `Duration::subsec_nanos`: the nanoseconds beyond the whole
/// seconds, always below one billion.
#[verifier::external_body]
fn nanos_beyond(d: &std::time::Duration) -> (r: u32)
    ensures
        r < 1_000_000_000,
{
    d.subsec_nanos()
}

/// The clock's reading: whether it is at or after the Unix epoch, and how far
/// from it, as whole seconds and the nanoseconds beyond them.
fn clock_since_epoch() -> (r: (bool, u64, u32))
    ensures
        r.2 < 1_000_000_000,
{
    let now = system_now();
    match since_epoch(&now) {
        Ok(d) => (true, whole_seconds(&d), nanos_beyond(&d)),
        Err(e) => {
            let d = error_duration(&e);
            (false, whole_seconds(&d), nanos_beyond(&d))
        },
    }
}

/// What chrono makes of a Unix timestamp: the year, month and day of its UTC
/// date, or `None` where the timestamp is out of chrono's range.
pub uninterp spec fn utc_ymd(secs: int) -> Option<(i32, u32, u32)>;

/// Relies on chrono's `DateTime::from_timestamp`, which returns `None` for a
/// timestamp out of its range, and on `date_naive` with the `Datelike`
/// getters: the UTC day of a Unix timestamp, as year, month and day, which
/// depends on the timestamp alone.
#[verifier::external_body]
fn utc_day_of_timestamp(secs: i64) -> (r: Option<(i32, u32, u32)>)
    ensures
        r == utc_ymd(secs as int),
{
    match chrono::DateTime::from_timestamp(secs, 0) {
        Some(t) => Some((
            chrono::Datelike::year(&t.date_naive()),
            chrono::Datelike::month(&t.date_naive()),
            chrono::Datelike::day(&t.date_naive()),
        )),
        None => None,
    }
}

/// The Unix timestamp, in whole seconds rounded down, of a clock that reads
/// `secs` seconds and `nanos` nanoseconds after the epoch (`after`) or before it.
pub open spec fn clock_stamp(after: bool, secs: u64, nanos: u32) -> int {
    if after {
        secs as int
    } else if nanos == 0 {
        -(secs as int)
    } else {
        -(secs as int) - 1
    }
}

/// The UTC day of such a clock reading, where it has a four-digit year.
pub open spec fn day_of_clock(after: bool, secs: u64, nanos: u32) -> Option<ApodDate> {
    if secs >= i64::MAX {
        None
    } else {
        match utc_ymd(clock_stamp(after, secs, nanos)) {
            Some((y, m, d)) => if is_valid_ymd(y as int, m as int, d as int) {
                Some(ApodDate { year: y, month: m, day: d })
            } else {
                None
            },
            None => None,
        }
    }
}

/// The UTC day of a clock reading: `secs` seconds and `nanos` nanoseconds
/// after the Unix epoch where `after` holds, before it otherwise.
pub fn day_from_clock(after: bool, secs: u64, nanos: u32) -> (r: Option<ApodDate>)
    ensures
        r == day_of_clock(after, secs, nanos),
{
    if secs >= 0x7fff_ffff_ffff_ffff {
        return None;
    }
    let whole = secs as i64;
    // Before the epoch a part-second still belongs to the earlier second.
    let stamp: i64 = if after {
        whole
    } else if nanos == 0 {
        -whole
    } else {
        -whole - 1
    };
    match utc_day_of_timestamp(stamp) {
        Some((y, m, d)) => ApodDate::from_ymd_opt(y, m, d),
        None => None,
    }
}

/// Today's date in UTC, where the clock can be read as a date with a
/// four-digit year.
pub fn utc_today() -> (r: Option<ApodDate>)
    ensures
        exists|after: bool, secs: u64, nanos: u32|
            nanos < 1_000_000_000 && r == #[trigger] day_of_clock(after, secs, nanos),
{
    let (after, secs, nanos) = clock_since_epoch();
    day_from_clock(after, secs, nanos)
}

/// `r` is what a build of `b` must return when the clock reads as given.
pub open spec fn clock_outcome(
    r: Result<ApodParams, ApodError>,
    b: BuilderView,
    after: bool,
    secs: u64,
    nanos: u32,
) -> bool {
    match day_of_clock(after, secs, nanos) {
        Some(t) => build_outcome(r, b, t),
        None => r matches Err(ApodError::ApodParamsError(m)) && m@ == current_date_message(),
    }
}

/// `rest` with the member `(key, v)` in front, where there is a value.
pub open spec fn cons_member(key: Seq<char>, v: Option<ScalarView>, rest: ObjectView) -> ObjectView {
    match v {
        Some(x) => seq![(key, x)] + rest,
        None => rest,
    }
}

pub open spec fn date_member(d: Option<ApodDate>) -> Option<ScalarView> {
    match d {
        Some(x) => Some(ScalarView::Str(x.iso())),
        None => None,
    }
}

pub open spec fn count_member(c: Option<u8>) -> Option<ScalarView> {
    match c {
        Some(n) => Some(ScalarView::Number(Some(n as u64))),
        None => None,
    }
}

/// The JSON object of a set of parameters: each set field under its own
/// name, dates as `YYYY-MM-DD`, and `thumbs` always.
pub open spec fn params_json(p: ApodParams) -> ObjectView {
    cons_member("date"@, date_member(p.date), cons_member("start_date"@, date_member(p.start_date),
    cons_member("end_date"@, date_member(p.end_date), cons_member("count"@, count_member(p.count),
    seq![("thumbs"@, ScalarView::Bool(p.thumbs))]))))
}

/// The date written as `s`.
pub open spec fn date_of_text(s: Seq<char>) -> ApodDate {
    ApodDate { year: four_digits(s, 0) as i32, month: two_digits(s, 5) as u32, day: two_digits(s, 8) as u32 }
}

/// An optional date member: absent, null, or a date as `YYYY-MM-DD`.
pub open spec fn date_member_ok(o: ObjectView, key: Seq<char>) -> bool {
    is_absent(o, key) || (str_field(o, key) matches Some(s) && is_iso_date(s))
}

pub open spec fn date_member_value(o: ObjectView, key: Seq<char>) -> Option<ApodDate> {
    match str_field(o, key) {
        Some(s) => Some(date_of_text(s)),
        None => None,
    }
}

/// An optional count member: absent, null, or an integer from 0 to 255.
pub open spec fn count_member_ok(o: ObjectView) -> bool {
    is_absent(o, "count"@) || (field(o, "count"@) matches Some(ScalarView::Number(Some(n))) && n <= u8::MAX)
}

pub open spec fn count_member_value(o: ObjectView) -> Option<u8> {
    match field(o, "count"@) {
        Some(ScalarView::Number(Some(n))) => Some(n as u8),
        _ => None,
    }
}

/// `o` is an object that reads as parameters.
pub open spec fn is_params_shape(o: ObjectView) -> bool {
    &&& date_member_ok(o, "date"@)
    &&& date_member_ok(o, "start_date"@)
    &&& date_member_ok(o, "end_date"@)
    &&& count_member_ok(o)
    &&& field(o, "thumbs"@) matches Some(ScalarView::Bool(_))
}

/// The parameters that `o` reads as.
pub open spec fn params_from(o: ObjectView) -> ApodParams {
    ApodParams {
        date: date_member_value(o, "date"@),
        start_date: date_member_value(o, "start_date"@),
        end_date: date_member_value(o, "end_date"@),
        count: count_member_value(o),
        thumbs: field(o, "thumbs"@) matches Some(ScalarView::Bool(b)) && b,
    }
}

fn read_date_member(o: &JsonObject, key: &str) -> (r: Option<Option<ApodDate>>)
    ensures
        r is Some <==> date_member_ok(o@, key@),
        r matches Some(d) ==> d == date_member_value(o@, key@),
{
    match o.get(key) {
        None | Some(JsonScalar::Null) => Some(None),
        Some(JsonScalar::Str(s)) => match ApodDate::parse_iso(s.as_str()) {
            Ok(d) => Some(Some(d)),
            Err(_) => None,
        },
        _ => None,
    }
}

impl ApodParams {
    /// The parameters as a JSON object.
    pub fn to_json(&self) -> (r: JsonObject)
        requires
            self.wf(),
        ensures
            r@ == params_json(*self),
    {
        let mut fields: Vec<(String, JsonScalar)> = Vec::new();
        if let Some(d) = self.date {
            fields.push((String::from_str("date"), JsonScalar::Str(d.to_iso_string())));
        }
        if let Some(d) = self.start_date {
            fields.push((String::from_str("start_date"), JsonScalar::Str(d.to_iso_string())));
        }
        if let Some(d) = self.end_date {
            fields.push((String::from_str("end_date"), JsonScalar::Str(d.to_iso_string())));
        }
        if let Some(n) = self.count {
            fields.push((String::from_str("count"), JsonScalar::Number(Some(n as u64))));
        }
        fields.push((String::from_str("thumbs"), JsonScalar::Bool(self.thumbs)));
        let r = JsonObject { fields };
        assert(r@ =~= params_json(*self));
        r
    }

    /// Reads parameters from a JSON object: dates as `YYYY-MM-DD` under
    /// `date`, `start_date` and `end_date`, `count` as a small integer, each
    /// optional, and `thumbs` as a boolean. Other members are ignored.
    pub fn from_json(o: &JsonObject) -> (r: Option<ApodParams>)
        ensures
            r is Some <==> is_params_shape(o@),
            r matches Some(p) ==> p == params_from(o@),
    {
        let date = match read_date_member(o, "date") {
            Some(d) => d,
            None => return None,
        };
        let start_date = match read_date_member(o, "start_date") {
            Some(d) => d,
            None => return None,
        };
        let end_date = match read_date_member(o, "end_date") {
            Some(d) => d,
            None => return None,
        };
        let count = match o.get("count") {
            None | Some(JsonScalar::Null) => None,
            Some(JsonScalar::Number(Some(n))) => if *n <= 255 {
                Some(*n as u8)
            } else {
                return None;
            },
            _ => return None,
        };
        let thumbs = match o.get("thumbs") {
            Some(JsonScalar::Bool(b)) => *b,
            _ => return None,
        };
        Some(ApodParams { date, start_date, end_date, count, thumbs })
    }
}

proof fn lemma_field_cons(key: Seq<char>, x: ScalarView, rest: ObjectView, k: Seq<char>)
    ensures
        field(seq![(key, x)] + rest, k) == if key == k {
            Some(x)
        } else {
            field(rest, k)
        },
{
    assert((seq![(key, x)] + rest).drop_first() =~= rest);
}

proof fn lemma_field_member(key: Seq<char>, v: Option<ScalarView>, rest: ObjectView, k: Seq<char>)
    ensures
        field(cons_member(key, v, rest), k) == if key == k && v is Some {
            v
        } else {
            field(rest, k)
        },
{
    if let Some(x) = v {
        lemma_field_cons(key, x, rest, k);
    }
}

/// Looking up `k` in the JSON object of `p` goes down its members in order.
proof fn lemma_params_json_field(p: ApodParams, k: Seq<char>)
    ensures
        ({
            let t = seq![("thumbs"@, ScalarView::Bool(p.thumbs))];
            let c = cons_member("count"@, count_member(p.count), t);
            let e = cons_member("end_date"@, date_member(p.end_date), c);
            let st = cons_member("start_date"@, date_member(p.start_date), e);
            &&& field(params_json(p), k) == if k == "date"@ && p.date is Some {
                date_member(p.date)
            } else {
                field(st, k)
            }
            &&& field(st, k) == if k == "start_date"@ && p.start_date is Some {
                date_member(p.start_date)
            } else {
                field(e, k)
            }
            &&& field(e, k) == if k == "end_date"@ && p.end_date is Some {
                date_member(p.end_date)
            } else {
                field(c, k)
            }
            &&& field(c, k) == if k == "count"@ && p.count is Some {
                count_member(p.count)
            } else {
                field(t, k)
            }
            &&& field(t, k) == if k == "thumbs"@ {
                Some(ScalarView::Bool(p.thumbs))
            } else {
                None
            }
        }),
{
    let t = seq![("thumbs"@, ScalarView::Bool(p.thumbs))];
    let c = cons_member("count"@, count_member(p.count), t);
    let e = cons_member("end_date"@, date_member(p.end_date), c);
    let st = cons_member("start_date"@, date_member(p.start_date), e);
    lemma_field_member("date"@, date_member(p.date), st, k);
    lemma_field_member("start_date"@, date_member(p.start_date), e, k);
    lemma_field_member("end_date"@, date_member(p.end_date), c, k);
    lemma_field_member("count"@, count_member(p.count), t, k);
    lemma_field_cons("thumbs"@, ScalarView::Bool(p.thumbs), Seq::empty(), k);
    assert(t == seq![("thumbs"@, ScalarView::Bool(p.thumbs))] + Seq::<(Seq<char>, ScalarView)>::empty());
}

/// Writing parameters as JSON and reading them back gives the same parameters.
pub proof fn lemma_params_json_round_trip(p: ApodParams)
    requires
        p.wf(),
    ensures
        is_params_shape(params_json(p)),
        params_from(params_json(p)) == p,
{
    reveal_strlit("date");
    reveal_strlit("start_date");
    reveal_strlit("end_date");
    reveal_strlit("count");
    reveal_strlit("thumbs");
    let t = seq![("thumbs"@, ScalarView::Bool(p.thumbs))];
    let c = cons_member("count"@, count_member(p.count), t);
    let e = cons_member("end_date"@, date_member(p.end_date), c);
    let st = cons_member("start_date"@, date_member(p.start_date), e);
    let o = cons_member("date"@, date_member(p.date), st);
    assert(o == params_json(p));
    assert("date"@.len() == 4);
    assert("start_date"@.len() == 10);
    assert("end_date"@.len() == 8);
    assert("count"@.len() == 5);
    assert("thumbs"@.len() == 6);
    lemma_params_json_field(p, "date"@);
    lemma_params_json_field(p, "start_date"@);
    lemma_params_json_field(p, "end_date"@);
    lemma_params_json_field(p, "count"@);
    lemma_params_json_field(p, "thumbs"@);
    assert(t == seq![("thumbs"@, ScalarView::Bool(p.thumbs))] + Seq::<(Seq<char>, ScalarView)>::empty());
    assert(field(Seq::<(Seq<char>, ScalarView)>::empty(), "date"@) is None);
    assert(field(o, "date"@) == date_member(p.date));
    assert(field(o, "start_date"@) == date_member(p.start_date));
    assert(field(o, "end_date"@) == date_member(p.end_date));
    assert(field(o, "count"@) == count_member(p.count));
    assert(field(o, "thumbs"@) == Some(ScalarView::Bool(p.thumbs)));
    if let Some(d) = p.date {
        lemma_iso_round_trip(d);
    }
    if let Some(d) = p.start_date {
        lemma_iso_round_trip(d);
    }
    if let Some(d) = p.end_date {
        lemma_iso_round_trip(d);
    }
}

/// A builder that was given nothing yields, on any day, that day's picture
/// without thumbnails.
pub proof fn lemma_default_build(b: BuilderView, today: ApodDate)
    requires
        b.thumbs == false,
        b.mode is None,
    ensures
        built(b, today) == Some(params_of(Some(today), None, None, None, false)),
{
}

/// The last selection wins: a count chosen after any other selection yields
/// that count and no date.
pub proof fn lemma_last_mode_wins(thumbs: bool, earlier: Option<ApodRange>, n: u8, today: ApodDate)
    ensures
        built(BuilderView { thumbs, mode: Some(ApodRange::Count(n)) }, today) == Some(
            params_of(None, None, None, Some(n), thumbs),
        ),
{
}

/// A single date is accepted exactly when it lies from the launch day to
/// the current day, both included.
pub proof fn lemma_single_date_bounds(thumbs: bool, d: ApodDate, today: ApodDate)
    ensures
        built(BuilderView { thumbs, mode: Some(ApodRange::Date(d)) }, today) is Some <==> (
        launch_date().spec_le(d) && d.spec_le(today)),
        built(BuilderView { thumbs, mode: Some(ApodRange::Date(d)) }, today) matches Some(p) ==> p
            == params_of(Some(d), None, None, None, thumbs),
        built(
            BuilderView { thumbs, mode: Some(ApodRange::Date(ApodDate { year: 1995, month: 6, day: 15 })) },
            today,
        ) is None,
{
}

/// A span of days is accepted exactly when it does not end before it starts;
/// a span of one day is accepted with that day at both ends.
pub proof fn lemma_range_ordering(thumbs: bool, start: ApodDate, end: ApodDate, today: ApodDate)
    ensures
        built(BuilderView { thumbs, mode: Some(ApodRange::DateRange { start_date: start, end_date: end }) }, today)
            is Some <==> start.spec_le(end),
        built(BuilderView { thumbs, mode: Some(ApodRange::DateRange { start_date: start, end_date: start }) }, today)
            == Some(params_of(None, Some(start), Some(start), None, thumbs)),
{
}

} // verus!
