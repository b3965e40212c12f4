//! # Feed options
//! Listings do not use page numbers because their content changes so frequently.
//! Instead, they allow you to view slices of the underlying data.
//! Listing JSON responses contain after and before fields which are equivalent to the
//! "next" and "prev" buttons on the site and in combination with count can be used to page
//! through the listing.

use vstd::prelude::*;
use vstd::string::*;

verus! {

/// The character that stands for the digit `d`, for `d` below ten.
pub open spec fn digit_char(d: nat) -> char {
    if d == 0 {
        '0'
    } else if d == 1 {
        '1'
    } else if d == 2 {
        '2'
    } else if d == 3 {
        '3'
    } else if d == 4 {
        '4'
    } else if d == 5 {
        '5'
    } else if d == 6 {
        '6'
    } else if d == 7 {
        '7'
    } else if d == 8 {
        '8'
    } else {
        '9'
    }
}

/// The decimal numeral of `n`, without leading zeros.
pub open spec fn decimal(n: nat) -> Seq<char>
    decreases n,
{
    if n < 10 {
        seq![digit_char(n)]
    } else {
        decimal(n / 10).push(digit_char(n % 10))
    }
}

fn digit_str(d: u32) -> (s: &'static str)
    requires
        d < 10,
    ensures
        s@ == seq![digit_char(d as nat)],
{
    proof {
        reveal_strlit("0");
        reveal_strlit("1");
        reveal_strlit("2");
        reveal_strlit("3");
        reveal_strlit("4");
        reveal_strlit("5");
        reveal_strlit("6");
        reveal_strlit("7");
        reveal_strlit("8");
        reveal_strlit("9");
    }
    let s = if d == 0 {
        "0"
    } else if d == 1 {
        "1"
    } else if d == 2 {
        "2"
    } else if d == 3 {
        "3"
    } else if d == 4 {
        "4"
    } else if d == 5 {
        "5"
    } else if d == 6 {
        "6"
    } else if d == 7 {
        "7"
    } else if d == 8 {
        "8"
    } else {
        "9"
    };
    s
}

/// Appends the decimal numeral of `n` to `out`.
pub fn push_decimal(out: &mut String, n: u32)
    ensures
        final(out)@ == old(out)@ + decimal(n as nat),
    decreases n,
{
    if n >= 10 {
        push_decimal(out, n / 10);
    }
    out.append(digit_str(n % 10));
}

/// Allows you to request a certain time period. This only works in certain situations, like when asking for top of a subreddit
#[derive(Copy, Clone, Debug)]
pub enum TimePeriod {
    /// Posts from very recently
    Now,
    /// Posts from today
    Today,
    /// Posts from this week
    ThisWeek,
    /// Posts from this month
    ThisMonth,
    /// Posts from this year
    ThisYear,
    /// All posts
    AllTime,
}

impl TimePeriod {
    /// The value of the `t` parameter that asks for this period.
    pub open spec fn request_text(self) -> Seq<char> {
        match self {
            TimePeriod::Now => "now"@,
            TimePeriod::Today => "day"@,
            TimePeriod::ThisWeek => "week"@,
            TimePeriod::ThisMonth => "month"@,
            TimePeriod::ThisYear => "year"@,
            TimePeriod::AllTime => "all"@,
        }
    }

    /// Gets the request string for the period
    pub fn get_string_for_period(&self) -> (s: &str)
        ensures
            s@ == self.request_text(),
    {
        match self {
            TimePeriod::Now => "now",
            TimePeriod::Today => "day",
            TimePeriod::ThisWeek => "week",
            TimePeriod::ThisMonth => "month",
            TimePeriod::ThisYear => "year",
            TimePeriod::AllTime => "all",
        }
    }
}

/// Why a `FeedOption` could not be built.
#[derive(Copy, Clone, Debug, PartialEq, Eq)]
pub enum FeedOptionError {
    /// An `after` and a `before` anchor were asked for together.
    ConflictingAnchors,
}

/// Basic feed options
#[derive(Debug)]
pub struct FeedOption {
    /// `after` and `before` indicate the fullname of an item in the listing to use as the anchor point of the slice.
    after: Option<String>,
    /// Only one can be specified.
    before: Option<String>,
    /// The number of items that can be in this listing.
    limit: Option<u32>,
    /// The number of items already seen in this listing.
    count: Option<u32>,
    /// What time period to request (only works on some requests, like top)
    period: Option<TimePeriod>,
}

/// What a `FeedOption` holds, as mathematical values. The view of a
/// `FeedOption` has at most one anchor: see `wf`.
pub struct FeedOptionView {
    pub after: Option<Seq<char>>,
    pub before: Option<Seq<char>>,
    pub limit: Option<u32>,
    pub count: Option<u32>,
    pub period: Option<TimePeriod>,
}

/// The text of an optional string.
pub open spec fn text_of(s: Option<String>) -> Option<Seq<char>> {
    match s {
        Some(s) => Some(s@),
        None => None,
    }
}

/// A copy of an optional string.
pub fn copy_text(text: &Option<String>) -> (copy: Option<String>)
    ensures
        text_of(copy) == text_of(*text),
{
    match text {
        Some(s) => Some(s.clone()),
        None => None,
    }
}

impl FeedOptionView {
    /// At most one anchor is set.
    pub open spec fn wf(self) -> bool {
        !(self.after is Some && self.before is Some)
    }

    /// The anchor parameter: `after` if it is set, else `before` if it is set.
    pub open spec fn anchor_part(self) -> Seq<char> {
        match (self.after, self.before) {
            (Some(after), _) => "&after="@ + after,
            (None, Some(before)) => "&before="@ + before,
            (None, None) => Seq::<char>::empty(),
        }
    }

    /// The `count` parameter, if set.
    pub open spec fn count_part(self) -> Seq<char> {
        match self.count {
            Some(count) => "&count="@ + decimal(count as nat),
            None => Seq::<char>::empty(),
        }
    }

    /// The `limit` parameter, if set.
    pub open spec fn limit_part(self) -> Seq<char> {
        match self.limit {
            Some(limit) => "&limit="@ + decimal(limit as nat),
            None => Seq::<char>::empty(),
        }
    }

    /// The `t` parameter, if a period is set.
    pub open spec fn period_part(self) -> Seq<char> {
        match self.period {
            Some(period) => "&t="@ + period.request_text(),
            None => Seq::<char>::empty(),
        }
    }

    /// The query string: a question mark, then the anchor, `count`, `limit`
    /// and `t` in this order, each with `&` in front, then a closing `&`.
    pub open spec fn query(self) -> Seq<char> {
        "?"@ + self.anchor_part() + self.count_part() + self.limit_part() + self.period_part()
            + "&"@
    }
}

impl View for FeedOption {
    type V = FeedOptionView;

    closed spec fn view(&self) -> FeedOptionView {
        FeedOptionView {
            after: text_of(self.after),
            before: text_of(self.before),
            limit: self.limit,
            count: self.count,
            period: self.period,
        }
    }
}

impl FeedOption {
    /// No value of the type has both anchors.
    #[verifier::type_invariant]
    spec fn one_anchor(self) -> bool {
        !(self.after is Some && self.before is Some)
    }

    /// The `after` anchor, if it is set; the `before` anchor is then not.
    pub fn after_anchor(&self) -> (anchor: Option<&str>)
        ensures
            self@.wf(),
            anchor is Some <==> self@.after is Some,
            anchor matches Some(name) ==> self@.after == Some(name@),
    {
        proof {
            use_type_invariant(self);
        }
        match &self.after {
            Some(name) => Some(name.as_str()),
            None => None,
        }
    }

    /// The `before` anchor, if it is set; the `after` anchor is then not.
    pub fn before_anchor(&self) -> (anchor: Option<&str>)
        ensures
            self@.wf(),
            anchor is Some <==> self@.before is Some,
            anchor matches Some(name) ==> self@.before == Some(name@),
    {
        proof {
            use_type_invariant(self);
        }
        match &self.before {
            Some(name) => Some(name.as_str()),
            None => None,
        }
    }

    /// The number of items already seen, if it is set.
    pub fn seen_count(&self) -> (count: Option<u32>)
        ensures
            count == self@.count,
    {
        self.count
    }

    /// The number of items asked for, if it is set.
    pub fn page_limit(&self) -> (limit: Option<u32>)
        ensures
            limit == self@.limit,
    {
        self.limit
    }

    /// The time period asked for, if it is set.
    pub fn time_period(&self) -> (period: Option<TimePeriod>)
        ensures
            period == self@.period,
    {
        self.period
    }

    /// Create a new `FeedOption` instance.
    pub fn new() -> (options: FeedOption)
        ensures
            options@ == (FeedOptionView {
                after: None,
                before: None,
                limit: None,
                count: None,
                period: None,
            }),
    {
        FeedOption { after: None, before: None, count: None, limit: None, period: None }
    }

    /// Set after param. Fails when a `before` anchor is already set.
    pub fn after(self, ty: &str) -> (r: Result<FeedOption, FeedOptionError>)
        ensures
            r is Err <==> self@.before is Some,
            r matches Ok(options) ==> options@ == (FeedOptionView {
                after: Some(ty@),
                ..self@
            }) && options@.wf(),
    {
        if self.before.is_some() {
            return Err(FeedOptionError::ConflictingAnchors);
        }
        let mut options = self;
        options.after = Some(ty.to_owned());
        Ok(options)
    }

    /// Set before param. Fails when an `after` anchor is already set.
    pub fn before(self, ty: &str) -> (r: Result<FeedOption, FeedOptionError>)
        ensures
            r is Err <==> self@.after is Some,
            r matches Ok(options) ==> options@ == (FeedOptionView {
                before: Some(ty@),
                ..self@
            }) && options@.wf(),
    {
        if self.after.is_some() {
            return Err(FeedOptionError::ConflictingAnchors);
        }
        let mut options = self;
        options.before = Some(ty.to_owned());
        Ok(options)
    }

    /// Set count param.
    pub fn count(self, ty: u32) -> (options: FeedOption)
        ensures
            options@ == (FeedOptionView { count: Some(ty), ..self@ }),
    {
        proof {
            use_type_invariant(&self);
        }
        let mut options = self;
        options.count = Some(ty);
        options
    }

    /// Set limit param.
    pub fn limit(self, ty: u32) -> (options: FeedOption)
        ensures
            options@ == (FeedOptionView { limit: Some(ty), ..self@ }),
    {
        proof {
            use_type_invariant(&self);
        }
        let mut options = self;
        options.limit = Some(ty);
        options
    }

    /// Set period
    pub fn period(self, period: TimePeriod) -> (options: FeedOption)
        ensures
            options@ == (FeedOptionView { period: Some(period), ..self@ }),
    {
        proof {
            use_type_invariant(&self);
        }
        let mut options = self;
        options.period = Some(period);
        options
    }

    fn push_anchor(&self, url: &mut String)
        ensures
            final(url)@ == old(url)@ + self@.anchor_part(),
    {
        if let Some(after) = &self.after {
            url.append("&after=");
            url.append(after.as_str());
        } else if let Some(before) = &self.before {
            url.append("&before=");
            url.append(before.as_str());
        }
    }

    fn push_count(&self, url: &mut String)
        ensures
            final(url)@ == old(url)@ + self@.count_part(),
    {
        if let Some(count) = self.count {
            url.append("&count=");
            push_decimal(url, count);
        }
    }

    fn push_limit(&self, url: &mut String)
        ensures
            final(url)@ == old(url)@ + self@.limit_part(),
    {
        if let Some(limit) = self.limit {
            url.append("&limit=");
            push_decimal(url, limit);
        }
    }

    fn push_period(&self, url: &mut String)
        ensures
            final(url)@ == old(url)@ + self@.period_part(),
    {
        if let Some(period) = self.period {
            url.append("&t=");
            url.append(period.get_string_for_period());
        }
    }

    /// Build a url from `FeedOption`: appends the query string to `url`. Of
    /// the two anchors the string holds at most one: no value has both.
    pub fn build_url(self, url: &mut String)
        ensures
            self@.wf(),
            final(url)@ == old(url)@ + self@.query(),
    {
        proof {
            use_type_invariant(&self);
        }
        url.append("?");
        self.push_anchor(url);
        self.push_count(url);
        self.push_limit(url);
        self.push_period(url);
        url.append("&");
    }
}

impl Clone for FeedOption {
    fn clone(&self) -> (options: FeedOption)
        ensures
            options@ == self@,
    {
        proof {
            use_type_invariant(self);
        }
        FeedOption {
            after: copy_text(&self.after),
            before: copy_text(&self.before),
            limit: self.limit,
            count: self.count,
            period: self.period,
        }
    }
}

impl Default for FeedOption {
    fn default() -> (options: FeedOption)
        ensures
            options@ == (FeedOptionView {
                after: None,
                before: None,
                limit: None,
                count: None,
                period: None,
            }),
    {
        Self::new()
    }
}

} // verus!
