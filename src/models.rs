//! The work record produced for each result of a search page.
use vstd::prelude::*;

use crate::query::Rating;

verus! {

pub open spec fn is_leap_year(y: int) -> bool {
    (y % 4 == 0 && y % 100 != 0) || y % 400 == 0
}

/// The number of days of month `m` (1 to 12) of year `y`.
pub open spec fn days_in_month(y: int, m: int) -> int {
    if m == 2 {
        if is_leap_year(y) {
            29
        } else {
            28
        }
    } else if m == 4 || m == 6 || m == 9 || m == 11 {
        30
    } else {
        31
    }
}

/// A calendar day, as year, month (1 to 12) and day of the month.
#[derive(Debug, Clone, Copy, PartialEq, Eq, Structural)]
pub struct WorkDate {
    pub year: i32,
    pub month: u32,
    pub day: u32,
}

impl WorkDate {
    /// Whether the date names a day that exists in the proleptic Gregorian
    /// calendar.
    pub open spec fn wf(&self) -> bool {
        &&& 1 <= self.month <= 12
        &&& 1 <= self.day <= days_in_month(self.year as int, self.month as int)
    }

    /// The first day of 1970, which a record carries until its date is read.
    pub fn epoch() -> (r: WorkDate)
        ensures
            r == (WorkDate { year: 1970, month: 1, day: 1 }),
            r.wf(),
    {
        WorkDate { year: 1970, month: 1, day: 1 }
    }
}

/// One work listed on a results page.
#[derive(Debug, Clone)]
pub struct AO3Work {
    pub id: String,
    pub url: String,
    pub title: String,
    pub authors: Vec<String>,
    pub date: WorkDate,
    pub is_complete: bool,
    pub is_crossover: bool,
    pub word_count: usize,
    pub fandoms: Vec<String>,
    rating: Option<Rating>,
}

/// What a work record holds, as mathematical values.
pub struct WorkView {
    pub id: Seq<char>,
    pub url: Seq<char>,
    pub title: Seq<char>,
    pub authors: Seq<Seq<char>>,
    pub date: WorkDate,
    pub is_complete: bool,
    pub is_crossover: bool,
    pub word_count: nat,
    pub fandoms: Seq<Seq<char>>,
    pub rating: Option<Rating>,
}

impl View for AO3Work {
    type V = WorkView;

    closed spec fn view(&self) -> WorkView {
        WorkView {
            id: self.id@,
            url: self.url@,
            title: self.title@,
            authors: crate::text::views(self.authors@),
            date: self.date,
            is_complete: self.is_complete,
            is_crossover: self.is_crossover,
            word_count: self.word_count as nat,
            fandoms: crate::text::views(self.fandoms@),
            rating: self.spec_rating(),
        }
    }
}

impl AO3Work {
    /// The rating read for this work, if any.
    pub closed spec fn spec_rating(&self) -> Option<Rating> {
        self.rating
    }

    /// A record with the fields read from a page; the date, flags, word
    /// count and rating are not read from the page and keep their defaults.
    pub fn new(id: String, url: String, title: String, authors: Vec<String>, fandoms: Vec<String>) -> (r: AO3Work)
        ensures
            r@ == (WorkView {
                id: id@,
                url: url@,
                title: title@,
                authors: crate::text::views(authors@),
                date: WorkDate { year: 1970, month: 1, day: 1 },
                is_complete: false,
                is_crossover: false,
                word_count: 0,
                fandoms: crate::text::views(fandoms@),
                rating: None,
            }),
    {
        AO3Work {
            id,
            url,
            title,
            authors,
            date: WorkDate::epoch(),
            is_complete: false,
            is_crossover: false,
            word_count: 0,
            fandoms,
            rating: None,
        }
    }

    /// The work's rating, or `Rating::Any` when none was read.
    pub fn get_rating(&mut self) -> (r: Rating)
        ensures
            *final(self) == *old(self),
            r == match old(self)@.rating {
                Some(x) => x,
                None => Rating::Any,
            },
    {
        match &self.rating {
            Some(x) => x.clone(),
            None => Rating::Any,
        }
    }
}

} // verus!
