//! Search filters, their wire form, and the query builder.
use vstd::prelude::*;

use crate::text::{decimal, decimal_text, join, join_strings, views};

verus! {

/// What every search filter can do: render its wire form, tell whether it
/// takes part in a query at all, and describe itself for people.
pub trait QueryValue: Sized {
    /// The wire form.
    spec fn wire(&self) -> Seq<char>;

    /// Whether the filter takes part in a query.
    spec fn present(&self) -> bool;

    /// The description for people.
    spec fn label(&self) -> Seq<char>;

    fn to_query_value(&self) -> (r: String)
        ensures
            r@ == self.wire(),
    ;

    fn is_included(&self) -> (r: bool)
        ensures
            r == self.present(),
    ;

    fn display(&self) -> (r: String)
        ensures
            r@ == self.label(),
    ;
}

impl QueryValue for String {
    open spec fn wire(&self) -> Seq<char> {
        self@
    }

    /// Free text takes part when it is not empty.
    open spec fn present(&self) -> bool {
        self@.len() > 0
    }

    open spec fn label(&self) -> Seq<char> {
        self@
    }

    fn to_query_value(&self) -> (r: String) {
        self.clone()
    }

    fn is_included(&self) -> (r: bool) {
        self.unicode_len() > 0
    }

    fn display(&self) -> (r: String) {
        self.clone()
    }
}

pub open spec fn bool_wire(b: bool) -> Seq<char> {
    if b {
        "1"@
    } else {
        "0"@
    }
}

pub open spec fn bool_label(b: bool) -> Seq<char> {
    if b {
        "true"@
    } else {
        "false"@
    }
}

impl QueryValue for bool {
    open spec fn wire(&self) -> Seq<char> {
        bool_wire(*self)
    }

    /// A flag always takes part.
    open spec fn present(&self) -> bool {
        true
    }

    open spec fn label(&self) -> Seq<char> {
        bool_label(*self)
    }

    fn to_query_value(&self) -> (r: String) {
        if *self {
            String::from_str("1")
        } else {
            String::from_str("0")
        }
    }

    fn is_included(&self) -> (r: bool) {
        true
    }

    fn display(&self) -> (r: String) {
        if *self {
            String::from_str("true")
        } else {
            String::from_str("false")
        }
    }
}

/// A unit of time.
#[derive(Debug, Clone, Copy, PartialEq, Eq, Structural)]
pub enum Period {
    Years,
    Weeks,
    Months,
    Days,
    Hours,
}

pub open spec fn period_text(p: Period) -> Seq<char> {
    match p {
        Period::Years => "years"@,
        Period::Weeks => "weeks"@,
        Period::Months => "months"@,
        Period::Days => "days"@,
        Period::Hours => "hours"@,
    }
}

impl Period {
    fn name(&self) -> (r: &'static str)
        ensures
            r@ == period_text(*self),
    {
        match self {
            Period::Years => "years",
            Period::Weeks => "weeks",
            Period::Months => "months",
            Period::Days => "days",
            Period::Hours => "hours",
        }
    }

    /// The unit's name, in the plural.
    pub fn to_string(&self) -> (r: String)
        ensures
            r@ == period_text(*self),
    {
        String::from_str(self.name())
    }
}

/// A span of time before today, for the date a work was last revised.
#[derive(Debug, Clone, Copy, PartialEq, Eq, Structural)]
pub enum DateRange {
    /// No constraint: the date filter is left out.
    Any,
    Exactly(usize, Period),
    MoreThan(usize, Period),
    LessThan(usize, Period),
    /// From the first count to the second; the bounds are taken as given.
    Between(usize, usize, Period),
}

/// `{n} {unit}`
pub open spec fn amount(n: usize, p: Period) -> Seq<char> {
    decimal(n as nat) + " "@ + period_text(p)
}

pub open spec fn date_wire(d: DateRange) -> Seq<char> {
    match d {
        DateRange::Any => Seq::empty(),
        DateRange::Exactly(n, p) => amount(n, p) + " ago"@,
        DateRange::MoreThan(n, p) => "> "@ + amount(n, p) + " ago"@,
        DateRange::LessThan(n, p) => "< "@ + amount(n, p) + " ago"@,
        DateRange::Between(a, b, p) => decimal(a as nat) + "-"@ + amount(b, p),
    }
}

pub open spec fn date_label(d: DateRange) -> Seq<char> {
    match d {
        DateRange::Any => "None"@,
        DateRange::Exactly(n, p) => "Exactly "@ + amount(n, p) + " ago"@,
        DateRange::MoreThan(n, p) => "More than "@ + amount(n, p) + " ago"@,
        DateRange::LessThan(n, p) => "Less than "@ + amount(n, p) + " ago"@,
        DateRange::Between(a, b, p) => "Between "@ + decimal(a as nat) + " and "@ + amount(b, p) + " ago"@,
    }
}

fn amount_text(n: usize, p: Period) -> (r: String)
    ensures
        r@ == amount(n, p),
{
    let mut s = decimal_text(n);
    s.append(" ");
    s.append(p.name());
    s
}

fn prefixed(prefix: &str, body: String) -> (r: String)
    ensures
        r@ == prefix@ + body@,
{
    String::from_str(prefix).concat(body.as_str())
}

fn suffixed(mut body: String, suffix: &str) -> (r: String)
    ensures
        r@ == body@ + suffix@,
{
    body.append(suffix);
    body
}

impl DateRange {
    /// The description for people, e.g. `More than 8 weeks ago`.
    pub fn to_string(&self) -> (r: String)
        ensures
            r@ == date_label(*self),
    {
        match *self {
            DateRange::Any => String::from_str("None"),
            DateRange::Exactly(n, p) => suffixed(prefixed("Exactly ", amount_text(n, p)), " ago"),
            DateRange::MoreThan(n, p) => suffixed(prefixed("More than ", amount_text(n, p)), " ago"),
            DateRange::LessThan(n, p) => suffixed(prefixed("Less than ", amount_text(n, p)), " ago"),
            DateRange::Between(a, b, p) => {
                let s = suffixed(prefixed("Between ", decimal_text(a)), " and ");
                suffixed(s.concat(amount_text(b, p).as_str()), " ago")
            },
        }
    }
}

impl QueryValue for DateRange {
    open spec fn wire(&self) -> Seq<char> {
        date_wire(*self)
    }

    open spec fn present(&self) -> bool {
        *self != DateRange::Any
    }

    open spec fn label(&self) -> Seq<char> {
        date_label(*self)
    }

    /// The wire form, e.g. `> 8 weeks ago` or `13-21 months`.
    fn to_query_value(&self) -> (r: String) {
        match *self {
            DateRange::Any => String::new(),
            DateRange::Exactly(n, p) => suffixed(amount_text(n, p), " ago"),
            DateRange::MoreThan(n, p) => suffixed(prefixed("> ", amount_text(n, p)), " ago"),
            DateRange::LessThan(n, p) => suffixed(prefixed("< ", amount_text(n, p)), " ago"),
            DateRange::Between(a, b, p) => suffixed(decimal_text(a), "-").concat(amount_text(b, p).as_str()),
        }
    }

    fn is_included(&self) -> (r: bool) {
        !matches!(self, DateRange::Any)
    }

    fn display(&self) -> (r: String) {
        self.to_string()
    }
}

/// A constraint on a count (words, hits, kudos, comments, bookmarks).
#[derive(Debug, Clone, Copy, PartialEq, Eq, Structural)]
pub enum NumericalValueRange {
    /// No constraint: the filter is left out.
    Any,
    Exactly(usize),
    MoreThan(usize),
    LessThan(usize),
    /// From the first count to the second; the bounds are taken as given.
    Between(usize, usize),
}

pub open spec fn number_wire(r: NumericalValueRange) -> Seq<char> {
    match r {
        NumericalValueRange::Any => Seq::empty(),
        NumericalValueRange::Exactly(n) => decimal(n as nat),
        NumericalValueRange::MoreThan(n) => "> "@ + decimal(n as nat),
        NumericalValueRange::LessThan(n) => "< "@ + decimal(n as nat),
        NumericalValueRange::Between(a, b) => decimal(a as nat) + "-"@ + decimal(b as nat),
    }
}

pub open spec fn number_label(r: NumericalValueRange) -> Seq<char> {
    match r {
        NumericalValueRange::Any => "None"@,
        NumericalValueRange::Exactly(n) => "Exactly "@ + decimal(n as nat),
        NumericalValueRange::MoreThan(n) => "More than "@ + decimal(n as nat),
        NumericalValueRange::LessThan(n) => "Less than "@ + decimal(n as nat),
        NumericalValueRange::Between(a, b) => "Between "@ + decimal(a as nat) + " and "@ + decimal(b as nat),
    }
}

impl NumericalValueRange {
    /// The description for people, e.g. `Less than 5`.
    pub fn to_string(&self) -> (r: String)
        ensures
            r@ == number_label(*self),
    {
        match *self {
            NumericalValueRange::Any => String::from_str("None"),
            NumericalValueRange::Exactly(n) => prefixed("Exactly ", decimal_text(n)),
            NumericalValueRange::MoreThan(n) => prefixed("More than ", decimal_text(n)),
            NumericalValueRange::LessThan(n) => prefixed("Less than ", decimal_text(n)),
            NumericalValueRange::Between(a, b) => {
                let s = suffixed(prefixed("Between ", decimal_text(a)), " and ");
                s.concat(decimal_text(b).as_str())
            },
        }
    }
}

impl QueryValue for NumericalValueRange {
    open spec fn wire(&self) -> Seq<char> {
        number_wire(*self)
    }

    open spec fn present(&self) -> bool {
        *self != NumericalValueRange::Any
    }

    open spec fn label(&self) -> Seq<char> {
        number_label(*self)
    }

    /// The wire form, e.g. `< 5` or `100-200`.
    fn to_query_value(&self) -> (r: String) {
        match *self {
            NumericalValueRange::Any => String::new(),
            NumericalValueRange::Exactly(n) => decimal_text(n),
            NumericalValueRange::MoreThan(n) => prefixed("> ", decimal_text(n)),
            NumericalValueRange::LessThan(n) => prefixed("< ", decimal_text(n)),
            NumericalValueRange::Between(a, b) => suffixed(decimal_text(a), "-").concat(decimal_text(b).as_str()),
        }
    }

    fn is_included(&self) -> (r: bool) {
        !matches!(self, NumericalValueRange::Any)
    }

    fn display(&self) -> (r: String) {
        self.to_string()
    }
}

/// Whether a work has been completed.
#[derive(Debug, Clone, Copy, PartialEq, Eq, Structural)]
pub enum CompletionStatus {
    /// Either way: the filter is left out.
    Ignore,
    /// Only completed works (wire form `T`).
    OnlyCompleted,
    /// Only works still in progress (wire form `F`).
    OnlyIncomplete,
}

pub open spec fn completion_wire(c: CompletionStatus) -> Seq<char> {
    match c {
        CompletionStatus::Ignore => Seq::empty(),
        CompletionStatus::OnlyCompleted => "T"@,
        CompletionStatus::OnlyIncomplete => "F"@,
    }
}

pub open spec fn completion_label(c: CompletionStatus) -> Seq<char> {
    match c {
        CompletionStatus::Ignore => "Don't care"@,
        CompletionStatus::OnlyCompleted => "Only allow completed"@,
        CompletionStatus::OnlyIncomplete => "Only allow incomplete"@,
    }
}

impl CompletionStatus {
    /// The description for people.
    pub fn to_string(&self) -> (r: String)
        ensures
            r@ == completion_label(*self),
    {
        match self {
            CompletionStatus::Ignore => String::from_str("Don't care"),
            CompletionStatus::OnlyCompleted => String::from_str("Only allow completed"),
            CompletionStatus::OnlyIncomplete => String::from_str("Only allow incomplete"),
        }
    }
}

impl QueryValue for CompletionStatus {
    open spec fn wire(&self) -> Seq<char> {
        completion_wire(*self)
    }

    open spec fn present(&self) -> bool {
        *self != CompletionStatus::Ignore
    }

    open spec fn label(&self) -> Seq<char> {
        completion_label(*self)
    }

    fn to_query_value(&self) -> (r: String) {
        match self {
            CompletionStatus::Ignore => String::new(),
            CompletionStatus::OnlyCompleted => String::from_str("T"),
            CompletionStatus::OnlyIncomplete => String::from_str("F"),
        }
    }

    fn is_included(&self) -> (r: bool) {
        !matches!(self, CompletionStatus::Ignore)
    }

    fn display(&self) -> (r: String) {
        self.to_string()
    }
}

/// Whether a work crosses over several fandoms.
#[derive(Debug, Clone, Copy, PartialEq, Eq, Structural)]
pub enum CrossoverStatus {
    /// Either way: the filter is left out.
    Ignore,
    /// Only crossovers (wire form `T`).
    OnlyCrossover,
    /// Only works of a single fandom (wire form `F`).
    OnlyNonCrossover,
}

pub open spec fn crossover_wire(c: CrossoverStatus) -> Seq<char> {
    match c {
        CrossoverStatus::Ignore => Seq::empty(),
        CrossoverStatus::OnlyCrossover => "T"@,
        CrossoverStatus::OnlyNonCrossover => "F"@,
    }
}

pub open spec fn crossover_label(c: CrossoverStatus) -> Seq<char> {
    match c {
        CrossoverStatus::Ignore => "Don't care"@,
        CrossoverStatus::OnlyCrossover => "Only allow crossovers"@,
        CrossoverStatus::OnlyNonCrossover => "Only allow non crossovers"@,
    }
}

impl CrossoverStatus {
    /// The description for people.
    pub fn to_string(&self) -> (r: String)
        ensures
            r@ == crossover_label(*self),
    {
        match self {
            CrossoverStatus::Ignore => String::from_str("Don't care"),
            CrossoverStatus::OnlyCrossover => String::from_str("Only allow crossovers"),
            CrossoverStatus::OnlyNonCrossover => String::from_str("Only allow non crossovers"),
        }
    }
}

impl QueryValue for CrossoverStatus {
    open spec fn wire(&self) -> Seq<char> {
        crossover_wire(*self)
    }

    open spec fn present(&self) -> bool {
        *self != CrossoverStatus::Ignore
    }

    open spec fn label(&self) -> Seq<char> {
        crossover_label(*self)
    }

    fn to_query_value(&self) -> (r: String) {
        match self {
            CrossoverStatus::Ignore => String::new(),
            CrossoverStatus::OnlyCrossover => String::from_str("T"),
            CrossoverStatus::OnlyNonCrossover => String::from_str("F"),
        }
    }

    fn is_included(&self) -> (r: bool) {
        !matches!(self, CrossoverStatus::Ignore)
    }

    fn display(&self) -> (r: String) {
        self.to_string()
    }
}

/// Rating given to a work.
#[derive(Debug, Clone, Copy, PartialEq, Eq, Structural)]
pub enum Rating {
    /// No preference: the rating filter is left out.
    Any,
    NotRated,
    General,
    TeenAndUp,
    Mature,
    Explicit,
}

/// The archive's number for each rating.
pub open spec fn rating_id(r: Rating) -> nat {
    match r {
        Rating::Any => 0,
        Rating::NotRated => 9,
        Rating::General => 10,
        Rating::TeenAndUp => 11,
        Rating::Mature => 12,
        Rating::Explicit => 13,
    }
}

pub open spec fn rating_wire(r: Rating) -> Seq<char> {
    if r == Rating::Any {
        Seq::empty()
    } else {
        decimal(rating_id(r))
    }
}

pub open spec fn rating_label(r: Rating) -> Seq<char> {
    match r {
        Rating::Any => "None"@,
        Rating::NotRated => "Work is not rated"@,
        Rating::General => "For General Audiences"@,
        Rating::TeenAndUp => "For Teens And Up"@,
        Rating::Mature => "For Mature Audiences"@,
        Rating::Explicit => "Work is Explicit"@,
    }
}

impl Rating {
    /// The archive's number for the rating (`0` for no preference).
    pub fn id(&self) -> (r: usize)
        ensures
            r == rating_id(*self),
    {
        match self {
            Rating::Any => 0,
            Rating::NotRated => 9,
            Rating::General => 10,
            Rating::TeenAndUp => 11,
            Rating::Mature => 12,
            Rating::Explicit => 13,
        }
    }

    /// The description for people.
    pub fn to_string(&self) -> (r: String)
        ensures
            r@ == rating_label(*self),
    {
        match self {
            Rating::Any => String::from_str("None"),
            Rating::NotRated => String::from_str("Work is not rated"),
            Rating::General => String::from_str("For General Audiences"),
            Rating::TeenAndUp => String::from_str("For Teens And Up"),
            Rating::Mature => String::from_str("For Mature Audiences"),
            Rating::Explicit => String::from_str("Work is Explicit"),
        }
    }
}

impl QueryValue for Rating {
    open spec fn wire(&self) -> Seq<char> {
        rating_wire(*self)
    }

    open spec fn present(&self) -> bool {
        *self != Rating::Any
    }

    open spec fn label(&self) -> Seq<char> {
        rating_label(*self)
    }

    fn to_query_value(&self) -> (r: String) {
        if matches!(self, Rating::Any) {
            String::new()
        } else {
            decimal_text(self.id())
        }
    }

    fn is_included(&self) -> (r: bool) {
        !matches!(self, Rating::Any)
    }

    fn display(&self) -> (r: String) {
        self.to_string()
    }
}

/// A warning the archive attaches to works.
#[derive(Debug, Clone, Copy, PartialEq, Eq, Structural)]
pub enum ArchiveWarning {
    CreatureChoseNotToUseArchiveWarnings,
    GraphicDepictionOfViolence,
    MajorCharacterDeath,
    NoArchiveWarningsApply,
    RapeNonCon,
    Underage,
}

/// The archive's number for each warning.
pub open spec fn warning_id(w: ArchiveWarning) -> nat {
    match w {
        ArchiveWarning::CreatureChoseNotToUseArchiveWarnings => 14,
        ArchiveWarning::GraphicDepictionOfViolence => 17,
        ArchiveWarning::MajorCharacterDeath => 18,
        ArchiveWarning::NoArchiveWarningsApply => 16,
        ArchiveWarning::RapeNonCon => 19,
        ArchiveWarning::Underage => 20,
    }
}

pub open spec fn warning_label(w: ArchiveWarning) -> Seq<char> {
    match w {
        ArchiveWarning::CreatureChoseNotToUseArchiveWarnings => "Creature Chose Not To Use Archive Warnings"@,
        ArchiveWarning::GraphicDepictionOfViolence => "Graphic Depiction Of Violence"@,
        ArchiveWarning::MajorCharacterDeath => "Major Character Death"@,
        ArchiveWarning::NoArchiveWarningsApply => "No Archive Warnings Apply"@,
        ArchiveWarning::RapeNonCon => "Rape/Non-Con"@,
        ArchiveWarning::Underage => "Underage"@,
    }
}

impl ArchiveWarning {
    /// The archive's number for the warning.
    pub fn id(&self) -> (r: usize)
        ensures
            r == warning_id(*self),
    {
        match self {
            ArchiveWarning::CreatureChoseNotToUseArchiveWarnings => 14,
            ArchiveWarning::GraphicDepictionOfViolence => 17,
            ArchiveWarning::MajorCharacterDeath => 18,
            ArchiveWarning::NoArchiveWarningsApply => 16,
            ArchiveWarning::RapeNonCon => 19,
            ArchiveWarning::Underage => 20,
        }
    }

    /// The description for people.
    pub fn to_string(&self) -> (r: String)
        ensures
            r@ == warning_label(*self),
    {
        match self {
            ArchiveWarning::CreatureChoseNotToUseArchiveWarnings => String::from_str(
                "Creature Chose Not To Use Archive Warnings",
            ),
            ArchiveWarning::GraphicDepictionOfViolence => String::from_str("Graphic Depiction Of Violence"),
            ArchiveWarning::MajorCharacterDeath => String::from_str("Major Character Death"),
            ArchiveWarning::NoArchiveWarningsApply => String::from_str("No Archive Warnings Apply"),
            ArchiveWarning::RapeNonCon => String::from_str("Rape/Non-Con"),
            ArchiveWarning::Underage => String::from_str("Underage"),
        }
    }
}

impl QueryValue for ArchiveWarning {
    open spec fn wire(&self) -> Seq<char> {
        decimal(warning_id(*self))
    }

    /// Every warning takes part when selected.
    open spec fn present(&self) -> bool {
        true
    }

    open spec fn label(&self) -> Seq<char> {
        warning_label(*self)
    }

    fn to_query_value(&self) -> (r: String) {
        decimal_text(self.id())
    }

    fn is_included(&self) -> (r: bool) {
        true
    }

    fn display(&self) -> (r: String) {
        self.to_string()
    }
}

/// The kind of relationships a work centres on.
#[derive(Debug, Clone, Copy, PartialEq, Eq, Structural)]
pub enum Category {
    /// Female / Female
    FF,
    /// Female / Male
    FM,
    /// General
    Gen,
    /// Male / Male
    MM,
    /// Multi
    Multi,
    /// Other
    Other,
}

/// The archive's number for each category.
pub open spec fn category_id(c: Category) -> nat {
    match c {
        Category::FF => 116,
        Category::FM => 22,
        Category::Gen => 21,
        Category::MM => 23,
        Category::Multi => 2246,
        Category::Other => 24,
    }
}

pub open spec fn category_label(c: Category) -> Seq<char> {
    match c {
        Category::FF => "F/F"@,
        Category::FM => "F/M"@,
        Category::Gen => "Gen"@,
        Category::MM => "M/M"@,
        Category::Multi => "Multi"@,
        Category::Other => "Other"@,
    }
}

impl Category {
    /// The archive's number for the category.
    pub fn id(&self) -> (r: usize)
        ensures
            r == category_id(*self),
    {
        match self {
            Category::FF => 116,
            Category::FM => 22,
            Category::Gen => 21,
            Category::MM => 23,
            Category::Multi => 2246,
            Category::Other => 24,
        }
    }

    /// The description for people.
    pub fn to_string(&self) -> (r: String)
        ensures
            r@ == category_label(*self),
    {
        match self {
            Category::FF => String::from_str("F/F"),
            Category::FM => String::from_str("F/M"),
            Category::Gen => String::from_str("Gen"),
            Category::MM => String::from_str("M/M"),
            Category::Multi => String::from_str("Multi"),
            Category::Other => String::from_str("Other"),
        }
    }
}

impl QueryValue for Category {
    open spec fn wire(&self) -> Seq<char> {
        decimal(category_id(*self))
    }

    /// Every category takes part when selected.
    open spec fn present(&self) -> bool {
        true
    }

    open spec fn label(&self) -> Seq<char> {
        category_label(*self)
    }

    fn to_query_value(&self) -> (r: String) {
        decimal_text(self.id())
    }

    fn is_included(&self) -> (r: bool) {
        true
    }

    fn display(&self) -> (r: String) {
        self.to_string()
    }
}

/// The order of the results.
#[derive(Debug, Clone, Copy, PartialEq, Eq, Structural)]
pub enum SortBy {
    BestMatch,
}

impl SortBy {
    /// The description for people.
    pub fn to_string(&self) -> (r: String)
        ensures
            r@ == "Best Match"@,
    {
        String::from_str("Best Match")
    }
}

impl QueryValue for SortBy {
    open spec fn wire(&self) -> Seq<char> {
        "_score"@
    }

    open spec fn present(&self) -> bool {
        true
    }

    open spec fn label(&self) -> Seq<char> {
        "Best Match"@
    }

    fn to_query_value(&self) -> (r: String) {
        String::from_str("_score")
    }

    fn is_included(&self) -> (r: bool) {
        true
    }

    fn display(&self) -> (r: String) {
        self.to_string()
    }
}

/// The direction of the order of the results.
#[derive(Debug, Clone, Copy, PartialEq, Eq, Structural)]
pub enum SortDirection {
    Descending,
    Ascending,
}

pub open spec fn direction_wire(d: SortDirection) -> Seq<char> {
    match d {
        SortDirection::Descending => "desc"@,
        SortDirection::Ascending => "asc"@,
    }
}

pub open spec fn direction_label(d: SortDirection) -> Seq<char> {
    match d {
        SortDirection::Descending => "Descending order"@,
        SortDirection::Ascending => "Ascending order"@,
    }
}

impl SortDirection {
    /// The description for people.
    pub fn to_string(&self) -> (r: String)
        ensures
            r@ == direction_label(*self),
    {
        match self {
            SortDirection::Descending => String::from_str("Descending order"),
            SortDirection::Ascending => String::from_str("Ascending order"),
        }
    }
}

impl QueryValue for SortDirection {
    open spec fn wire(&self) -> Seq<char> {
        direction_wire(*self)
    }

    open spec fn present(&self) -> bool {
        true
    }

    open spec fn label(&self) -> Seq<char> {
        direction_label(*self)
    }

    fn to_query_value(&self) -> (r: String) {
        match self {
            SortDirection::Descending => String::from_str("desc"),
            SortDirection::Ascending => String::from_str("asc"),
        }
    }

    fn is_included(&self) -> (r: bool) {
        true
    }

    fn display(&self) -> (r: String) {
        self.to_string()
    }
}

/// `[ a, b ]`
pub open spec fn bracketed(items: Seq<Seq<char>>) -> Seq<char> {
    "[ "@ + join(items, ", "@) + " ]"@
}

/// A list of names, sent as one comma-separated value.
#[derive(Debug, Clone)]
pub struct MultiString(pub Vec<String>);

impl View for MultiString {
    type V = Seq<Seq<char>>;

    open spec fn view(&self) -> Seq<Seq<char>> {
        views(self.0@)
    }
}

fn bracket(items: &Vec<String>) -> (r: String)
    ensures
        r@ == bracketed(views(items@)),
{
    suffixed(prefixed("[ ", join_strings(items, ", ")), " ]")
}

impl QueryValue for MultiString {
    open spec fn wire(&self) -> Seq<char> {
        join(self@, ","@)
    }

    open spec fn present(&self) -> bool {
        self@.len() > 0
    }

    open spec fn label(&self) -> Seq<char> {
        bracketed(self@)
    }

    fn to_query_value(&self) -> (r: String) {
        join_strings(&self.0, ",")
    }

    fn is_included(&self) -> (r: bool) {
        self.0.len() > 0
    }

    fn display(&self) -> (r: String) {
        bracket(&self.0)
    }
}

/// A selection of coded values, sent as one parameter per element.
#[derive(Debug, Clone)]
pub struct MultiSelect<T: QueryValue>(pub Vec<T>);

impl<T: QueryValue> MultiSelect<T> {
    /// The wire form of each element, in order.
    pub fn to_query_values(&self) -> (r: Vec<String>)
        ensures
            r@.len() == self.0@.len(),
            forall|i: int| 0 <= i < r@.len() ==> (#[trigger] r@[i])@ == self.0@[i].wire(),
    {
        let mut out: Vec<String> = Vec::new();
        let mut i: usize = 0;
        while i < self.0.len()
            invariant
                i <= self.0@.len(),
                out@.len() == i,
                forall|j: int| 0 <= j < i ==> (#[trigger] out@[j])@ == self.0@[j].wire(),
            decreases self.0@.len() - i,
        {
            out.push(self.0[i].to_query_value());
            i = i + 1;
        }
        out
    }

    /// Whether anything is selected.
    pub fn is_included(&self) -> (r: bool)
        ensures
            r == (self.0@.len() > 0),
    {
        self.0.len() > 0
    }

    /// The description for people, e.g. `[ Gen, Other ]`.
    pub fn to_string(&self) -> (r: String)
        ensures
            r@ == bracketed(self.0@.map_values(|x: T| x.label())),
    {
        let mut labels: Vec<String> = Vec::new();
        let mut i: usize = 0;
        while i < self.0.len()
            invariant
                i <= self.0@.len(),
                labels@.len() == i,
                forall|j: int| 0 <= j < i ==> (#[trigger] labels@[j])@ == self.0@[j].label(),
            decreases self.0@.len() - i,
        {
            labels.push(self.0[i].display());
            i = i + 1;
        }
        assert(views(labels@) =~= self.0@.map_values(|x: T| x.label()));
        bracket(&labels)
    }
}

/// A parameter of the search query, in the order they are sent.
#[derive(Debug, Clone, Copy, PartialEq, Eq, Structural)]
pub enum Field {
    Query,
    Title,
    Authors,
    RevisedAt,
    Complete,
    Crossover,
    SingleChapter,
    WordCount,
    FandomNames,
    RatingIds,
    ArchiveWarningIds,
    CategoryIds,
    CharacterNames,
    RelationshipName,
    FreeformNames,
    Hits,
    KudosCount,
    CommentsCount,
    BookmarksCount,
    SortColumn,
    SortDirection,
}

/// How many parameters there are.
pub open spec fn field_count() -> nat {
    21
}

/// The place of each parameter in the fixed order.
pub open spec fn rank(f: Field) -> nat {
    match f {
        Field::Query => 0,
        Field::Title => 1,
        Field::Authors => 2,
        Field::RevisedAt => 3,
        Field::Complete => 4,
        Field::Crossover => 5,
        Field::SingleChapter => 6,
        Field::WordCount => 7,
        Field::FandomNames => 8,
        Field::RatingIds => 9,
        Field::ArchiveWarningIds => 10,
        Field::CategoryIds => 11,
        Field::CharacterNames => 12,
        Field::RelationshipName => 13,
        Field::FreeformNames => 14,
        Field::Hits => 15,
        Field::KudosCount => 16,
        Field::CommentsCount => 17,
        Field::BookmarksCount => 18,
        Field::SortColumn => 19,
        Field::SortDirection => 20,
    }
}

/// The parameter at place `k` of the fixed order.
pub open spec fn field_at(k: nat) -> Field {
    if k == 0 {
        Field::Query
    } else if k == 1 {
        Field::Title
    } else if k == 2 {
        Field::Authors
    } else if k == 3 {
        Field::RevisedAt
    } else if k == 4 {
        Field::Complete
    } else if k == 5 {
        Field::Crossover
    } else if k == 6 {
        Field::SingleChapter
    } else if k == 7 {
        Field::WordCount
    } else if k == 8 {
        Field::FandomNames
    } else if k == 9 {
        Field::RatingIds
    } else if k == 10 {
        Field::ArchiveWarningIds
    } else if k == 11 {
        Field::CategoryIds
    } else if k == 12 {
        Field::CharacterNames
    } else if k == 13 {
        Field::RelationshipName
    } else if k == 14 {
        Field::FreeformNames
    } else if k == 15 {
        Field::Hits
    } else if k == 16 {
        Field::KudosCount
    } else if k == 17 {
        Field::CommentsCount
    } else if k == 18 {
        Field::BookmarksCount
    } else if k == 19 {
        Field::SortColumn
    } else {
        Field::SortDirection
    }
}

/// The name a parameter is sent under (the archive spells the comment count
/// `commets_count`).
pub open spec fn field_key(f: Field) -> Seq<char> {
    match f {
        Field::Query => "work_search[query]"@,
        Field::Title => "work_search[title]"@,
        Field::Authors => "work_search[authors]"@,
        Field::RevisedAt => "work_search[revised_at]"@,
        Field::Complete => "work_search[complete]"@,
        Field::Crossover => "work_search[crossover]"@,
        Field::SingleChapter => "work_search[single_chapter]"@,
        Field::WordCount => "work_search[word_count]"@,
        Field::FandomNames => "work_search[fandom_names]"@,
        Field::RatingIds => "work_search[rating_ids]"@,
        Field::ArchiveWarningIds => "work_search[archive_warning_ids][]"@,
        Field::CategoryIds => "work_search[category_ids][]"@,
        Field::CharacterNames => "work_search[character_names]"@,
        Field::RelationshipName => "work_search[relationship_name]"@,
        Field::FreeformNames => "work_search[freeform_names]"@,
        Field::Hits => "work_search[hits]"@,
        Field::KudosCount => "work_search[kudos_count]"@,
        Field::CommentsCount => "work_search[commets_count]"@,
        Field::BookmarksCount => "work_search[bookmarks_count]"@,
        Field::SortColumn => "work_search[sort_column]"@,
        Field::SortDirection => "work_search[sort_direction]"@,
    }
}

impl Field {
    /// The name the parameter is sent under.
    pub fn key(&self) -> (r: &'static str)
        ensures
            r@ == field_key(*self),
    {
        match self {
            Field::Query => "work_search[query]",
            Field::Title => "work_search[title]",
            Field::Authors => "work_search[authors]",
            Field::RevisedAt => "work_search[revised_at]",
            Field::Complete => "work_search[complete]",
            Field::Crossover => "work_search[crossover]",
            Field::SingleChapter => "work_search[single_chapter]",
            Field::WordCount => "work_search[word_count]",
            Field::FandomNames => "work_search[fandom_names]",
            Field::RatingIds => "work_search[rating_ids]",
            Field::ArchiveWarningIds => "work_search[archive_warning_ids][]",
            Field::CategoryIds => "work_search[category_ids][]",
            Field::CharacterNames => "work_search[character_names]",
            Field::RelationshipName => "work_search[relationship_name]",
            Field::FreeformNames => "work_search[freeform_names]",
            Field::Hits => "work_search[hits]",
            Field::KudosCount => "work_search[kudos_count]",
            Field::CommentsCount => "work_search[commets_count]",
            Field::BookmarksCount => "work_search[bookmarks_count]",
            Field::SortColumn => "work_search[sort_column]",
            Field::SortDirection => "work_search[sort_direction]",
        }
    }
}

/// The state of a search, as mathematical values.
pub struct QueryModel {
    pub any_field: Seq<char>,
    pub title: Seq<char>,
    pub authors: Seq<Seq<char>>,
    pub date: DateRange,
    pub completion_status: CompletionStatus,
    pub crossover_status: CrossoverStatus,
    pub is_single_chapter: bool,
    pub word_count: NumericalValueRange,
    pub fandoms: Seq<Seq<char>>,
    pub rating: Rating,
    pub archive_warnings: Seq<ArchiveWarning>,
    pub categories: Seq<Category>,
    pub characters: Seq<Seq<char>>,
    pub relationships: Seq<Seq<char>>,
    pub additional_tags: Seq<Seq<char>>,
    pub hits: NumericalValueRange,
    pub kudos: NumericalValueRange,
    pub comments: NumericalValueRange,
    pub bookmarks: NumericalValueRange,
    pub sort_by: SortBy,
    pub sort_direction: SortDirection,
}

/// The search with every filter at its neutral value, best matches first.
pub open spec fn default_model() -> QueryModel {
    QueryModel {
        any_field: Seq::empty(),
        title: Seq::empty(),
        authors: Seq::empty(),
        date: DateRange::Any,
        completion_status: CompletionStatus::Ignore,
        crossover_status: CrossoverStatus::Ignore,
        is_single_chapter: false,
        word_count: NumericalValueRange::Any,
        fandoms: Seq::empty(),
        rating: Rating::Any,
        archive_warnings: Seq::empty(),
        categories: Seq::empty(),
        characters: Seq::empty(),
        relationships: Seq::empty(),
        additional_tags: Seq::empty(),
        hits: NumericalValueRange::Any,
        kudos: NumericalValueRange::Any,
        comments: NumericalValueRange::Any,
        bookmarks: NumericalValueRange::Any,
        sort_by: SortBy::BestMatch,
        sort_direction: SortDirection::Descending,
    }
}

/// A single parameter `f` with value `v` when `shown` holds, else nothing.
pub open spec fn single(f: Field, shown: bool, v: Seq<char>) -> Seq<(Field, Seq<char>)> {
    if shown {
        seq![(f, v)]
    } else {
        Seq::empty()
    }
}

pub open spec fn names(f: Field, items: Seq<Seq<char>>) -> Seq<(Field, Seq<char>)> {
    single(f, items.len() > 0, join(items, ","@))
}

pub open spec fn count(f: Field, r: NumericalValueRange) -> Seq<(Field, Seq<char>)> {
    single(f, r != NumericalValueRange::Any, number_wire(r))
}

/// The parameters a search sends for field `f`, in order.
pub open spec fn block(m: QueryModel, f: Field) -> Seq<(Field, Seq<char>)> {
    match f {
        Field::Query => single(f, m.any_field.len() > 0, m.any_field),
        Field::Title => single(f, m.title.len() > 0, m.title),
        Field::Authors => names(f, m.authors),
        Field::RevisedAt => single(f, m.date != DateRange::Any, date_wire(m.date)),
        Field::Complete => single(
            f,
            m.completion_status != CompletionStatus::Ignore,
            completion_wire(m.completion_status),
        ),
        Field::Crossover => single(
            f,
            m.crossover_status != CrossoverStatus::Ignore,
            crossover_wire(m.crossover_status),
        ),
        Field::SingleChapter => seq![(f, bool_wire(m.is_single_chapter))],
        Field::WordCount => count(f, m.word_count),
        Field::FandomNames => names(f, m.fandoms),
        Field::RatingIds => single(f, m.rating != Rating::Any, rating_wire(m.rating)),
        Field::ArchiveWarningIds => m.archive_warnings.map_values(
            |w: ArchiveWarning| (Field::ArchiveWarningIds, decimal(warning_id(w))),
        ),
        Field::CategoryIds => m.categories.map_values(
            |c: Category| (Field::CategoryIds, decimal(category_id(c))),
        ),
        Field::CharacterNames => names(f, m.characters),
        Field::RelationshipName => names(f, m.relationships),
        Field::FreeformNames => names(f, m.additional_tags),
        Field::Hits => count(f, m.hits),
        Field::KudosCount => count(f, m.kudos),
        Field::CommentsCount => count(f, m.comments),
        Field::BookmarksCount => count(f, m.bookmarks),
        Field::SortColumn => seq![(f, "_score"@)],
        Field::SortDirection => seq![(f, direction_wire(m.sort_direction))],
    }
}

/// The parameters of the first `k` fields of the fixed order.
pub open spec fn params_upto(m: QueryModel, k: nat) -> Seq<(Field, Seq<char>)>
    decreases k,
{
    if k == 0 {
        Seq::empty()
    } else {
        params_upto(m, (k - 1) as nat) + block(m, field_at((k - 1) as nat))
    }
}

/// Every parameter a search sends, in the fixed order of the fields.
pub open spec fn query_params(m: QueryModel) -> Seq<(Field, Seq<char>)> {
    params_upto(m, field_count())
}

/// `name=value`
pub open spec fn entry(p: (Field, Seq<char>)) -> Seq<char> {
    field_key(p.0) + "="@ + p.1
}

pub open spec fn entries(ps: Seq<(Field, Seq<char>)>) -> Seq<Seq<char>> {
    ps.map_values(|p: (Field, Seq<char>)| entry(p))
}

/// The query string of a search: its parameters joined by `&`.
pub open spec fn query_string(m: QueryModel) -> Seq<char> {
    join(entries(query_params(m)), "&"@)
}

/// The address a search is sent to, before its query string.
pub open spec fn search_base() -> Seq<char> {
    "https://archiveofourown.org/works/search?"@
}

/// A search of the archive: a set of optional filters and an order.
#[derive(Debug, Clone)]
pub struct AO3QueryBuilder {
    /// Searches everything
    any_field: String,
    /// Title of the work
    title: String,
    /// Authors or creators of the work
    authors: MultiString,
    /// When the work was last updated (or posted, if never updated)
    date: DateRange,
    /// Whether the work must be complete
    completion_status: CompletionStatus,
    /// Whether the work must be a crossover
    crossover_status: CrossoverStatus,
    /// Only works of a single chapter
    is_single_chapter: bool,
    word_count: NumericalValueRange,
    fandoms: MultiString,
    rating: Rating,
    archive_warnings: MultiSelect<ArchiveWarning>,
    categories: MultiSelect<Category>,
    characters: MultiString,
    relationships: MultiString,
    additional_tags: MultiString,
    hits: NumericalValueRange,
    kudos: NumericalValueRange,
    comments: NumericalValueRange,
    bookmarks: NumericalValueRange,
    sort_by: SortBy,
    sort_direction: SortDirection,
}

impl View for AO3QueryBuilder {
    type V = QueryModel;

    closed spec fn view(&self) -> QueryModel {
        QueryModel {
            any_field: self.any_field@,
            title: self.title@,
            authors: self.authors@,
            date: self.date,
            completion_status: self.completion_status,
            crossover_status: self.crossover_status,
            is_single_chapter: self.is_single_chapter,
            word_count: self.word_count,
            fandoms: self.fandoms@,
            rating: self.rating,
            archive_warnings: self.archive_warnings.0@,
            categories: self.categories.0@,
            characters: self.characters@,
            relationships: self.relationships@,
            additional_tags: self.additional_tags@,
            hits: self.hits,
            kudos: self.kudos,
            comments: self.comments,
            bookmarks: self.bookmarks,
            sort_by: self.sort_by,
            sort_direction: self.sort_direction,
        }
    }
}

/// Appends `name=value` for parameter `f`.
fn push_entry(es: &mut Vec<String>, f: Field, v: String)
    ensures
        views(final(es)@) == views(old(es)@).push(entry((f, v@))),
{
    let mut e = String::from_str(f.key());
    e.append("=");
    e.append(v.as_str());
    let ghost before = es@;
    es.push(e);
    assert(views(es@) =~= views(before).push(entry((f, v@))));
}

/// Appends `name=value` for parameter `f` and each value of `vals`, in order.
fn push_entries(es: &mut Vec<String>, f: Field, vals: &Vec<String>)
    ensures
        views(final(es)@) == views(old(es)@) + views(vals@).map_values(|v: Seq<char>| entry((f, v))),
{
    let ghost start = views(es@);
    let mut i: usize = 0;
    while i < vals.len()
        invariant
            i <= vals@.len(),
            views(es@) =~= start + views(vals@.take(i as int)).map_values(|v: Seq<char>| entry((f, v))),
        decreases vals@.len() - i,
    {
        push_entry(es, f, vals[i].clone());
        i = i + 1;
    }
    assert(vals@.take(vals@.len() as int) =~= vals@);
}

/// `head value` on a line of its own when `shown` holds, else nothing.
pub open spec fn line(shown: bool, head: Seq<char>, value: Seq<char>) -> Seq<char> {
    if shown {
        head + value + "\n"@
    } else {
        Seq::empty()
    }
}

pub open spec fn warning_labels(ws: Seq<ArchiveWarning>) -> Seq<Seq<char>> {
    ws.map_values(|w: ArchiveWarning| warning_label(w))
}

pub open spec fn category_labels(cs: Seq<Category>) -> Seq<Seq<char>> {
    cs.map_values(|c: Category| category_label(c))
}

/// A search described for people: a `Query:` line, then one tab-indented
/// line for each filter that takes part (the free-text field is not shown),
/// then the order.
pub open spec fn summary(m: QueryModel) -> Seq<char> {
    summary_filters(m)
        + line(m.characters.len() > 0, "\tcharacters: "@, bracketed(m.characters))
        + line(m.relationships.len() > 0, "\trelationships: "@, bracketed(m.relationships))
        + line(m.additional_tags.len() > 0, "\tadditional tags: "@, bracketed(m.additional_tags))
        + line(m.hits != NumericalValueRange::Any, "\thits: "@, number_label(m.hits))
        + line(m.kudos != NumericalValueRange::Any, "\tkudos: "@, number_label(m.kudos))
        + line(m.comments != NumericalValueRange::Any, "\tcomments: "@, number_label(m.comments))
        + line(m.bookmarks != NumericalValueRange::Any, "\tbookmarks: "@, number_label(m.bookmarks))
        + line(true, "\tSort by: "@, "Best Match"@)
        + line(true, "\tSort direction: "@, direction_label(m.sort_direction))
}

/// The summary up to the categories.
pub open spec fn summary_filters(m: QueryModel) -> Seq<char> {
    summary_head(m)
        + line(m.word_count != NumericalValueRange::Any, "\tword count: "@, number_label(m.word_count))
        + line(m.fandoms.len() > 0, "\tfandoms: "@, bracketed(m.fandoms))
        + line(m.rating != Rating::Any, "\trating: "@, rating_label(m.rating))
        + line(
            m.archive_warnings.len() > 0,
            "\tarchive warnings: "@,
            bracketed(warning_labels(m.archive_warnings)),
        )
        + line(m.categories.len() > 0, "\tcategories: "@, bracketed(category_labels(m.categories)))
}

/// The summary up to the single-chapter flag.
pub open spec fn summary_head(m: QueryModel) -> Seq<char> {
    "Query:\n"@
        + line(m.title.len() > 0, "\ttitle: "@, m.title)
        + line(m.authors.len() > 0, "\tauthor: "@, bracketed(m.authors))
        + line(m.date != DateRange::Any, "\tdate: "@, date_label(m.date))
        + line(
            m.completion_status != CompletionStatus::Ignore,
            "\tcompletion_status: "@,
            completion_label(m.completion_status),
        )
        + line(m.crossover_status != CrossoverStatus::Ignore, "\tcrossover: "@, crossover_label(m.crossover_status))
        + line(true, "\tis single chapter: "@, bool_label(m.is_single_chapter))
}

/// Appends `head value` on a line of its own when `x` takes part in a query.
fn push_line<T: QueryValue>(out: &mut String, head: &str, x: &T)
    ensures
        final(out)@ == old(out)@ + line(x.present(), head@, x.label()),
{
    if x.is_included() {
        let ghost before = out@;
        out.append(head);
        out.append(x.display().as_str());
        out.append("\n");
        assert(out@ =~= before + line(x.present(), head@, x.label()));
    } else {
        assert(out@ =~= old(out)@ + line(x.present(), head@, x.label()));
    }
}

/// Appends `head [ labels ]` on a line of its own when anything is selected.
fn push_selection<T: QueryValue>(out: &mut String, head: &str, x: &MultiSelect<T>)
    ensures
        final(out)@ == old(out)@ + line(
            x.0@.len() > 0,
            head@,
            bracketed(x.0@.map_values(|v: T| v.label())),
        ),
{
    if x.is_included() {
        let ghost before = out@;
        out.append(head);
        out.append(x.to_string().as_str());
        out.append("\n");
        assert(out@ =~= before + line(x.0@.len() > 0, head@, bracketed(x.0@.map_values(|v: T| v.label()))));
    } else {
        assert(out@ =~= old(out)@ + line(x.0@.len() > 0, head@, bracketed(x.0@.map_values(|v: T| v.label()))));
    }
}

/// Appends `name=value` for parameter `f` when `x` takes part in a query.
fn push_value<T: QueryValue>(es: &mut Vec<String>, f: Field, x: &T)
    ensures
        views(final(es)@) == views(old(es)@) + entries(single(f, x.present(), x.wire())),
{
    let ghost before = views(es@);
    if x.is_included() {
        push_entry(es, f, x.to_query_value());
        assert(entries(single(f, x.present(), x.wire())) =~= seq![entry((f, x.wire()))]);
        assert(views(es@) =~= before + entries(single(f, x.present(), x.wire())));
    } else {
        assert(views(es@) =~= before + entries(single(f, x.present(), x.wire())));
    }
}

proof fn lemma_entries_step(m: QueryModel, k: nat)
    ensures
        entries(params_upto(m, k + 1)) == entries(params_upto(m, k)) + entries(block(m, field_at(k))),
{
    assert(entries(params_upto(m, k + 1)) =~= entries(params_upto(m, k)) + entries(block(m, field_at(k))));
}

impl AO3QueryBuilder {
    /// A search with every filter at its neutral value, best matches first.
    pub fn new() -> (r: Self)
        ensures
            r@ == default_model(),
    {
        let r = AO3QueryBuilder {
            any_field: String::new(),
            title: String::new(),
            authors: MultiString(Vec::new()),
            date: DateRange::Any,
            completion_status: CompletionStatus::Ignore,
            crossover_status: CrossoverStatus::Ignore,
            is_single_chapter: false,
            word_count: NumericalValueRange::Any,
            fandoms: MultiString(Vec::new()),
            rating: Rating::Any,
            archive_warnings: MultiSelect(Vec::new()),
            categories: MultiSelect(Vec::new()),
            characters: MultiString(Vec::new()),
            relationships: MultiString(Vec::new()),
            additional_tags: MultiString(Vec::new()),
            hits: NumericalValueRange::Any,
            kudos: NumericalValueRange::Any,
            comments: NumericalValueRange::Any,
            bookmarks: NumericalValueRange::Any,
            sort_by: SortBy::BestMatch,
            sort_direction: SortDirection::Descending,
        };
        assert(r@.authors =~= Seq::<Seq<char>>::empty());
        assert(r@.fandoms =~= Seq::<Seq<char>>::empty());
        assert(r@.characters =~= Seq::<Seq<char>>::empty());
        assert(r@.relationships =~= Seq::<Seq<char>>::empty());
        assert(r@.additional_tags =~= Seq::<Seq<char>>::empty());
        r
    }

    /// Searches every field of a work for `query`.
    pub fn set_query(self, query: &str) -> (r: Self)
        ensures
            r@ == (QueryModel { any_field: query@, ..self@ }),
    {
        let mut b = self;
        b.any_field = String::from_str(query);
        b
    }

    /// Sets the title searched for.
    pub fn set_title(self, title: &str) -> (r: Self)
        ensures
            r@ == (QueryModel { title: title@, ..self@ }),
    {
        let mut b = self;
        b.title = String::from_str(title);
        b
    }

    /// The title searched for.
    pub fn get_title(&self) -> (r: &str)
        ensures
            r@ == self@.title,
    {
        self.title.as_str()
    }

    /// Sets the authors searched for.
    pub fn set_authors(self, authors: Vec<String>) -> (r: Self)
        ensures
            r@ == (QueryModel { authors: views(authors@), ..self@ }),
    {
        let mut b = self;
        b.authors = MultiString(authors);
        b
    }

    /// Adds an author to those searched for.
    pub fn push_author(self, author: String) -> (r: Self)
        ensures
            r@ == (QueryModel { authors: self@.authors.push(author@), ..self@ }),
    {
        let mut b = self;
        b.authors.0.push(author);
        assert(b@.authors =~= self@.authors.push(author@));
        b
    }

    /// The authors searched for, e.g. `[ a, b ]`.
    pub fn get_authors(&self) -> (r: String)
        ensures
            r@ == bracketed(self@.authors),
    {
        self.authors.display()
    }

    /// Sets when the works were last updated.
    pub fn set_date_range(self, date: DateRange) -> (r: Self)
        ensures
            r@ == (QueryModel { date: date, ..self@ }),
    {
        let mut b = self;
        b.date = date;
        b
    }

    /// When the works were last updated, described for people.
    pub fn get_date_range(&self) -> (r: String)
        ensures
            r@ == date_label(self@.date),
    {
        self.date.to_string()
    }

    /// Only complete works.
    pub fn only_completed(self) -> (r: Self)
        ensures
            r@ == (QueryModel { completion_status: CompletionStatus::OnlyCompleted, ..self@ }),
    {
        let mut b = self;
        b.completion_status = CompletionStatus::OnlyCompleted;
        b
    }

    /// Complete or not, either way.
    pub fn ignore_completion_status(self) -> (r: Self)
        ensures
            r@ == (QueryModel { completion_status: CompletionStatus::Ignore, ..self@ }),
    {
        let mut b = self;
        b.completion_status = CompletionStatus::Ignore;
        b
    }

    /// Only works still in progress.
    pub fn only_incomplete(self) -> (r: Self)
        ensures
            r@ == (QueryModel { completion_status: CompletionStatus::OnlyIncomplete, ..self@ }),
    {
        let mut b = self;
        b.completion_status = CompletionStatus::OnlyIncomplete;
        b
    }

    /// The completion filter, described for people.
    pub fn get_completion_status(&self) -> (r: String)
        ensures
            r@ == completion_label(self@.completion_status),
    {
        self.completion_status.to_string()
    }

    /// Only crossovers.
    pub fn only_crossover(self) -> (r: Self)
        ensures
            r@ == (QueryModel { crossover_status: CrossoverStatus::OnlyCrossover, ..self@ }),
    {
        let mut b = self;
        b.crossover_status = CrossoverStatus::OnlyCrossover;
        b
    }

    /// Crossover or not, either way.
    pub fn ignore_crossover_status(self) -> (r: Self)
        ensures
            r@ == (QueryModel { crossover_status: CrossoverStatus::Ignore, ..self@ }),
    {
        let mut b = self;
        b.crossover_status = CrossoverStatus::Ignore;
        b
    }

    /// Only works of a single fandom.
    pub fn only_non_crossover(self) -> (r: Self)
        ensures
            r@ == (QueryModel { crossover_status: CrossoverStatus::OnlyNonCrossover, ..self@ }),
    {
        let mut b = self;
        b.crossover_status = CrossoverStatus::OnlyNonCrossover;
        b
    }

    /// The crossover filter, described for people.
    pub fn get_crossover_status(&self) -> (r: String)
        ensures
            r@ == crossover_label(self@.crossover_status),
    {
        self.crossover_status.to_string()
    }

    /// Whether only works of a single chapter are wanted.
    pub fn single_chapter(self, is_single_chapter: bool) -> (r: Self)
        ensures
            r@ == (QueryModel { is_single_chapter: is_single_chapter, ..self@ }),
    {
        let mut b = self;
        b.is_single_chapter = is_single_chapter;
        b
    }

    /// Whether only works of a single chapter are wanted.
    pub fn is_single_chapter(&self) -> (r: &bool)
        ensures
            *r == self@.is_single_chapter,
    {
        &self.is_single_chapter
    }

    /// Sets the word count wanted.
    pub fn set_word_count(self, word_count: NumericalValueRange) -> (r: Self)
        ensures
            r@ == (QueryModel { word_count: word_count, ..self@ }),
    {
        let mut b = self;
        b.word_count = word_count;
        b
    }

    /// The word count wanted, described for people.
    pub fn get_word_count(&self) -> (r: String)
        ensures
            r@ == number_label(self@.word_count),
    {
        self.word_count.to_string()
    }

    /// Sets the fandoms searched for.
    pub fn set_fandoms(self, fandoms: Vec<String>) -> (r: Self)
        ensures
            r@ == (QueryModel { fandoms: views(fandoms@), ..self@ }),
    {
        let mut b = self;
        b.fandoms = MultiString(fandoms);
        b
    }

    /// Adds a fandom to those searched for.
    pub fn push_fandom(self, fandom: &str) -> (r: Self)
        ensures
            r@ == (QueryModel { fandoms: self@.fandoms.push(fandom@), ..self@ }),
    {
        let mut b = self;
        b.fandoms.0.push(String::from_str(fandom));
        assert(b@.fandoms =~= self@.fandoms.push(fandom@));
        b
    }

    /// The fandoms searched for, e.g. `[ a, b ]`.
    pub fn get_fandoms(&self) -> (r: String)
        ensures
            r@ == bracketed(self@.fandoms),
    {
        self.fandoms.display()
    }

    /// Sets the rating wanted.
    pub fn set_rating(self, rating: Rating) -> (r: Self)
        ensures
            r@ == (QueryModel { rating: rating, ..self@ }),
    {
        let mut b = self;
        b.rating = rating;
        b
    }

    /// Sets the archive warnings wanted.
    pub fn set_archive_warnings(self, archive_warnings: Vec<ArchiveWarning>) -> (r: Self)
        ensures
            r@ == (QueryModel { archive_warnings: archive_warnings@, ..self@ }),
    {
        let mut b = self;
        b.archive_warnings = MultiSelect(archive_warnings);
        b
    }

    /// Adds an archive warning to those wanted.
    pub fn add_archive_warning(self, archive_warning: ArchiveWarning) -> (r: Self)
        ensures
            r@ == (QueryModel { archive_warnings: self@.archive_warnings.push(archive_warning), ..self@ }),
    {
        let mut b = self;
        b.archive_warnings.0.push(archive_warning);
        b
    }

    /// Sets the categories wanted.
    pub fn set_categories(self, categories: Vec<Category>) -> (r: Self)
        ensures
            r@ == (QueryModel { categories: categories@, ..self@ }),
    {
        let mut b = self;
        b.categories = MultiSelect(categories);
        b
    }

    /// Adds a category to those wanted.
    pub fn push_category(self, category: Category) -> (r: Self)
        ensures
            r@ == (QueryModel { categories: self@.categories.push(category), ..self@ }),
    {
        let mut b = self;
        b.categories.0.push(category);
        b
    }

    /// Sets the characters searched for.
    pub fn set_characters(self, characters: Vec<String>) -> (r: Self)
        ensures
            r@ == (QueryModel { characters: views(characters@), ..self@ }),
    {
        let mut b = self;
        b.characters = MultiString(characters);
        b
    }

    /// Adds one to the characters searched for.
    pub fn push_character(self, character: String) -> (r: Self)
        ensures
            r@ == (QueryModel { characters: self@.characters.push(character@), ..self@ }),
    {
        let mut b = self;
        b.characters.0.push(character);
        assert(b@.characters =~= self@.characters.push(character@));
        b
    }

    /// Sets the relationships searched for.
    pub fn set_relationships(self, relationships: Vec<String>) -> (r: Self)
        ensures
            r@ == (QueryModel { relationships: views(relationships@), ..self@ }),
    {
        let mut b = self;
        b.relationships = MultiString(relationships);
        b
    }

    /// Adds one to the relationships searched for.
    pub fn push_relationship(self, relationship: String) -> (r: Self)
        ensures
            r@ == (QueryModel { relationships: self@.relationships.push(relationship@), ..self@ }),
    {
        let mut b = self;
        b.relationships.0.push(relationship);
        assert(b@.relationships =~= self@.relationships.push(relationship@));
        b
    }

    /// Sets the additional tags searched for.
    pub fn set_additional_tags(self, additional_tags: Vec<String>) -> (r: Self)
        ensures
            r@ == (QueryModel { additional_tags: views(additional_tags@), ..self@ }),
    {
        let mut b = self;
        b.additional_tags = MultiString(additional_tags);
        b
    }

    /// Adds one to the additional tags searched for.
    pub fn push_additional_tag(self, additional_tag: String) -> (r: Self)
        ensures
            r@ == (QueryModel { additional_tags: self@.additional_tags.push(additional_tag@), ..self@ }),
    {
        let mut b = self;
        b.additional_tags.0.push(additional_tag);
        assert(b@.additional_tags =~= self@.additional_tags.push(additional_tag@));
        b
    }

    /// Sets the number of hits wanted.
    pub fn set_hits(self, hits: NumericalValueRange) -> (r: Self)
        ensures
            r@ == (QueryModel { hits: hits, ..self@ }),
    {
        let mut b = self;
        b.hits = hits;
        b
    }

    /// Sets the number of kudos wanted.
    pub fn set_kudos(self, kudos: NumericalValueRange) -> (r: Self)
        ensures
            r@ == (QueryModel { kudos: kudos, ..self@ }),
    {
        let mut b = self;
        b.kudos = kudos;
        b
    }

    /// Sets the number of comments wanted.
    pub fn set_comments(self, comments: NumericalValueRange) -> (r: Self)
        ensures
            r@ == (QueryModel { comments: comments, ..self@ }),
    {
        let mut b = self;
        b.comments = comments;
        b
    }

    /// Sets the number of bookmarks wanted.
    pub fn set_bookmarks(self, bookmarks: NumericalValueRange) -> (r: Self)
        ensures
            r@ == (QueryModel { bookmarks: bookmarks, ..self@ }),
    {
        let mut b = self;
        b.bookmarks = bookmarks;
        b
    }

    /// Sets the order of the results.
    pub fn set_sort_by(self, sort_by: SortBy) -> (r: Self)
        ensures
            r@ == (QueryModel { sort_by: sort_by, ..self@ }),
    {
        let mut b = self;
        b.sort_by = sort_by;
        b
    }

    /// Sets the direction of the order.
    pub fn set_sort_direction(self, sort_direction: SortDirection) -> (r: Self)
        ensures
            r@ == (QueryModel { sort_direction: sort_direction, ..self@ }),
    {
        let mut b = self;
        b.sort_direction = sort_direction;
        b
    }

    fn describe_head(&self, out: &mut String)
        requires
            old(out)@ == "Query:\n"@,
        ensures
            final(out)@ == summary_head(self@),
    {
        push_line(out, "\ttitle: ", &self.title);
        push_line(out, "\tauthor: ", &self.authors);
        push_line(out, "\tdate: ", &self.date);
        push_line(out, "\tcompletion_status: ", &self.completion_status);
        push_line(out, "\tcrossover: ", &self.crossover_status);
        push_line(out, "\tis single chapter: ", &self.is_single_chapter);
    }

    fn describe_filters(&self, out: &mut String)
        requires
            old(out)@ == summary_head(self@),
        ensures
            final(out)@ == summary_filters(self@),
    {
        let ghost m = self@;
        push_line(out, "\tword count: ", &self.word_count);
        push_line(out, "\tfandoms: ", &self.fandoms);
        push_line(out, "\trating: ", &self.rating);
        push_selection(out, "\tarchive warnings: ", &self.archive_warnings);
        assert(self.archive_warnings.0@.map_values(|v: ArchiveWarning| v.label()) =~= warning_labels(
            m.archive_warnings,
        ));
        push_selection(out, "\tcategories: ", &self.categories);
        assert(self.categories.0@.map_values(|v: Category| v.label()) =~= category_labels(m.categories));
    }

    fn describe_rest(&self, out: &mut String)
        requires
            old(out)@ == summary_filters(self@),
        ensures
            final(out)@ == summary(self@),
    {
        push_line(out, "\tcharacters: ", &self.characters);
        push_line(out, "\trelationships: ", &self.relationships);
        push_line(out, "\tadditional tags: ", &self.additional_tags);
        push_line(out, "\thits: ", &self.hits);
        push_line(out, "\tkudos: ", &self.kudos);
        push_line(out, "\tcomments: ", &self.comments);
        push_line(out, "\tbookmarks: ", &self.bookmarks);
        push_line(out, "\tSort by: ", &self.sort_by);
        push_line(out, "\tSort direction: ", &self.sort_direction);
    }

    /// The search described for people.
    pub fn to_string(&self) -> (r: String)
        ensures
            r@ == summary(self@),
    {
        let mut out = String::from_str("Query:\n");
        self.describe_head(&mut out);
        self.describe_filters(&mut out);
        self.describe_rest(&mut out);
        out
    }

    fn render_first_fields(&self, es: &mut Vec<String>)
        requires
            views(old(es)@) == entries(params_upto(self@, 0)),
        ensures
            views(final(es)@) == entries(params_upto(self@, 7)),
    {
        let ghost m = self@;
        push_value(es, Field::Query, &self.any_field);
        proof { lemma_entries_step(m, 0); }
        push_value(es, Field::Title, &self.title);
        proof { lemma_entries_step(m, 1); }
        push_value(es, Field::Authors, &self.authors);
        proof { lemma_entries_step(m, 2); }
        push_value(es, Field::RevisedAt, &self.date);
        proof { lemma_entries_step(m, 3); }
        push_value(es, Field::Complete, &self.completion_status);
        proof { lemma_entries_step(m, 4); }
        push_value(es, Field::Crossover, &self.crossover_status);
        proof { lemma_entries_step(m, 5); }
        push_value(es, Field::SingleChapter, &self.is_single_chapter);
        proof { lemma_entries_step(m, 6); }
    }

    fn render_middle_fields(&self, es: &mut Vec<String>)
        requires
            views(old(es)@) == entries(params_upto(self@, 7)),
        ensures
            views(final(es)@) == entries(params_upto(self@, 14)),
    {
        let ghost m = self@;
        push_value(es, Field::WordCount, &self.word_count);
        proof { lemma_entries_step(m, 7); }
        push_value(es, Field::FandomNames, &self.fandoms);
        proof { lemma_entries_step(m, 8); }
        push_value(es, Field::RatingIds, &self.rating);
        proof { lemma_entries_step(m, 9); }
        let warnings = self.archive_warnings.to_query_values();
        push_entries(es, Field::ArchiveWarningIds, &warnings);
        proof {
            lemma_entries_step(m, 10);
            assert(views(warnings@).map_values(|v: Seq<char>| entry((Field::ArchiveWarningIds, v)))
                =~= entries(block(m, Field::ArchiveWarningIds)));
        }
        let categories = self.categories.to_query_values();
        push_entries(es, Field::CategoryIds, &categories);
        proof {
            lemma_entries_step(m, 11);
            assert(views(categories@).map_values(|v: Seq<char>| entry((Field::CategoryIds, v)))
                =~= entries(block(m, Field::CategoryIds)));
        }
        push_value(es, Field::CharacterNames, &self.characters);
        proof { lemma_entries_step(m, 12); }
        push_value(es, Field::RelationshipName, &self.relationships);
        proof { lemma_entries_step(m, 13); }
    }

    fn render_last_fields(&self, es: &mut Vec<String>)
        requires
            views(old(es)@) == entries(params_upto(self@, 14)),
        ensures
            views(final(es)@) == entries(params_upto(self@, 21)),
    {
        let ghost m = self@;
        push_value(es, Field::FreeformNames, &self.additional_tags);
        proof { lemma_entries_step(m, 14); }
        push_value(es, Field::Hits, &self.hits);
        proof { lemma_entries_step(m, 15); }
        push_value(es, Field::KudosCount, &self.kudos);
        proof { lemma_entries_step(m, 16); }
        push_value(es, Field::CommentsCount, &self.comments);
        proof { lemma_entries_step(m, 17); }
        push_value(es, Field::BookmarksCount, &self.bookmarks);
        proof { lemma_entries_step(m, 18); }
        push_value(es, Field::SortColumn, &self.sort_by);
        proof { lemma_entries_step(m, 19); }
        push_value(es, Field::SortDirection, &self.sort_direction);
        proof { lemma_entries_step(m, 20); }
    }

    /// The query string: one `name=value` per parameter that takes part,
    /// in the fixed order of the fields, joined by `&`.
    pub fn render_query_string(&self) -> (r: String)
        ensures
            r@ == query_string(self@),
    {
        let mut es: Vec<String> = Vec::new();
        assert(views(es@) =~= entries(params_upto(self@, 0)));
        self.render_first_fields(&mut es);
        self.render_middle_fields(&mut es);
        self.render_last_fields(&mut es);
        join_strings(&es, "&")
    }

    /// The full address of the search: the search page followed by the
    /// query string.
    pub fn create_url(&self) -> (r: String)
        ensures
            r@ == search_base() + query_string(self@),
    {
        prefixed("https://archiveofourown.org/works/search?", self.render_query_string())
    }
}

impl Default for DateRange {
    fn default() -> (r: Self)
        ensures
            r == DateRange::Any,
    {
        DateRange::Any
    }
}

impl Default for NumericalValueRange {
    fn default() -> (r: Self)
        ensures
            r == NumericalValueRange::Any,
    {
        NumericalValueRange::Any
    }
}

impl Default for CompletionStatus {
    fn default() -> (r: Self)
        ensures
            r == CompletionStatus::Ignore,
    {
        CompletionStatus::Ignore
    }
}

impl Default for CrossoverStatus {
    fn default() -> (r: Self)
        ensures
            r == CrossoverStatus::Ignore,
    {
        CrossoverStatus::Ignore
    }
}

impl Default for Rating {
    fn default() -> (r: Self)
        ensures
            r == Rating::Any,
    {
        Rating::Any
    }
}

impl Default for SortBy {
    fn default() -> (r: Self)
        ensures
            r == SortBy::BestMatch,
    {
        SortBy::BestMatch
    }
}

impl Default for SortDirection {
    fn default() -> (r: Self)
        ensures
            r == SortDirection::Descending,
    {
        SortDirection::Descending
    }
}

impl Default for AO3QueryBuilder {
    fn default() -> (r: Self)
        ensures
            r@ == default_model(),
    {
        AO3QueryBuilder::new()
    }
}

/// How many parameters field `f` contributes: one when it takes part (the
/// single-chapter flag and the order always do), or one per element for
/// the coded selections.
pub open spec fn expected_count(m: QueryModel, f: Field) -> nat {
    match f {
        Field::Query => if m.any_field.len() > 0 { 1 } else { 0 },
        Field::Title => if m.title.len() > 0 { 1 } else { 0 },
        Field::Authors => if m.authors.len() > 0 { 1 } else { 0 },
        Field::RevisedAt => if m.date != DateRange::Any { 1 } else { 0 },
        Field::Complete => if m.completion_status != CompletionStatus::Ignore { 1 } else { 0 },
        Field::Crossover => if m.crossover_status != CrossoverStatus::Ignore { 1 } else { 0 },
        Field::SingleChapter => 1,
        Field::WordCount => if m.word_count != NumericalValueRange::Any { 1 } else { 0 },
        Field::FandomNames => if m.fandoms.len() > 0 { 1 } else { 0 },
        Field::RatingIds => if m.rating != Rating::Any { 1 } else { 0 },
        Field::ArchiveWarningIds => m.archive_warnings.len(),
        Field::CategoryIds => m.categories.len(),
        Field::CharacterNames => if m.characters.len() > 0 { 1 } else { 0 },
        Field::RelationshipName => if m.relationships.len() > 0 { 1 } else { 0 },
        Field::FreeformNames => if m.additional_tags.len() > 0 { 1 } else { 0 },
        Field::Hits => if m.hits != NumericalValueRange::Any { 1 } else { 0 },
        Field::KudosCount => if m.kudos != NumericalValueRange::Any { 1 } else { 0 },
        Field::CommentsCount => if m.comments != NumericalValueRange::Any { 1 } else { 0 },
        Field::BookmarksCount => if m.bookmarks != NumericalValueRange::Any { 1 } else { 0 },
        Field::SortColumn => 1,
        Field::SortDirection => 1,
    }
}

pub open spec fn of_field(f: Field) -> spec_fn((Field, Seq<char>)) -> bool {
    |p: (Field, Seq<char>)| p.0 == f
}

/// How many of the parameters `ps` are sent under field `f`.
pub open spec fn occurrences(ps: Seq<(Field, Seq<char>)>, f: Field) -> nat {
    ps.filter(of_field(f)).len()
}

/// Whether the parameters `ps` follow the fixed order of the fields.
pub open spec fn in_field_order(ps: Seq<(Field, Seq<char>)>) -> bool {
    forall|i: int, j: int| 0 <= i < j < ps.len() ==> rank(#[trigger] ps[i].0) <= rank(#[trigger] ps[j].0)
}

proof fn lemma_field_rank(k: nat)
    requires
        k < field_count(),
    ensures
        rank(field_at(k)) == k,
{
}

proof fn lemma_rank_field(f: Field)
    ensures
        field_at(rank(f)) == f,
        rank(f) < field_count(),
{
}

proof fn lemma_block_shape(m: QueryModel, g: Field)
    ensures
        block(m, g).len() == expected_count(m, g),
        forall|i: int| 0 <= i < block(m, g).len() ==> (#[trigger] block(m, g)[i]).0 == g,
{
}

proof fn lemma_filter_uniform(ps: Seq<(Field, Seq<char>)>, g: Field, f: Field)
    requires
        forall|i: int| 0 <= i < ps.len() ==> (#[trigger] ps[i]).0 == g,
    ensures
        ps.filter(of_field(f)).len() == if g == f { ps.len() } else { 0 },
    decreases ps.len(),
{
    reveal(Seq::filter);
    if ps.len() > 0 {
        lemma_filter_uniform(ps.drop_last(), g, f);
    }
}

proof fn lemma_occurrences_upto(m: QueryModel, k: nat, f: Field)
    requires
        k <= field_count(),
    ensures
        occurrences(params_upto(m, k), f) == if rank(f) < k { expected_count(m, f) } else { 0 },
    decreases k,
{
    if k > 0 {
        let prev = (k - 1) as nat;
        lemma_occurrences_upto(m, prev, f);
        let g = field_at(prev);
        lemma_block_shape(m, g);
        lemma_filter_uniform(block(m, g), g, f);
        Seq::filter_distributes_over_add(params_upto(m, prev), block(m, g), of_field(f));
        lemma_field_rank(prev);
        lemma_rank_field(f);
    }
}

proof fn lemma_order_upto(m: QueryModel, k: nat)
    requires
        k <= field_count(),
    ensures
        in_field_order(params_upto(m, k)),
        forall|i: int| 0 <= i < params_upto(m, k).len() ==> rank(#[trigger] params_upto(m, k)[i].0) < k,
    decreases k,
{
    if k > 0 {
        let prev = (k - 1) as nat;
        lemma_order_upto(m, prev);
        let g = field_at(prev);
        lemma_block_shape(m, g);
        lemma_field_rank(prev);
        let a = params_upto(m, prev);
        let b = block(m, g);
        assert(params_upto(m, k) == a + b);
        assert forall|i: int, j: int| 0 <= i < j < (a + b).len() implies rank(#[trigger] (a + b)[i].0) <= rank(
            #[trigger] (a + b)[j].0,
        ) by {
            if j < a.len() {
                assert((a + b)[i] == a[i] && (a + b)[j] == a[j]);
            } else if i < a.len() {
                assert((a + b)[i] == a[i] && (a + b)[j] == b[j - a.len()]);
            } else {
                assert((a + b)[i] == b[i - a.len()] && (a + b)[j] == b[j - a.len()]);
            }
        }
        assert forall|i: int| 0 <= i < (a + b).len() implies rank(#[trigger] (a + b)[i].0) < k by {
            if i < a.len() {
                assert((a + b)[i] == a[i]);
            } else {
                assert((a + b)[i] == b[i - a.len()]);
            }
        }
    }
}

/// A search sends each field under its own name exactly as often as the
/// field takes part: never for a field left at its neutral value, once for
/// a field that is set, and once per element for the coded selections.
pub proof fn lemma_omission(m: QueryModel, f: Field)
    ensures
        occurrences(query_params(m), f) == expected_count(m, f),
{
    lemma_occurrences_upto(m, field_count(), f);
    lemma_rank_field(f);
}

/// The parameters of a search come in the fixed order of the fields,
/// whatever order the filters were set in.
pub proof fn lemma_field_order(m: QueryModel)
    ensures
        in_field_order(query_params(m)),
{
    lemma_order_upto(m, field_count());
}

/// The query string depends on the state of the search alone: two searches
/// with the same filters render the same string.
pub proof fn lemma_render_deterministic(a: QueryModel, b: QueryModel)
    requires
        a == b,
    ensures
        query_string(a) == query_string(b),
{
}

/// The wire form of a range depends on the range alone: equal ranges
/// render alike, every time.
pub proof fn lemma_range_render_pure(a: DateRange, b: DateRange, c: NumericalValueRange, d: NumericalValueRange)
    requires
        a == b,
        c == d,
    ensures
        date_wire(a) == date_wire(b),
        number_wire(c) == number_wire(d),
{
}

} // verus!
