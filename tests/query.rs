use ao3rs::query::QueryValue;
use ao3rs::text::decimal_text;
use ao3rs::{
    AO3QueryBuilder, ArchiveWarning, Category, CompletionStatus, CrossoverStatus, DateRange, MultiSelect,
    MultiString, NumericalValueRange, Period, Rating, SortBy, SortDirection,
};

const DEFAULT_QUERY: &str =
    "work_search[single_chapter]=0&work_search[sort_column]=_score&work_search[sort_direction]=desc";

#[test]
fn date_range_wire_forms() {
    assert_eq!(DateRange::Exactly(7, Period::Days).to_query_value(), "7 days ago");
    assert_eq!(DateRange::LessThan(7, Period::Days).to_query_value(), "< 7 days ago");
    assert_eq!(DateRange::MoreThan(8, Period::Weeks).to_query_value(), "> 8 weeks ago");
    assert_eq!(DateRange::Between(13, 21, Period::Months).to_query_value(), "13-21 months");
    assert_eq!(DateRange::Exactly(1, Period::Weeks).to_query_value(), "1 weeks ago");
    assert_eq!(DateRange::Exactly(3, Period::Years).to_query_value(), "3 years ago");
    assert_eq!(DateRange::Exactly(2, Period::Hours).to_query_value(), "2 hours ago");
    assert_eq!(DateRange::Any.to_query_value(), "");
}

#[test]
fn date_range_presence_and_labels() {
    assert!(!DateRange::Any.is_included());
    assert!(DateRange::Exactly(0, Period::Days).is_included());
    assert_eq!(DateRange::MoreThan(8, Period::Weeks).to_string(), "More than 8 weeks ago");
    assert_eq!(DateRange::Exactly(7, Period::Days).to_string(), "Exactly 7 days ago");
    assert_eq!(DateRange::LessThan(7, Period::Days).to_string(), "Less than 7 days ago");
    assert_eq!(DateRange::Between(13, 21, Period::Months).to_string(), "Between 13 and 21 months ago");
    assert_eq!(DateRange::Any.to_string(), "None");
}

#[test]
fn rendering_a_range_twice_gives_the_same_text() {
    let d = DateRange::Between(13, 21, Period::Months);
    assert_eq!(d.to_query_value(), d.to_query_value());
    let n = NumericalValueRange::MoreThan(1000);
    assert_eq!(n.to_query_value(), n.to_query_value());
}

#[test]
fn period_names() {
    assert_eq!(Period::Years.to_string(), "years");
    assert_eq!(Period::Weeks.to_string(), "weeks");
    assert_eq!(Period::Months.to_string(), "months");
    assert_eq!(Period::Days.to_string(), "days");
    assert_eq!(Period::Hours.to_string(), "hours");
}

#[test]
fn numerical_range_forms() {
    assert_eq!(NumericalValueRange::Exactly(42).to_query_value(), "42");
    assert_eq!(NumericalValueRange::MoreThan(8).to_query_value(), "> 8");
    assert_eq!(NumericalValueRange::LessThan(5).to_query_value(), "< 5");
    assert_eq!(NumericalValueRange::Between(100, 2000).to_query_value(), "100-2000");
    assert_eq!(NumericalValueRange::Between(21, 13).to_query_value(), "21-13");
    assert_eq!(NumericalValueRange::Any.to_query_value(), "");
    assert!(!NumericalValueRange::Any.is_included());
    assert!(NumericalValueRange::Exactly(0).is_included());
    assert_eq!(NumericalValueRange::LessThan(5).to_string(), "Less than 5");
    assert_eq!(NumericalValueRange::Between(1, 2).to_string(), "Between 1 and 2");
}

#[test]
fn decimal_rendering() {
    assert_eq!(decimal_text(0), "0");
    assert_eq!(decimal_text(9), "9");
    assert_eq!(decimal_text(10), "10");
    assert_eq!(decimal_text(1234567), "1234567");
    assert_eq!(decimal_text(usize::MAX), usize::MAX.to_string());
}

#[test]
fn completion_tri_state() {
    assert_eq!(CompletionStatus::Ignore.to_query_value(), "");
    assert_eq!(CompletionStatus::OnlyCompleted.to_query_value(), "T");
    assert_eq!(CompletionStatus::OnlyIncomplete.to_query_value(), "F");
    assert!(!CompletionStatus::Ignore.is_included());
    assert!(CompletionStatus::OnlyCompleted.is_included());
    assert!(CompletionStatus::OnlyIncomplete.is_included());
    let none = AO3QueryBuilder::new().render_query_string();
    assert!(!none.contains("work_search[complete]"));
    let done = AO3QueryBuilder::new().only_completed().render_query_string();
    assert!(done.contains("work_search[complete]=T"));
    let open = AO3QueryBuilder::new().only_incomplete().render_query_string();
    assert!(open.contains("work_search[complete]=F"));
    let back = AO3QueryBuilder::new().only_completed().ignore_completion_status().render_query_string();
    assert_eq!(back, DEFAULT_QUERY);
}

#[test]
fn crossover_tri_state() {
    assert_eq!(CrossoverStatus::Ignore.to_query_value(), "");
    assert_eq!(CrossoverStatus::OnlyCrossover.to_query_value(), "T");
    assert_eq!(CrossoverStatus::OnlyNonCrossover.to_query_value(), "F");
    let q = AO3QueryBuilder::new().only_non_crossover().render_query_string();
    assert!(q.contains("work_search[crossover]=F"));
    let q = AO3QueryBuilder::new().only_crossover().ignore_crossover_status().render_query_string();
    assert_eq!(q, DEFAULT_QUERY);
}

#[test]
fn taxonomy_codes() {
    assert_eq!(Rating::NotRated.id(), 9);
    assert_eq!(Rating::General.id(), 10);
    assert_eq!(Rating::TeenAndUp.id(), 11);
    assert_eq!(Rating::Mature.id(), 12);
    assert_eq!(Rating::Explicit.id(), 13);
    assert_eq!(ArchiveWarning::CreatureChoseNotToUseArchiveWarnings.id(), 14);
    assert_eq!(ArchiveWarning::NoArchiveWarningsApply.id(), 16);
    assert_eq!(ArchiveWarning::GraphicDepictionOfViolence.id(), 17);
    assert_eq!(ArchiveWarning::MajorCharacterDeath.id(), 18);
    assert_eq!(ArchiveWarning::RapeNonCon.id(), 19);
    assert_eq!(ArchiveWarning::Underage.id(), 20);
    assert_eq!(Category::Gen.id(), 21);
    assert_eq!(Category::FM.id(), 22);
    assert_eq!(Category::MM.id(), 23);
    assert_eq!(Category::Other.id(), 24);
    assert_eq!(Category::FF.id(), 116);
    assert_eq!(Category::Multi.id(), 2246);
    assert_eq!(Rating::Explicit.to_query_value(), "13");
    assert_eq!(Category::Multi.to_query_value(), "2246");
    assert_eq!(ArchiveWarning::Underage.to_query_value(), "20");
    assert_eq!(Rating::Any.to_query_value(), "");
    assert!(!Rating::Any.is_included());
    assert!(Category::Gen.is_included());
    assert!(ArchiveWarning::RapeNonCon.is_included());
}

#[test]
fn labels_for_people() {
    assert_eq!(Rating::Mature.to_string(), "For Mature Audiences");
    assert_eq!(Rating::Any.to_string(), "None");
    assert_eq!(ArchiveWarning::RapeNonCon.to_string(), "Rape/Non-Con");
    assert_eq!(Category::FF.to_string(), "F/F");
    assert_eq!(SortBy::BestMatch.to_string(), "Best Match");
    assert_eq!(SortDirection::Ascending.to_string(), "Ascending order");
    assert_eq!(CompletionStatus::Ignore.to_string(), "Don't care");
    assert_eq!(CrossoverStatus::OnlyCrossover.to_string(), "Only allow crossovers");
}

#[test]
fn lists_and_selections() {
    let names = MultiString(vec![String::from("a"), String::from("b c")]);
    assert_eq!(names.to_query_value(), "a,b c");
    assert_eq!(names.display(), "[ a, b c ]");
    assert!(names.is_included());
    assert!(!MultiString(vec![]).is_included());
    let sel = MultiSelect(vec![Category::Gen, Category::Other]);
    assert_eq!(sel.to_query_values(), vec![String::from("21"), String::from("24")]);
    assert_eq!(sel.to_string(), "[ Gen, Other ]");
    assert!(!MultiSelect::<Category>(vec![]).is_included());
    assert_eq!(true.to_query_value(), "1");
    assert_eq!(false.to_query_value(), "0");
    assert!(false.is_included());
    assert!(!String::new().is_included());
}

#[test]
fn default_search_sends_only_fixed_fields() {
    let q = AO3QueryBuilder::new();
    assert_eq!(q.render_query_string(), DEFAULT_QUERY);
    assert_eq!(q.create_url(), format!("https://archiveofourown.org/works/search?{}", DEFAULT_QUERY));
}

#[test]
fn every_field_in_fixed_order() {
    let q = AO3QueryBuilder::new()
        .set_bookmarks(NumericalValueRange::Exactly(3))
        .set_sort_direction(SortDirection::Ascending)
        .set_comments(NumericalValueRange::MoreThan(2))
        .set_kudos(NumericalValueRange::LessThan(5))
        .set_hits(NumericalValueRange::Between(10, 20))
        .push_additional_tag(String::from("Fluff"))
        .push_relationship(String::from("A/B"))
        .push_character(String::from("A"))
        .push_category(Category::Gen)
        .add_archive_warning(ArchiveWarning::NoArchiveWarningsApply)
        .add_archive_warning(ArchiveWarning::Underage)
        .set_rating(Rating::Explicit)
        .push_fandom("F1")
        .push_fandom("F2")
        .set_word_count(NumericalValueRange::MoreThan(1000))
        .single_chapter(true)
        .only_crossover()
        .only_completed()
        .set_date_range(DateRange::LessThan(7, Period::Days))
        .push_author(String::from("me"))
        .set_title("T")
        .set_query("q");
    let expected = [
        "work_search[query]=q",
        "work_search[title]=T",
        "work_search[authors]=me",
        "work_search[revised_at]=< 7 days ago",
        "work_search[complete]=T",
        "work_search[crossover]=T",
        "work_search[single_chapter]=1",
        "work_search[word_count]=> 1000",
        "work_search[fandom_names]=F1,F2",
        "work_search[rating_ids]=13",
        "work_search[archive_warning_ids][]=16",
        "work_search[archive_warning_ids][]=20",
        "work_search[category_ids][]=21",
        "work_search[character_names]=A",
        "work_search[relationship_name]=A/B",
        "work_search[freeform_names]=Fluff",
        "work_search[hits]=10-20",
        "work_search[kudos_count]=< 5",
        "work_search[commets_count]=> 2",
        "work_search[bookmarks_count]=3",
        "work_search[sort_column]=_score",
        "work_search[sort_direction]=asc",
    ]
    .join("&");
    assert_eq!(q.render_query_string(), expected);
}

#[test]
fn setter_order_does_not_matter() {
    let a = AO3QueryBuilder::new()
        .set_title("Example")
        .set_rating(Rating::Mature)
        .set_kudos(NumericalValueRange::LessThan(5));
    let b = AO3QueryBuilder::new()
        .set_kudos(NumericalValueRange::LessThan(5))
        .set_rating(Rating::Mature)
        .set_title("Example");
    assert_eq!(a.render_query_string(), b.render_query_string());
    assert_eq!(a.render_query_string(), a.render_query_string());
}

#[test]
fn set_fields_appear_once_or_per_element() {
    let q = AO3QueryBuilder::new()
        .set_title("x")
        .set_categories(vec![Category::FF, Category::MM, Category::Multi])
        .render_query_string();
    assert_eq!(q.matches("work_search[title]=").count(), 1);
    assert_eq!(q.matches("work_search[category_ids][]=").count(), 3);
    assert_eq!(q.matches("work_search[archive_warning_ids]").count(), 0);
    assert_eq!(q.matches("work_search[rating_ids]").count(), 0);
    assert_eq!(q.matches("work_search[authors]").count(), 0);
    assert!(q.contains("work_search[category_ids][]=116&work_search[category_ids][]=23&work_search[category_ids][]=2246"));
}

#[test]
fn inverted_between_is_kept() {
    let q = AO3QueryBuilder::new().set_word_count(NumericalValueRange::Between(21, 13)).render_query_string();
    assert!(q.contains("work_search[word_count]=21-13"));
}

#[test]
fn getters_report_the_state() {
    let q = AO3QueryBuilder::new()
        .set_title("Example")
        .set_authors(vec![String::from("a"), String::from("b")])
        .set_date_range(DateRange::MoreThan(8, Period::Weeks))
        .only_incomplete()
        .only_crossover()
        .single_chapter(true)
        .set_word_count(NumericalValueRange::LessThan(5))
        .set_fandoms(vec![String::from("F")]);
    assert_eq!(q.get_title(), "Example");
    assert_eq!(q.get_authors(), "[ a, b ]");
    assert_eq!(q.get_date_range(), "More than 8 weeks ago");
    assert_eq!(q.get_completion_status(), "Only allow incomplete");
    assert_eq!(q.get_crossover_status(), "Only allow crossovers");
    assert!(*q.is_single_chapter());
    assert_eq!(q.get_word_count(), "Less than 5");
    assert_eq!(q.get_fandoms(), "[ F ]");
}

#[test]
fn summary_for_people() {
    let q = AO3QueryBuilder::new().set_kudos(NumericalValueRange::LessThan(5)).set_rating(Rating::Explicit);
    assert_eq!(
        q.to_string(),
        "Query:\n\tis single chapter: false\n\trating: Work is Explicit\n\tkudos: Less than 5\n\tSort by: Best Match\n\tSort direction: Descending order\n"
    );
    let q = AO3QueryBuilder::new()
        .set_title("T")
        .set_archive_warnings(vec![ArchiveWarning::MajorCharacterDeath])
        .set_characters(vec![String::from("A")])
        .set_relationships(vec![String::from("A/B")])
        .set_additional_tags(vec![String::from("Fluff")])
        .set_hits(NumericalValueRange::Exactly(1))
        .set_comments(NumericalValueRange::Exactly(2))
        .set_bookmarks(NumericalValueRange::Exactly(3))
        .set_sort_by(SortBy::BestMatch);
    assert_eq!(
        q.to_string(),
        "Query:\n\ttitle: T\n\tis single chapter: false\n\tarchive warnings: [ Major Character Death ]\n\tcharacters: [ A ]\n\trelationships: [ A/B ]\n\tadditional tags: [ Fluff ]\n\thits: Exactly 1\n\tcomments: Exactly 2\n\tbookmarks: Exactly 3\n\tSort by: Best Match\n\tSort direction: Descending order\n"
    );
}

#[test]
fn neutral_defaults() {
    assert_eq!(DateRange::default(), DateRange::Any);
    assert_eq!(NumericalValueRange::default(), NumericalValueRange::Any);
    assert_eq!(CompletionStatus::default(), CompletionStatus::Ignore);
    assert_eq!(CrossoverStatus::default(), CrossoverStatus::Ignore);
    assert_eq!(Rating::default(), Rating::Any);
    assert_eq!(SortBy::default(), SortBy::BestMatch);
    assert_eq!(SortDirection::default(), SortDirection::Descending);
    assert_eq!(AO3QueryBuilder::default().render_query_string(), DEFAULT_QUERY);
}
