use ao3rs::models::WorkDate;
use ao3rs::{AO3Work, Rating};

#[test]
fn new_record_keeps_its_fields() {
    let mut w = AO3Work::new(
        String::from("1"),
        String::from("https://archiveofourown.org/works/1"),
        String::from("T"),
        vec![String::from("a")],
        vec![String::from("f")],
    );
    assert_eq!(w.id, "1");
    assert_eq!(w.title, "T");
    assert_eq!(w.authors, vec![String::from("a")]);
    assert_eq!(w.fandoms, vec![String::from("f")]);
    assert_eq!(w.date, WorkDate::epoch());
    assert_eq!(w.get_rating(), Rating::Any);
}
